use admin_http::listing::{
    paginate, page_fits, status_filter, StatusFilter, filter_users, filter_peers, visible_peers,
    PeerAllowList, visible_groups, contains_text, wants_page, audit_window, grant_scope, GrantScope,
};
use admin_http::records::{UserRecord, PeerRecord, DeviceGroup, Claims};

fn user(id: i64, status: i64) -> UserRecord {
    UserRecord {
        id,
        username: format!("u{id}"),
        password_hash: String::new(),
        role: "user".to_string(),
        status,
        created_at: String::new(),
    }
}

fn peer(id: &str, status: Option<i64>, controlled: i64) -> PeerRecord {
    PeerRecord {
        id: id.to_string(),
        name: None,
        created_at: String::new(),
        status,
        is_controlled: controlled,
        note: None,
        info: String::new(),
    }
}

fn group(id: i64) -> DeviceGroup {
    DeviceGroup { id, name: format!("g{id}"), created_at: String::new() }
}

#[test]
fn pages_default_and_clamp() {
    let items: Vec<u32> = (0..250).collect();
    assert_eq!(paginate(items.clone(), None, None), (0..100).collect::<Vec<u32>>());
    assert_eq!(paginate(items.clone(), Some(3), None), (200..250).collect::<Vec<u32>>());
    assert_eq!(paginate(items.clone(), Some(0), Some(10)), (0..10).collect::<Vec<u32>>());
    assert_eq!(paginate(items.clone(), Some(2), Some(0)), vec![1]);
    assert_eq!(paginate(items.clone(), Some(1), Some(1000)).len(), 250);
    assert!(paginate(items.clone(), Some(4), None).is_empty());
    assert!(page_fits(Some(usize::MAX / 500), Some(500)));
    assert!(!page_fits(Some(usize::MAX), Some(500)));
    assert!(page_fits(Some(usize::MAX), Some(1)));
}

#[test]
fn every_item_is_on_its_page() {
    let items: Vec<u32> = (0..37).collect();
    for size in [1usize, 5, 10, 36, 37, 40] {
        for i in 0..items.len() {
            let page = paginate(items.clone(), Some(i / size + 1), Some(size));
            assert_eq!(page[i % size], items[i]);
        }
    }
}

#[test]
fn status_parameter() {
    assert!(matches!(status_filter(&Some("1".into())), StatusFilter::Enabled));
    assert!(matches!(status_filter(&Some("0".into())), StatusFilter::Disabled));
    assert!(matches!(status_filter(&Some("2".into())), StatusFilter::Any));
    assert!(matches!(status_filter(&None), StatusFilter::Any));
}

#[test]
fn user_status_filters() {
    let users = vec![user(1, 1), user(2, 0), user(3, 2)];
    let ids = |v: Vec<UserRecord>| v.iter().map(|u| u.id).collect::<Vec<_>>();
    assert_eq!(ids(filter_users(&users, StatusFilter::Enabled)), vec![1]);
    assert_eq!(ids(filter_users(&users, StatusFilter::Disabled)), vec![2]);
    assert_eq!(ids(filter_users(&users, StatusFilter::Any)), vec![1, 2, 3]);
}

#[test]
fn device_status_filters_split_the_devices() {
    let peers = vec![peer("a", None, 1), peer("b", Some(0), 1), peer("c", Some(2), 0)];
    let ids = |v: Vec<PeerRecord>| v.into_iter().map(|p| p.id).collect::<Vec<_>>();
    let on = ids(filter_peers(&peers, StatusFilter::Enabled));
    let off = ids(filter_peers(&peers, StatusFilter::Disabled));
    assert_eq!(on, vec!["a", "c"]);
    assert_eq!(off, vec!["b"]);
    assert_eq!(on.len() + off.len(), peers.len());
    assert_eq!(filter_peers(&peers, StatusFilter::Any).len(), 3);
}

#[test]
fn non_admins_see_given_controlled_devices() {
    let rows = vec![peer("a", None, 1), peer("b", None, 0), peer("c", None, 1), peer("d", None, 1)];
    let allow = Some(PeerAllowList { direct: vec!["a".into(), "b".into()], grouped: vec!["d".into()] });
    let seen: Vec<String> = visible_peers(&rows, &allow).into_iter().map(|p| p.id).collect();
    assert_eq!(seen, vec!["a", "d"]);
    assert_eq!(visible_peers(&rows, &None).len(), 4);
    assert!(contains_text(&vec!["x".to_string()], "x"));
    assert!(!contains_text(&vec!["x".to_string()], "y"));
}

#[test]
fn groups_seen() {
    let groups = vec![group(1), group(2), group(3)];
    let seen: Vec<i64> = visible_groups(&groups, &Some(vec![3, 1, 9])).iter().map(|g| g.id).collect();
    assert_eq!(seen, vec![1, 3]);
    assert_eq!(visible_groups(&groups, &None).len(), 3);
    assert!(visible_groups(&groups, &Some(vec![])).is_empty());
}

#[test]
fn paging_and_audit_parameters() {
    assert!(!wants_page(None, None));
    assert!(wants_page(Some(1), None));
    assert!(wants_page(None, Some(5)));
    assert_eq!(audit_window(None, None), (0, 50));
    assert_eq!(audit_window(Some(7), Some(3)), (7, 3));
}

#[test]
fn grants_limit_non_admins_only() {
    let admin = Claims { sub: 1, username: "a".into(), role: "admin".into(), exp: 0 };
    let user = Claims { sub: 8, username: "b".into(), role: "user".into(), exp: 0 };
    assert!(matches!(grant_scope(&admin), GrantScope::Everything));
    assert!(matches!(grant_scope(&user), GrantScope::GrantsOf(8)));
}
