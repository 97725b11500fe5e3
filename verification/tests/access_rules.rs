use admin_http::access::{
    require_admin, require_self_or_admin, ab_profile_access, AbProfileAccess, personal_ab_owner,
    request_token, claims_or_invalid, new_user_request, set_user_status_check,
    require_user_exists, delete_user_check, new_group_name, require_peer,
    require_controlled_peer, AssignTarget, user_scope, token_or_invalid, token_account, UserScope, own_account_listing, new_tag,
    tag_renaming,
};
use admin_http::records::{Claims, UserRecord, PeerRecord};
use admin_http::config::{api_port, token_secret};

fn claims(sub: i64, role: &str) -> Claims {
    Claims { sub, username: format!("u{sub}"), role: role.to_string(), exp: 0 }
}

fn user(id: i64, status: i64) -> UserRecord {
    UserRecord {
        id,
        username: format!("u{id}"),
        password_hash: String::new(),
        role: "user".to_string(),
        status,
        created_at: "2024-01-01".to_string(),
    }
}

fn peer(id: &str, controlled: i64) -> PeerRecord {
    PeerRecord {
        id: id.to_string(),
        name: None,
        created_at: String::new(),
        status: None,
        is_controlled: controlled,
        note: None,
        info: "{}".to_string(),
    }
}

#[test]
fn only_admins_pass_require_admin() {
    assert!(require_admin(&claims(1, "admin")).is_ok());
    let e = require_admin(&claims(1, "user")).unwrap_err();
    assert_eq!((e.status, e.message.as_str()), (401, "Admin only"));
    assert!(require_admin(&claims(1, "Admin")).is_err());
}

#[test]
fn own_acl_is_readable_by_self_and_admins() {
    assert!(require_self_or_admin(&claims(5, "user"), 5).is_ok());
    assert!(require_self_or_admin(&claims(1, "admin"), 5).is_ok());
    let e = require_self_or_admin(&claims(4, "user"), 5).unwrap_err();
    assert_eq!((e.status, e.message.as_str()), (401, "Permission denied"));
}

#[test]
fn address_book_access() {
    assert!(matches!(ab_profile_access(&claims(3, "user"), None), AbProfileAccess::UsePersonal));
    assert!(matches!(ab_profile_access(&claims(3, "user"), Some(3)), AbProfileAccess::UseFound));
    assert!(matches!(ab_profile_access(&claims(1, "admin"), Some(3)), AbProfileAccess::UseFound));
    match ab_profile_access(&claims(4, "user"), Some(3)) {
        AbProfileAccess::Denied(e) => assert_eq!((e.status, e.message.as_str()), (401, "Permission denied")),
        _ => panic!("another user's address book was granted"),
    }
    assert_eq!(personal_ab_owner(Some(user(3, 1))).unwrap().id, 3);
    let e = personal_ab_owner(None).unwrap_err();
    assert_eq!((e.status, e.message.as_str()), (401, "Invalid user"));
}

#[test]
fn token_header_comes_first() {
    let t = request_token(Some(Some("Bearer t1".into())), Some(Some("Bearer t2".into()))).unwrap();
    assert_eq!(t, "t1");
    let t = request_token(None, Some(Some("Bearer t2".into()))).unwrap();
    assert_eq!(t, "t2");
    let t = request_token(Some(Some("raw".into())), None).unwrap();
    assert_eq!(t, "raw");
    // an unreadable token header hides the Authorization header
    let e = request_token(Some(None), Some(Some("Bearer t2".into()))).unwrap_err();
    assert_eq!((e.status, e.message.as_str()), (401, "Missing token"));
    assert!(request_token(None, None).is_err());
    let e = claims_or_invalid(None).unwrap_err();
    assert_eq!((e.status, e.message.as_str()), (401, "Invalid token"));
    assert_eq!(claims_or_invalid(Some(claims(9, "user"))).unwrap().sub, 9);
}

#[test]
fn account_creation_rules() {
    let admin = claims(1, "admin");
    let ok = new_user_request(&admin, "  carol ", "secret1", None).unwrap();
    assert_eq!((ok.username.as_str(), ok.role.as_str()), ("carol", "user"));
    let ok = new_user_request(&admin, "dave", "secret1", Some("admin".into())).unwrap();
    assert_eq!(ok.role, "admin");
    let e = new_user_request(&admin, " ab ", "secret1", None).unwrap_err();
    assert_eq!((e.status, e.message.as_str()), (400, "Username >=3 chars, password >=6 chars"));
    let e = new_user_request(&admin, "carol", "12345", None).unwrap_err();
    assert_eq!(e.message, "Username >=3 chars, password >=6 chars");
    // lengths are counted in bytes
    assert!(new_user_request(&admin, "中", "secret1", None).is_ok());
    let e = new_user_request(&admin, "carol", "secret1", Some("root".into())).unwrap_err();
    assert_eq!((e.status, e.message.as_str()), (400, "Role must be admin or user"));
    let e = new_user_request(&claims(2, "user"), "carol", "secret1", None).unwrap_err();
    assert_eq!((e.status, e.message.as_str()), (401, "Admin only"));
}

#[test]
fn nobody_disables_or_deletes_own_account() {
    let admin = claims(1, "admin");
    let e = set_user_status_check(&admin, 1, 0).unwrap_err();
    assert_eq!((e.status, e.message.as_str()), (400, "Cannot disable current login user"));
    assert!(set_user_status_check(&admin, 1, 1).is_ok());
    assert!(set_user_status_check(&admin, 2, 0).is_ok());
    assert!(set_user_status_check(&claims(2, "user"), 3, 1).is_err());
    let e = require_user_exists(false).unwrap_err();
    assert_eq!((e.status, e.message.as_str()), (404, "User not found"));
    assert!(require_user_exists(true).is_ok());
    let e = delete_user_check(&admin, 1).unwrap_err();
    assert_eq!((e.status, e.message.as_str()), (400, "Cannot delete current login user"));
    assert!(delete_user_check(&admin, 2).is_ok());
    assert_eq!(delete_user_check(&claims(2, "user"), 3).unwrap_err().status, 401);
}

#[test]
fn group_names() {
    let admin = claims(1, "admin");
    assert_eq!(new_group_name(&admin, "  ops  ").unwrap(), "ops");
    let e = new_group_name(&admin, " x ").unwrap_err();
    assert_eq!((e.status, e.message.as_str()), (400, "Group name must be at least 2 chars"));
    assert_eq!(new_group_name(&claims(2, "user"), "ops").unwrap_err().status, 401);
}

#[test]
fn devices_must_exist_and_be_controlled_to_be_given() {
    let e = require_peer(None).unwrap_err();
    assert_eq!((e.status, e.message.as_str()), (404, "Peer not found"));
    assert!(require_peer(Some(&peer("p", 0))).is_ok());
    let e = require_controlled_peer(Some(&peer("p", 0)), AssignTarget::User).unwrap_err();
    assert_eq!((e.status, e.message.as_str()), (400, "Only controlled devices can be assigned to users"));
    let e = require_controlled_peer(Some(&peer("p", 0)), AssignTarget::Group).unwrap_err();
    assert_eq!(e.message, "Only controlled devices can be added into groups");
    assert_eq!(require_controlled_peer(None, AssignTarget::Group).unwrap_err().status, 404);
    assert!(require_controlled_peer(Some(&peer("p", 1)), AssignTarget::User).is_ok());
}

#[test]
fn account_listing_scope() {
    assert!(matches!(user_scope(&claims(1, "admin")), UserScope::All));
    assert!(matches!(user_scope(&claims(7, "user")), UserScope::Only(7)));
    assert_eq!(own_account_listing(Some(user(7, 1))).len(), 1);
    assert_eq!(own_account_listing(None).len(), 0);
}

#[test]
fn address_book_tags() {
    let (name, color) = new_tag("  work ", None);
    assert_eq!((name.as_str(), color), ("work", 0));
    assert_eq!(new_tag("home", Some(-5)).1, -5);
    let (a, b) = tag_renaming(" a ", "\tb");
    assert_eq!((a.as_str(), b.as_str()), ("a", "b"));
}

#[test]
fn server_settings() {
    assert_eq!(api_port(21114), Some(21114));
    assert_eq!(api_port(0), None);
    assert_eq!(api_port(-3), None);
    assert_eq!(api_port(65535), Some(65535));
    assert_eq!(api_port(65536), None);
    assert_eq!(token_secret(None), "change-this-secret");
    assert_eq!(token_secret(Some("s3".into())), "s3");
}

#[test]
fn client_reauthentication_answers_invalid_token() {
    let e = token_or_invalid(claims_or_invalid(None)).unwrap_err();
    assert_eq!((e.status, e.message.as_str()), (401, "Invalid token"));
    let missing = request_token(None, None).map(|_| claims(0, "user"));
    let e = token_or_invalid(missing).unwrap_err();
    assert_eq!((e.status, e.message.as_str()), (401, "Invalid token"));
    assert_eq!(token_or_invalid(Ok(claims(4, "user"))).unwrap().sub, 4);
    let e = token_account(None).unwrap_err();
    assert_eq!((e.status, e.message.as_str()), (401, "Invalid token"));
    assert_eq!(token_account(Some(user(6, 1))).unwrap().id, 6);
}

#[test]
fn valid_account_requests_are_accepted() {
    let admin = claims(1, "admin");
    for (name, pass, role) in [("abc", "123456", None), (" xyz\t", "abcdef", Some("user")), ("root", "secret!", Some("admin"))] {
        let u = new_user_request(&admin, name, pass, role.map(String::from)).unwrap();
        assert_eq!(u.username, name.trim());
    }
}
