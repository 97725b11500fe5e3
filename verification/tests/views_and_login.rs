use admin_http::login::{
    session_claims, console_login, CompatLoginRequest, CompatLoginStep, compat_login_step,
    compat_account_login, compat_device_login, SESSION_SECONDS,
};
use admin_http::password::{hash_password, hash_failure_response, check_user_credentials, CredentialCheck, HashFailure};
use admin_http::records::{Claims, UserRecord, PeerRecord, RuntimeStatus, DeviceGroup};
use admin_http::summary::{
    client_list, peer_page_items, user_summaries, compat_user, compat_users, current_user,
};
use admin_http::tree::{group_tree, user_tree, group_name, UserGrants, GroupMembers, device_node};

fn user_with_hash(id: i64, status: i64, hash: &str) -> UserRecord {
    UserRecord {
        id,
        username: format!("u{id}"),
        password_hash: hash.to_string(),
        role: "admin".to_string(),
        status,
        created_at: "t".to_string(),
    }
}

fn peer(id: &str, status: Option<i64>, controlled: i64) -> PeerRecord {
    PeerRecord {
        id: id.to_string(),
        name: Some(format!("name-{id}")),
        created_at: "c".to_string(),
        status,
        is_controlled: controlled,
        note: None,
        info: "{\"os\":\"linux\"}".to_string(),
    }
}

fn req(user: Option<&str>, pass: Option<&str>, id: Option<&str>, t: Option<&str>) -> CompatLoginRequest {
    CompatLoginRequest {
        username: user.map(String::from),
        password: pass.map(String::from),
        id: id.map(String::from),
        req_type: t.map(String::from),
    }
}

fn refusal(step: CompatLoginStep) -> String {
    match step {
        CompatLoginStep::Refuse(m) => m,
        _ => panic!("expected a refusal"),
    }
}

#[test]
fn hashed_password_logs_in_and_others_do_not() {
    let hash = hash_password("correct horse").unwrap();
    assert_ne!(hash, "correct horse");
    assert!(hash.starts_with("$2b$12$"));
    let u = user_with_hash(1, 1, &hash);
    assert!(matches!(check_user_credentials(&u, "correct horse"), CredentialCheck::Accepted));
    assert!(matches!(check_user_credentials(&u, "wrong"), CredentialCheck::Rejected));
    let disabled = user_with_hash(1, 0, &hash);
    assert!(matches!(check_user_credentials(&disabled, "correct horse"), CredentialCheck::Disabled));
    let garbage = user_with_hash(1, 1, "not a hash");
    assert!(matches!(check_user_credentials(&garbage, "x"), CredentialCheck::Rejected));
    assert!(console_login(Some(u), "correct horse").is_ok());
    // the default work factor is never refused
    assert!(!matches!(hash_password("x"), Err(HashFailure::CostRefused(_, _))));
}

#[test]
fn console_login_refusals() {
    let e = console_login(None, "x").unwrap_err();
    assert_eq!((e.status, e.message.as_str()), (401, "Invalid username or password"));
    let e = console_login(Some(user_with_hash(1, 0, "x")), "x").unwrap_err();
    assert_eq!((e.status, e.message.as_str()), (401, "User is disabled"));
    let e = console_login(Some(user_with_hash(1, 1, "not a hash")), "x").unwrap_err();
    assert_eq!(e.message, "Invalid username or password");
}

#[test]
fn sessions_last_twelve_hours() {
    let c = session_claims(&user_with_hash(4, 1, ""), 1_700_000_000);
    assert_eq!(c.exp, 1_700_000_000 + 43_200);
    assert_eq!(SESSION_SECONDS, 43_200);
    assert_eq!((c.sub, c.username.as_str(), c.role.as_str()), (4, "u4", "admin"));
}

#[test]
fn compat_login_planning() {
    assert_eq!(refusal(compat_login_step(&req(Some("bob"), Some("pw"), None, Some("oidc")))), "Unsupported login type");
    assert_eq!(refusal(compat_login_step(&req(Some("  "), Some("pw"), None, None))), "Invalid username or password");
    assert_eq!(refusal(compat_login_step(&req(Some("bob"), None, None, Some("mobile")))), "Invalid username or password");
    assert_eq!(refusal(compat_login_step(&req(None, None, Some("  "), None))), "Invalid username or password");
    match compat_login_step(&req(Some(" bob "), Some(" pw "), Some("dev"), None)) {
        CompatLoginStep::CheckAccount { username, password } => {
            assert_eq!(username, "bob");
            assert_eq!(password, " pw ");
        }
        _ => panic!("expected an account login"),
    }
    match compat_login_step(&req(Some(" "), Some(""), Some(" 123 "), Some("weird"))) {
        CompatLoginStep::CheckDevice { peer_id } => assert_eq!(peer_id, "123"),
        _ => panic!("expected a device login"),
    }
}

#[test]
fn compat_account_and_device_logins() {
    assert_eq!(compat_account_login(None, "x").unwrap_err(), "Invalid username or password");
    assert_eq!(compat_account_login(Some(user_with_hash(1, 0, "x")), "x").unwrap_err(), "User is disabled");
    assert_eq!(compat_account_login(Some(user_with_hash(1, 1, "bad")), "x").unwrap_err(), "Invalid username or password");
    assert_eq!(compat_device_login(Ok(None), "d").unwrap_err(), "Device not found");
    assert_eq!(compat_device_login(Err("db down".into()), "d").unwrap_err(), "db down");
    assert_eq!(compat_device_login(Ok(Some(peer("d", Some(0), 1))), "d").unwrap_err(), "Device is disabled");
    assert_eq!(
        compat_device_login(Ok(Some(peer("d", None, 0))), "d").unwrap_err(),
        "Device is not marked as controlled endpoint"
    );
    let u = compat_device_login(Ok(Some(peer("d", None, 1))), "d").unwrap();
    assert_eq!((u.name.as_str(), u.status, u.is_admin), ("d", 1, false));
}

#[test]
fn device_views() {
    let rows = vec![peer("a", None, 1), peer("b", Some(0), 0)];
    let rt = vec![RuntimeStatus { id: "a".into(), online: true, last_seen_secs: 3, ip: "10.0.0.1".into() }];
    let list = client_list(&rows, &rt);
    assert_eq!(list.len(), 2);
    assert!(list[0].online && list[0].last_seen_secs == Some(3) && list[0].ip == "10.0.0.1");
    assert!(!list[1].online && list[1].last_seen_secs.is_none() && list[1].ip.is_empty());
    assert!(list[0].is_controlled && !list[1].is_controlled);
    let page = peer_page_items(&rows);
    assert_eq!(page[0].status, 1);
    assert_eq!(page[1].status, 0);
    assert_eq!(page[0].name, "name-a");
    assert_eq!(page[0].note, "");
    assert_eq!(page[0].info.as_deref(), Some("{\"os\":\"linux\"}"));
    let odd = vec![PeerRecord { info: "not json".to_string(), ..peer("c", None, 1) }];
    assert_eq!(peer_page_items(&odd)[0].info, None);
}

#[test]
fn account_views() {
    let users = vec![user_with_hash(1, 1, "h")];
    let s = user_summaries(&users);
    assert_eq!((s[0].id, s[0].username.as_str(), s[0].created_at.as_str()), (1, "u1", "t"));
    let c = compat_users(&users);
    assert!(c[0].is_admin);
    let d = compat_user("x", "user", 0);
    assert!(!d.is_admin && d.status == 0);
    let me = current_user(&Claims { sub: 2, username: "bob".into(), role: "admin".into(), exp: 0 });
    assert!(me.is_admin && me.id == 2);
}

#[test]
fn trees() {
    let peers = vec![peer("a", None, 1), peer("a", Some(0), 0)];
    let rt = vec![RuntimeStatus { id: "a".into(), online: true, last_seen_secs: 9, ip: String::new() }];
    // later records of an id win
    let n = device_node(&"a".to_string(), &peers, &rt);
    let d = n.detail.unwrap();
    assert_eq!(d.status, 0);
    assert!(!d.is_controlled && d.online && d.last_seen_secs == Some(9));
    assert!(device_node(&"zz".to_string(), &peers, &rt).detail.is_none());
    let groups = vec![DeviceGroup { id: 1, name: "ops".into(), created_at: "c".into() }];
    let gt = group_tree(&groups, &vec![vec!["a".to_string(), "q".to_string()]], &peers, &rt);
    assert_eq!(gt[0].devices.len(), 2);
    assert!(gt[0].devices[1].detail.is_none());
    assert_eq!(group_name(&groups, 1), "ops");
    assert_eq!(group_name(&groups, -12), "Group--12");
    let users = vec![user_with_hash(5, 1, "")];
    let grants = vec![UserGrants {
        direct: vec!["a".to_string()],
        groups: vec![GroupMembers { group_id: 7, members: vec![] }, GroupMembers { group_id: 1, members: vec!["a".to_string()] }],
    }];
    let ut = user_tree(&users, &grants, &groups, &peers, &rt);
    assert_eq!(ut[0].groups[0].name, "Group-7");
    assert_eq!(ut[0].groups[1].name, "ops");
    assert_eq!(ut[0].direct_devices.len(), 1);
    assert_eq!(ut[0].id, 5);
}

#[test]
fn hashing_failures_are_internal_errors_with_bcrypts_text() {
    let e = hash_failure_response(&HashFailure::CostRefused(3, bcrypt::BcryptError::CostNotAllowed(3)));
    assert_eq!(e.status, 500);
    assert_eq!(e.message, bcrypt::BcryptError::CostNotAllowed(3).to_string());
    let e = hash_failure_response(&HashFailure::Other(bcrypt::BcryptError::InvalidSaltLen(2)));
    assert_eq!(e.status, 500);
    assert!(!e.message.is_empty());
}
