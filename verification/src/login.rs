use vstd::prelude::*;
use crate::error::{ApiFailure, auth_err, fails_with, status_unauthorized};
use crate::records::{Claims, UserRecord, PeerRecord};
use crate::password::{CredentialCheck, credential_outcome, check_user_credentials};
use crate::summary::{CompatUser, compat_user, text_or_empty, copy_text_or_empty};
use crate::listing::peer_status;
use crate::access::is_admin_role;
use crate::text::{trim, trimmed, text_eq};

verus! {

/// How long a session token stays valid, in seconds.
pub const SESSION_SECONDS: i64 = 43200;

/// The claims of a session opened for `user` at `now` (seconds since the
/// Unix epoch): valid for twelve hours.
pub fn session_claims(user: &UserRecord, now: i64) -> (c: Claims)
    requires
        now + SESSION_SECONDS <= i64::MAX,
    ensures
        c.sub == user.id,
        c.username == user.username,
        c.role == user.role,
        c.exp == (now + SESSION_SECONDS) as usize,
{
    let t: i64 = now + SESSION_SECONDS;
    Claims {
        sub: user.id,
        username: user.username.clone(),
        role: user.role.clone(),
        exp: #[verifier::truncate]
        (t as usize),
    }
}

/// The console's login: an unknown account or a wrong password are refused
/// alike, a disabled account with its own message. Gives the account to
/// open a session for.
pub fn console_login(found: Option<UserRecord>, password: &str) -> (r: Result<
    UserRecord,
    ApiFailure,
>)
    ensures
        found is None ==> fails_with(r, status_unauthorized(), "Invalid username or password"@),
        found matches Some(u) ==> match credential_outcome(u.status, password@, u.password_hash@) {
            CredentialCheck::Disabled => fails_with(r, status_unauthorized(), "User is disabled"@),
            CredentialCheck::Rejected => fails_with(
                r,
                status_unauthorized(),
                "Invalid username or password"@,
            ),
            CredentialCheck::Accepted => r == Ok::<UserRecord, ApiFailure>(u),
        },
{
    match found {
        None => Err(auth_err("Invalid username or password")),
        Some(u) => match check_user_credentials(&u, password) {
            CredentialCheck::Disabled => Err(auth_err("User is disabled")),
            CredentialCheck::Rejected => Err(auth_err("Invalid username or password")),
            CredentialCheck::Accepted => Ok(u),
        },
    }
}

/// A login request of the desktop client: with an account name and
/// password, or with a device id alone.
#[derive(Debug)]
pub struct CompatLoginRequest {
    pub username: Option<String>,
    pub password: Option<String>,
    pub id: Option<String>,
    pub req_type: Option<String>,
}

/// What to do with a desktop client's login request.
#[derive(Debug)]
pub enum CompatLoginStep {
    /// Answer with this error message.
    Refuse(String),
    /// Check the password of the named account.
    CheckAccount { username: String, password: String },
    /// Check the device with this id.
    CheckDevice { peer_id: String },
}

/// The login type of a request, `"account"` where it gives none.
pub open spec fn login_type(t: Option<String>) -> Seq<char> {
    match t {
        Some(v) => v@,
        None => "account"@,
    }
}

/// Decides on a desktop client's login request. A request with an account
/// name or a password is an account login: only of type `"account"` or
/// `"mobile"`, and it needs both a name (not blank) and a password. Any
/// other request is a device login by the device's id, which must not be
/// blank. Names and ids are taken without surrounding white space.
pub fn compat_login_step(req: &CompatLoginRequest) -> (r: CompatLoginStep)
    ensures
        ({
            let u = trimmed(text_or_empty(req.username));
            let p = text_or_empty(req.password);
            let d = trimmed(text_or_empty(req.id));
            let t = login_type(req.req_type);
            if u.len() != 0 || p.len() != 0 {
                if t != "account"@ && t != "mobile"@ {
                    r matches CompatLoginStep::Refuse(m) && m@ == "Unsupported login type"@
                } else if u.len() == 0 || p.len() == 0 {
                    r matches CompatLoginStep::Refuse(m) && m@ == "Invalid username or password"@
                } else {
                    r matches CompatLoginStep::CheckAccount { username, password } && username@ == u
                        && password@ == p
                }
            } else if d.len() == 0 {
                r matches CompatLoginStep::Refuse(m) && m@ == "Invalid username or password"@
            } else {
                r matches CompatLoginStep::CheckDevice { peer_id } && peer_id@ == d
            }
        }),
{
    let raw_user = copy_text_or_empty(&req.username);
    let password = copy_text_or_empty(&req.password);
    let raw_id = copy_text_or_empty(&req.id);
    let username = trim(raw_user.as_str());
    if !username.as_str().is_empty() || !password.as_str().is_empty() {
        let type_ok = match &req.req_type {
            Some(t) => text_eq(t.as_str(), "account") || text_eq(t.as_str(), "mobile"),
            None => true,
        };
        proof {
            reveal_strlit("account");
            reveal_strlit("mobile");
        }
        if !type_ok {
            return CompatLoginStep::Refuse("Unsupported login type".to_owned());
        }
        if username.as_str().is_empty() || password.as_str().is_empty() {
            return CompatLoginStep::Refuse("Invalid username or password".to_owned());
        }
        return CompatLoginStep::CheckAccount { username, password };
    }
    let peer_id = trim(raw_id.as_str());
    if peer_id.as_str().is_empty() {
        return CompatLoginStep::Refuse("Invalid username or password".to_owned());
    }
    CompatLoginStep::CheckDevice { peer_id }
}

/// The message answering an account login of the desktop client, or none
/// where the login is accepted; an account that could not be looked up
/// counts as unknown.
pub open spec fn compat_account_refusal(found: Option<UserRecord>, password: Seq<char>) -> Option<
    Seq<char>,
> {
    match found {
        None => Some("Invalid username or password"@),
        Some(u) => match credential_outcome(u.status, password, u.password_hash@) {
            CredentialCheck::Disabled => Some("User is disabled"@),
            CredentialCheck::Rejected => Some("Invalid username or password"@),
            CredentialCheck::Accepted => None,
        },
    }
}

/// Checks an account login of the desktop client. Gives the account to
/// open a session for, or the error message to answer with.
pub fn compat_account_login(found: Option<UserRecord>, password: &str) -> (r: Result<
    UserRecord,
    String,
>)
    ensures
        match compat_account_refusal(found, password@) {
            Some(m) => r matches Err(e) && e@ == m,
            None => found matches Some(u) && r == Ok::<UserRecord, String>(u),
        },
{
    match found {
        None => Err("Invalid username or password".to_owned()),
        Some(u) => match check_user_credentials(&u, password) {
            CredentialCheck::Disabled => Err("User is disabled".to_owned()),
            CredentialCheck::Rejected => Err("Invalid username or password".to_owned()),
            CredentialCheck::Accepted => Ok(u),
        },
    }
}

/// The message answering a device login, or none where it is accepted: the
/// device must be stored (a failed lookup answers with its own message),
/// enabled and marked as controlled.
pub open spec fn device_refusal(lookup: Result<Option<PeerRecord>, String>) -> Option<Seq<char>> {
    match lookup {
        Err(e) => Some(e@),
        Ok(None) => Some("Device not found"@),
        Ok(Some(p)) => if peer_status(p) == 0 {
            Some("Device is disabled"@)
        } else if p.is_controlled == 0 {
            Some("Device is not marked as controlled endpoint"@)
        } else {
            None
        },
    }
}

/// Checks a device login of the desktop client for device `peer_id`. An
/// accepted device logs in as a user named after its id, with role
/// `"device"` and status 1, and no token.
pub fn compat_device_login(lookup: Result<Option<PeerRecord>, String>, peer_id: &str) -> (r: Result<
    CompatUser,
    String,
>)
    ensures
        match device_refusal(lookup) {
            Some(m) => r matches Err(e) && e@ == m,
            None => r matches Ok(u) && u.name@ == peer_id@ && u.status == 1 && !u.is_admin,
        },
{
    proof {
        reveal_strlit("device");
        reveal_strlit("admin");
    }
    match lookup {
        Err(e) => Err(e),
        Ok(None) => Err("Device not found".to_owned()),
        Ok(Some(p)) => {
            let status = match p.status {
                Some(s) => s,
                None => 1,
            };
            if status == 0 {
                Err("Device is disabled".to_owned())
            } else if p.is_controlled == 0 {
                Err("Device is not marked as controlled endpoint".to_owned())
            } else {
                let u = compat_user(peer_id, "device", 1);
                assert("device"@.len() == 6 && "admin"@.len() == 5);
                assert(!is_admin_role("device"@));
                Ok(u)
            }
        },
    }
}


/// A disabled account cannot log in, whatever the password, neither on the
/// console nor from the desktop client.
pub proof fn law_disabled_account_cannot_log_in(u: UserRecord, password: Seq<char>)
    requires
        u.status == 0,
    ensures
        credential_outcome(u.status, password, u.password_hash@) == CredentialCheck::Disabled,
        compat_account_refusal(Some(u), password) == Some("User is disabled"@),
{
}


/// A login type that the request gives is taken as written; a request that
/// gives none is an account login. So a request of type `"account"` or
/// `"mobile"` with a name (not blank) and a password is checked against
/// that account.
pub proof fn law_given_login_type_is_taken_as_written(t: String)
    ensures
        login_type(Some(t)) == t@,
        login_type(None) == "account"@,
{
}

} // verus!
