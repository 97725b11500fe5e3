use vstd::prelude::*;
use crate::error::{
    ApiFailure, fails_with, auth_err, bad_req, not_found, is_failure, status_unauthorized,
    status_bad_request, status_not_found,
};
use crate::records::{Claims, UserRecord, PeerRecord};
use crate::text::{trim, trimmed, strip_bearer, without_prefix, text_eq, byte_len, byte_len_at_least};

verus! {

/// The role that may administer everything.
pub open spec fn is_admin_role(role: Seq<char>) -> bool {
    role == "admin"@
}

/// Whether the token's holder is an administrator.
pub fn is_admin(claims: &Claims) -> (b: bool)
    ensures
        b == is_admin_role(claims.role@),
{
    text_eq(claims.role.as_str(), "admin")
}

/// Refuses a request of anyone but an administrator.
pub fn require_admin(claims: &Claims) -> (r: Result<(), ApiFailure>)
    ensures
        r is Ok <==> is_admin_role(claims.role@),
        r matches Err(e) ==> is_failure(e, status_unauthorized(), "Admin only"@),
{
    if !is_admin(claims) {
        return Err(auth_err("Admin only"));
    }
    Ok(())
}

/// A user's own access lists may be read by that user and by administrators.
pub fn require_self_or_admin(claims: &Claims, user_id: i64) -> (r: Result<(), ApiFailure>)
    ensures
        r is Ok <==> (is_admin_role(claims.role@) || claims.sub == user_id),
        r matches Err(e) ==> is_failure(e, status_unauthorized(), "Permission denied"@),
{
    if !is_admin(claims) && claims.sub != user_id {
        return Err(auth_err("Permission denied"));
    }
    Ok(())
}

/// Which address book a request works on.
#[derive(Debug)]
pub enum AbProfileAccess {
    /// The address book that the request named.
    UseFound,
    /// The caller may not use the named address book.
    Denied(ApiFailure),
    /// None was named, or the named one does not exist: the caller's
    /// personal address book (created if missing).
    UsePersonal,
}

/// Decides on an address-book request, given the owner of the address book
/// that the request named, or none where it named none or none exists.
/// Administrators may use every address book, others only their own.
pub fn ab_profile_access(claims: &Claims, found_owner: Option<i64>) -> (r: AbProfileAccess)
    ensures
        found_owner is None ==> r is UsePersonal,
        found_owner matches Some(o) ==> {
            if is_admin_role(claims.role@) || o == claims.sub {
                r is UseFound
            } else {
                (r matches AbProfileAccess::Denied(e) && is_failure(
                    e,
                    status_unauthorized(),
                    "Permission denied"@,
                ))
            }
        },
{
    match found_owner {
        Some(o) => {
            if is_admin(claims) || o == claims.sub {
                AbProfileAccess::UseFound
            } else {
                AbProfileAccess::Denied(auth_err("Permission denied"))
            }
        },
        None => AbProfileAccess::UsePersonal,
    }
}

/// The account whose personal address book is used; a token whose user no
/// longer exists is refused.
pub fn personal_ab_owner(found: Option<UserRecord>) -> (r: Result<UserRecord, ApiFailure>)
    ensures
        found matches Some(u) ==> r == Ok::<UserRecord, ApiFailure>(u),
        found is None ==> fails_with(r, status_unauthorized(), "Invalid user"@),
{
    match found {
        Some(u) => Ok(u),
        None => Err(auth_err("Invalid user")),
    }
}

/// The header that carries the token: `token` where the request has it,
/// else `Authorization`. Each is absent (`None`), or present with its value
/// as text, or present but not readable as text (`Some(None)`).
pub open spec fn chosen_header(
    token_header: Option<Option<String>>,
    authorization: Option<Option<String>>,
) -> Option<Option<String>> {
    if token_header is Some {
        token_header
    } else {
        authorization
    }
}

/// The session token of a request, with a leading `"Bearer "` removed.
pub fn request_token(
    token_header: Option<Option<String>>,
    authorization: Option<Option<String>>,
) -> (r: Result<String, ApiFailure>)
    ensures
        chosen_header(token_header, authorization) matches Some(Some(v)) ==> (r matches Ok(t)
            && t@ == without_prefix(v@, "Bearer "@)),
        !(chosen_header(token_header, authorization) matches Some(Some(_))) ==> fails_with(r, status_unauthorized(), "Missing token"@),
{
    let chosen = if token_header.is_some() {
        token_header
    } else {
        authorization
    };
    match chosen {
        Some(Some(v)) => Ok(strip_bearer(v.as_str())),
        _ => Err(auth_err("Missing token")),
    }
}

/// The claims of a token that was checked (`None` where its signature or
/// expiry was refused).
pub fn claims_or_invalid(decoded: Option<Claims>) -> (r: Result<Claims, ApiFailure>)
    ensures
        decoded matches Some(c) ==> r == Ok::<Claims, ApiFailure>(c),
        decoded is None ==> fails_with(r, status_unauthorized(), "Invalid token"@),
{
    match decoded {
        Some(c) => Ok(c),
        None => Err(auth_err("Invalid token")),
    }
}

/// Re-authenticates a client asking for its account: any failure of its
/// token is answered as an invalid token.
pub fn token_or_invalid(checked: Result<Claims, ApiFailure>) -> (r: Result<Claims, ApiFailure>)
    ensures
        checked matches Ok(c) ==> r == Ok::<Claims, ApiFailure>(c),
        checked is Err ==> fails_with(r, status_unauthorized(), "Invalid token"@),
{
    match checked {
        Ok(c) => Ok(c),
        Err(_) => Err(auth_err("Invalid token")),
    }
}

/// The account a token names; a token whose account no longer exists is
/// answered as an invalid token.
pub fn token_account(found: Option<UserRecord>) -> (r: Result<UserRecord, ApiFailure>)
    ensures
        found matches Some(u) ==> r == Ok::<UserRecord, ApiFailure>(u),
        found is None ==> fails_with(r, status_unauthorized(), "Invalid token"@),
{
    match found {
        Some(u) => Ok(u),
        None => Err(auth_err("Invalid token")),
    }
}

/// The new account that a creation request asks for.
#[derive(Debug)]
pub struct NewUser {
    pub username: String,
    pub role: String,
}

/// The role that a creation request gives, `"user"` where it gives none.
pub open spec fn requested_role(role: Option<String>) -> Seq<char> {
    match role {
        Some(r) => r@,
        None => "user"@,
    }
}

/// Checks a request to create an account: administrators only; the name,
/// without surrounding white space, must have at least 3 bytes and the
/// password at least 6; the role, `"user"` by default, must be `"admin"` or
/// `"user"`.
pub fn new_user_request(claims: &Claims, username: &str, password: &str, role: Option<String>) -> (r:
    Result<NewUser, ApiFailure>)
    ensures
        !is_admin_role(claims.role@) ==> fails_with(r, status_unauthorized(),
            "Admin only"@,
        ),
        is_admin_role(claims.role@) && (byte_len(trimmed(username@)) < 3 || byte_len(password@) < 6)
            ==> fails_with(r, status_bad_request(),
            "Username >=3 chars, password >=6 chars"@,
        ),
        is_admin_role(claims.role@) && byte_len(trimmed(username@)) >= 3 && byte_len(password@) >= 6
            && requested_role(role) != "admin"@ && requested_role(role) != "user"@
            ==> fails_with(r, status_bad_request(), "Role must be admin or user"@),
        is_admin_role(claims.role@) && byte_len(trimmed(username@)) >= 3 && byte_len(password@) >= 6
            && (requested_role(role) == "admin"@ || requested_role(role) == "user"@) ==> r is Ok,
        r matches Ok(u) ==> {
            &&& is_admin_role(claims.role@)
            &&& byte_len(trimmed(username@)) >= 3
            &&& byte_len(password@) >= 6
            &&& u.username@ == trimmed(username@)
            &&& u.role@ == requested_role(role)
            &&& (u.role@ == "admin"@ || u.role@ == "user"@)
        },
{
    require_admin(claims)?;
    let name = trim(username);
    if !byte_len_at_least(name.as_str(), 3) || !byte_len_at_least(password, 6) {
        return Err(bad_req("Username >=3 chars, password >=6 chars"));
    }
    let role = match role {
        Some(r) => r,
        None => "user".to_owned(),
    };
    if !text_eq(role.as_str(), "admin") && !text_eq(role.as_str(), "user") {
        return Err(bad_req("Role must be admin or user"));
    }
    Ok(NewUser { username: name, role })
}

/// Checks a request to enable (`status` 1) or disable (`status` 0) an
/// account: administrators only, and none may disable the account it is
/// logged in with.
pub fn set_user_status_check(claims: &Claims, user_id: i64, status: i64) -> (r: Result<(), ApiFailure>)
    ensures
        !is_admin_role(claims.role@) ==> fails_with(r, status_unauthorized(),
            "Admin only"@,
        ),
        is_admin_role(claims.role@) && claims.sub == user_id && status == 0 ==> fails_with(r, status_bad_request(), "Cannot disable current login user"@),
        r is Ok <==> is_admin_role(claims.role@) && !(claims.sub == user_id && status == 0),
{
    require_admin(claims)?;
    if claims.sub == user_id && status == 0 {
        return Err(bad_req("Cannot disable current login user"));
    }
    Ok(())
}

/// Refuses a change to an account that does not exist.
pub fn require_user_exists(exists: bool) -> (r: Result<(), ApiFailure>)
    ensures
        r is Ok <==> exists,
        r matches Err(e) ==> is_failure(e, status_not_found(), "User not found"@),
{
    if !exists {
        return Err(not_found("User not found"));
    }
    Ok(())
}

/// Checks a request to delete an account: administrators only, and none may
/// delete the account it is logged in with.
pub fn delete_user_check(claims: &Claims, user_id: i64) -> (r: Result<(), ApiFailure>)
    ensures
        !is_admin_role(claims.role@) ==> fails_with(r, status_unauthorized(),
            "Admin only"@,
        ),
        is_admin_role(claims.role@) && claims.sub == user_id ==> fails_with(r, status_bad_request(),
            "Cannot delete current login user"@,
        ),
        r is Ok <==> is_admin_role(claims.role@) && claims.sub != user_id,
{
    require_admin(claims)?;
    if claims.sub == user_id {
        return Err(bad_req("Cannot delete current login user"));
    }
    Ok(())
}

/// Checks a request to create a device group: administrators only, and the
/// name, without surrounding white space, must have at least 2 bytes. Gives
/// that name.
pub fn new_group_name(claims: &Claims, name: &str) -> (r: Result<String, ApiFailure>)
    ensures
        !is_admin_role(claims.role@) ==> fails_with(r, status_unauthorized(),
            "Admin only"@,
        ),
        is_admin_role(claims.role@) && byte_len(trimmed(name@)) < 2 ==> fails_with(r, status_bad_request(), "Group name must be at least 2 chars"@),
        r matches Ok(n) ==> is_admin_role(claims.role@) && n@ == trimmed(name@) && byte_len(n@) >= 2,
        is_admin_role(claims.role@) && byte_len(trimmed(name@)) >= 2 ==> r is Ok,
{
    require_admin(claims)?;
    let n = trim(name);
    if !byte_len_at_least(n.as_str(), 2) {
        return Err(bad_req("Group name must be at least 2 chars"));
    }
    Ok(n)
}

/// Refuses a change to a device that does not exist.
pub fn require_peer(found: Option<&PeerRecord>) -> (r: Result<(), ApiFailure>)
    ensures
        r is Ok <==> found is Some,
        r matches Err(e) ==> is_failure(e, status_not_found(), "Peer not found"@),
{
    if found.is_none() {
        return Err(not_found("Peer not found"));
    }
    Ok(())
}

/// What a device is being given to.
#[derive(Debug)]
pub enum AssignTarget {
    User,
    Group,
}

/// The message refusing an uncontrolled device for `target`.
pub open spec fn uncontrolled_message(target: AssignTarget) -> Seq<char> {
    match target {
        AssignTarget::User => "Only controlled devices can be assigned to users"@,
        AssignTarget::Group => "Only controlled devices can be added into groups"@,
    }
}

/// Only existing devices marked as controlled may be given to users or put
/// into groups.
pub fn require_controlled_peer(found: Option<&PeerRecord>, target: AssignTarget) -> (r: Result<
    (),
    ApiFailure,
>)
    ensures
        found is None ==> fails_with(r, status_not_found(), "Peer not found"@),
        found matches Some(p) && p.is_controlled == 0 ==> fails_with(r, status_bad_request(),
            uncontrolled_message(target),
        ),
        r is Ok <==> (found matches Some(p) && p.is_controlled != 0),
{
    match found {
        None => Err(not_found("Peer not found")),
        Some(p) => {
            if p.is_controlled == 0 {
                match target {
                    AssignTarget::User => Err(
                        bad_req("Only controlled devices can be assigned to users"),
                    ),
                    AssignTarget::Group => Err(
                        bad_req("Only controlled devices can be added into groups"),
                    ),
                }
            } else {
                Ok(())
            }
        },
    }
}


/// Whose accounts a listing shows.
#[derive(Debug)]
pub enum UserScope {
    /// Every account (administrators).
    All,
    /// Only the caller's own account.
    Only(i64),
}

/// Administrators list every account, others only their own.
pub fn user_scope(claims: &Claims) -> (r: UserScope)
    ensures
        is_admin_role(claims.role@) ==> r is All,
        !is_admin_role(claims.role@) ==> r == UserScope::Only(claims.sub),
{
    if is_admin(claims) {
        UserScope::All
    } else {
        UserScope::Only(claims.sub)
    }
}

/// The accounts of a listing limited to one account: that account where it
/// exists, else none.
pub fn own_account_listing(found: Option<UserRecord>) -> (r: Vec<UserRecord>)
    ensures
        found matches Some(u) ==> r@ == seq![u],
        found is None ==> r@.len() == 0,
{
    match found {
        Some(u) => vec![u],
        None => Vec::new(),
    }
}

/// The most devices that one address book holds, as announced to clients.
pub const MAX_PEERS_PER_ADDRESS_BOOK: i64 = 1000;

/// A tag to add to an address book: its name without surrounding white
/// space, and its color, 0 where none is given.
pub fn new_tag(name: &str, color: Option<i64>) -> (r: (String, i64))
    ensures
        r.0@ == trimmed(name@),
        r.1 == (match color {
            Some(c) => c,
            None => 0,
        }),
{
    let c = match color {
        Some(c) => c,
        None => 0,
    };
    (trim(name), c)
}

/// A tag renaming: both names without surrounding white space.
pub fn tag_renaming(old: &str, new: &str) -> (r: (String, String))
    ensures
        r.0@ == trimmed(old@),
        r.1@ == trimmed(new@),
{
    (trim(old), trim(new))
}

} // verus!
