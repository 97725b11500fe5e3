use vstd::prelude::*;
use crate::error::{ApiFailure, internal_err, status_internal};
use crate::records::UserRecord;
use crate::text::digit_text;

verus! {

/// `bcrypt::BcryptError`, carried through unread.
#[verifier::external_type_specification]
#[verifier::external_body]
pub struct ExBcryptError(bcrypt::BcryptError);

/// What `bcrypt::verify(password, hash)` returns: `Some(b)` for `Ok(b)`, `None`
/// for an error (a hash that is not in bcrypt's format). It depends on the
/// password and the stored hash alone.
pub uninterp spec fn bcrypt_verify_outcome(password: Seq<char>, hash: Seq<char>) -> Option<bool>;

/// Calls `bcrypt::verify`. The contract claims only that its result is the
/// named outcome for these two texts.
#[verifier::external_body]
fn bcrypt_verify(password: &str, hash: &str) -> (r: Result<bool, bcrypt::BcryptError>)
    ensures
        match r {
            Ok(b) => bcrypt_verify_outcome(password@, hash@) == Some(b),
            Err(_) => bcrypt_verify_outcome(password@, hash@) is None,
        },
{
    bcrypt::verify(password, hash)
}

/// The start of a bcrypt hash made with work factor `cost` (4 to 31):
/// `$2b$`, the cost in two digits, and `$`.
pub open spec fn hash_header(cost: nat) -> Seq<char> {
    "$2b$"@ + digit_text(cost / 10) + digit_text(cost % 10) + "$"@
}

/// Calls `bcrypt::hash`. The salt is random, so the hash itself is not
/// stated; the contract claims that a cost outside 4..=31 is refused, that
/// a hash returned starts with `$2b$` and the cost in two digits (the
/// crate formats it so), and that `bcrypt::verify` accepts the password
/// against any hash returned (the crate hashes with the salt and cost that
/// it writes into the result, and verify recomputes with them).
/// Its failures are told apart: `bcrypt::BcryptError::CostNotAllowed`, which
/// the crate returns only for a cost outside 4..=31 and which carries that
/// cost, and any other error (the OS random source failing).
#[verifier::external_body]
fn bcrypt_hash(password: &str, cost: u32) -> (r: Result<String, HashFailure>)
    ensures
        cost < 4 || cost > 31 ==> r is Err,
        r matches Err(HashFailure::CostRefused(c, _)) ==> c == cost && (cost < 4 || cost > 31),
        r matches Ok(h) ==> hash_header(cost as nat).is_prefix_of(h@),
        r matches Ok(h) ==> bcrypt_verify_outcome(password@, h@) == Some(true),
{
    match bcrypt::hash(password, cost) {
        Ok(h) => Ok(h),
        Err(e @ bcrypt::BcryptError::CostNotAllowed(c)) => Err(HashFailure::CostRefused(c, e)),
        Err(e) => Err(HashFailure::Other(e)),
    }
}

/// Why a password could not be hashed.
#[derive(Debug)]
pub enum HashFailure {
    /// bcrypt refused the work factor (given here) as out of range.
    CostRefused(u32, bcrypt::BcryptError),
    /// Any other failure of bcrypt, such as the random source failing.
    Other(bcrypt::BcryptError),
}

/// Calls `Display::to_string` on a `bcrypt::BcryptError`. Nothing is
/// claimed of the text.
#[verifier::external_body]
fn bcrypt_error_text(e: &bcrypt::BcryptError) -> String {
    e.to_string()
}

/// bcrypt's default work factor, which new passwords are hashed with.
pub const PASSWORD_HASH_COST: u32 = 12;

/// The verdict on a login attempt for an existing account.
#[derive(Debug)]
pub enum CredentialCheck {
    /// The account is disabled; the password is not looked at.
    Disabled,
    /// The password does not match the stored hash, or the hash is unreadable.
    Rejected,
    Accepted,
}

/// The verdict on logging into an account with status `status` and stored
/// hash `hash` with password `password`.
pub open spec fn credential_outcome(status: i64, password: Seq<char>, hash: Seq<char>) -> CredentialCheck {
    if status == 0 {
        CredentialCheck::Disabled
    } else if bcrypt_verify_outcome(password, hash) == Some(true) {
        CredentialCheck::Accepted
    } else {
        CredentialCheck::Rejected
    }
}

/// Checks a password against an account: a disabled account is refused
/// before the password is looked at; a hash that bcrypt cannot read counts
/// as a wrong password.
pub fn check_user_credentials(user: &UserRecord, password: &str) -> (r: CredentialCheck)
    ensures
        r == credential_outcome(user.status, password@, user.password_hash@),
{
    if user.status == 0 {
        return CredentialCheck::Disabled;
    }
    match bcrypt_verify(password, user.password_hash.as_str()) {
        Ok(true) => CredentialCheck::Accepted,
        _ => CredentialCheck::Rejected,
    }
}

/// Hashes a new password for storage, with bcrypt's default work factor,
/// which bcrypt never refuses. Any hash returned is accepted for the same
/// password by `check_user_credentials`.
pub fn hash_password(password: &str) -> (r: Result<String, HashFailure>)
    ensures
        r matches Ok(h) ==> hash_header(PASSWORD_HASH_COST as nat).is_prefix_of(h@),
        r matches Ok(h) ==> bcrypt_verify_outcome(password@, h@) == Some(true),
        !(r matches Err(HashFailure::CostRefused(_, _))),
{
    bcrypt_hash(password, PASSWORD_HASH_COST)
}

/// A hashing failure is an internal error carrying bcrypt's message.
pub fn hash_failure_response(e: &HashFailure) -> (r: ApiFailure)
    ensures
        r.status == status_internal(),
{
    match e {
        HashFailure::CostRefused(_, err) => internal_err(bcrypt_error_text(err)),
        HashFailure::Other(err) => internal_err(bcrypt_error_text(err)),
    }
}

/// A password that was hashed for an account is accepted when the account,
/// still holding that hash, logs in with it, unless the account is disabled.
pub proof fn law_stored_password_is_accepted(status: i64, password: Seq<char>, hash: Seq<char>)
    requires
        bcrypt_verify_outcome(password, hash) == Some(true),
    ensures
        status != 0 ==> credential_outcome(status, password, hash) == CredentialCheck::Accepted,
        status == 0 ==> credential_outcome(status, password, hash) == CredentialCheck::Disabled,
{
}

} // verus!
