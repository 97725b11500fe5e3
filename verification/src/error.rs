use vstd::prelude::*;

verus! {

/// HTTP status of an unexpected failure.
pub open spec fn status_internal() -> u16 {
    500
}

/// HTTP status of a request without the needed credentials.
pub open spec fn status_unauthorized() -> u16 {
    401
}

/// HTTP status of a request that breaks a rule.
pub open spec fn status_bad_request() -> u16 {
    400
}

/// HTTP status of a request about something that does not exist.
pub open spec fn status_not_found() -> u16 {
    404
}

/// A refused or failed request: the HTTP status and the message sent back.
#[derive(Debug)]
pub struct ApiFailure {
    pub status: u16,
    pub message: String,
}

/// The failure with the given status and message.
pub open spec fn is_failure(e: ApiFailure, status: u16, message: Seq<char>) -> bool {
    e.status == status && e.message@ == message
}

/// `r` is a refusal with the given status and message.
pub open spec fn fails_with<T>(r: Result<T, ApiFailure>, status: u16, message: Seq<char>) -> bool {
    match r {
        Err(e) => is_failure(e, status, message),
        Ok(_) => false,
    }
}

/// An unexpected error of the storage or of a library call; the message is
/// that error's text.
pub fn internal_err(message: String) -> (e: ApiFailure)
    ensures
        is_failure(e, status_internal(), message@),
{
    ApiFailure { status: 500, message }
}

/// Missing or insufficient credentials.
pub fn auth_err(message: &str) -> (e: ApiFailure)
    ensures
        is_failure(e, status_unauthorized(), message@),
{
    ApiFailure { status: 401, message: message.to_owned() }
}

/// A request whose content breaks a rule.
pub fn bad_req(message: &str) -> (e: ApiFailure)
    ensures
        is_failure(e, status_bad_request(), message@),
{
    ApiFailure { status: 400, message: message.to_owned() }
}

/// A request about a user or device that does not exist.
pub fn not_found(message: &str) -> (e: ApiFailure)
    ensures
        is_failure(e, status_not_found(), message@),
{
    ApiFailure { status: 404, message: message.to_owned() }
}

} // verus!
