use vstd::prelude::*;

verus! {

/// The port the console is served on, where `port` is one (1 to 65535).
pub fn api_port(port: i32) -> (r: Option<u16>)
    ensures
        r is Some <==> 1 <= port <= 65535,
        r matches Some(p) ==> p == port,
{
    if port <= 0 || port > 65535 {
        None
    } else {
        Some(port as u16)
    }
}

/// The secret that session tokens are signed with: the configured one, or
/// a fixed default where none is configured.
pub fn token_secret(configured: Option<String>) -> (r: String)
    ensures
        configured matches Some(s) ==> r == s,
        configured is None ==> r@ == "change-this-secret"@,
{
    match configured {
        Some(s) => s,
        None => "change-this-secret".to_owned(),
    }
}

} // verus!
