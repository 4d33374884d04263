use vstd::prelude::*;

verus! {

/// Whether an HTTP status code is of the success class (2xx).
pub open spec fn success_class(status: u16) -> bool {
    200 <= status < 300
}

/// Interprets the outcome of a liveness probe: the destination is reachable
/// only if a response came back with a success-class status. Any failure to
/// get a response (connection error, timeout) is passed as `None`.
pub fn check_server(status: Option<u16>) -> (r: bool)
    ensures
        r == (status is Some && success_class(status->0)),
{
    match status {
        Some(s) => 200 <= s && s < 300,
        None => false,
    }
}

} // verus!
