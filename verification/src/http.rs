//! The shape in which the transport hands an HTTP exchange's outcome to the
//! library: a plain status with body text, or a transport-level failure.

use vstd::prelude::*;

verus! {

/// Outcome of one HTTP exchange. The transport performs the request and
/// reports either a failure that produced no response at all, or the
/// response's status code together with its full body text.
pub enum HttpOutcome {
    /// The request produced no response (DNS, TLS, connection reset,
    /// timeout); the payload is the transport's own description.
    Transport(String),
    /// A response arrived with this status code and body text.
    Response { status: u16, body: String },
}

/// The status codes treated as success.
pub open spec fn is_success_status(status: u16) -> bool {
    200 <= status < 300
}

/// Check whether a status code counts as success.
pub fn status_is_success(status: u16) -> (r: bool)
    ensures
        r == is_success_status(status),
{
    200 <= status && status < 300
}

} // verus!
