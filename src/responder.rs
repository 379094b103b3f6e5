//! The HTTP responder: every request gets the same empty answer.
use vstd::prelude::*;

verus! {

/// An HTTP answer as it goes on the wire: its status code and its body.
pub struct Reply {
    pub status: u16,
    pub body: Vec<u8>,
}

/// A status code of the success class (`2xx`).
pub open spec fn is_success(status: u16) -> bool {
    200 <= status && status < 300
}

/// Relies on hyper::Response::new, whose head starts with the default
/// status, `200 OK`.
#[verifier::external_body]
fn default_status() -> (r: u16)
    ensures
        r == 200,
{
    hyper::Response::new(hyper::Body::empty()).status().as_u16()
}

/// The answer to a request with the given method and path: the HTTP layer's
/// default success status and an empty body. Nothing of the request is
/// inspected, so every request gets the same answer.
pub fn respond(_method: &str, _path: &str) -> (r: Reply)
    ensures
        r.status == 200,
        is_success(r.status),
        r.body@.len() == 0,
{
    Reply { status: default_status(), body: Vec::new() }
}

} // verus!
