//! The unsent request descriptor that the dispatcher builds and a facade may
//! decorate before dispatch.
//!
//! A descriptor is plain data: an HTTP method, a fully resolved URL, the
//! headers in the order they were attached, and an optional body.  No I/O
//! happens here; the caller's transport turns the descriptor into a real
//! request.

use vstd::prelude::*;

verus! {

/// The HTTP methods the resource facades route through.
#[derive(Debug, Clone, Copy, PartialEq, Eq, Structural)]
pub enum Method {
    /// Retrieve a resource.
    Get,
    /// Create a resource.
    Post,
    /// Update fields of a resource.
    Patch,
    /// Replace a resource.
    Put,
    /// Remove a resource.
    Delete,
}

/// An unsent, fully routed request: method, resolved URL, headers in
/// attachment order, and an optional body.
#[derive(Debug, Clone)]
pub struct Request {
    /// The HTTP method.
    pub method: Method,
    /// The absolute URL the request is addressed to.
    pub url: String,
    /// Header names and values, in the order they were attached.
    pub headers: Vec<(String, String)>,
    /// The request body, if one was attached.
    pub body: Option<Vec<u8>>,
}

/// The value of the `Authorization` header for a bearer credential.
pub open spec fn spec_bearer(credential: Seq<char>) -> Seq<char> {
    "Bearer "@ + credential
}

impl Request {
    /// Attaches a JSON body: the payload bytes become the request body and a
    /// `Content-Type: application/json` header is appended.
    pub fn with_json_body(self, body: Vec<u8>) -> (r: Request)
        ensures
            r.method == self.method,
            r.url@ == self.url@,
            r.body == Some(body),
            r.headers@.len() == self.headers@.len() + 1,
            forall|i: int|
                0 <= i < self.headers@.len() ==> r.headers@[i] == self.headers@[i],
            r.headers@.last().0@ == "Content-Type"@,
            r.headers@.last().1@ == "application/json"@,
    {
        let Request { method, url, mut headers, body: _ } = self;
        let name = String::from_str("Content-Type");
        let value = String::from_str("application/json");
        headers.push((name, value));
        Request { method, url, headers, body: Some(body) }
    }
}

} // verus!
