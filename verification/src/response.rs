//! Responses, as far as caching is concerned.

use vstd::prelude::*;

verus! {

/// The status code of a response.
#[derive(Clone, Copy, PartialEq, Eq, Structural, Debug)]
pub struct StatusCode(pub u16);

/// A response: its status, which a predicate may ask for, the rest of its head, which is carried
/// along, and its body.
pub struct Response<H, B> {
    /// The status code.
    pub status: StatusCode,
    /// Version, headers and whatever else stands before the body.
    pub head: H,
    /// The body.
    pub body: B,
}

}
