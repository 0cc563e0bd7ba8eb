//! The request model: an immutable head (metadata) paired with a body.

use vstd::prelude::*;

verus! {

/// A request: head data (method, URI, headers — opaque to this crate) plus a body.
///
/// Ownership moves linearly through the pipeline: the request is split once,
/// its body is consumed by buffering, and a new request is assembled from the
/// retained head and the converted body.
#[derive(Debug)]
pub struct Request<M, B> {
    /// The request head, never inspected by the pipeline itself.
    pub head: M,
    /// The request body.
    pub body: B,
}

impl<M, B> Request<M, B> {
    /// Assemble a request from a head and a body.
    pub fn from_parts(head: M, body: B) -> (r: Request<M, B>)
        ensures
            r.head == head,
            r.body == body,
    {
        Request { head, body }
    }

    /// Split the request into its head and its body.
    pub fn into_parts(self) -> (r: (M, B))
        ensures
            r.0 == self.head,
            r.1 == self.body,
    {
        (self.head, self.body)
    }
}

} // verus!
