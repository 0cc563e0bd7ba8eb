//! [`Validator`]: the pluggable decision over a request head and its
//! buffered body, and the validators this crate provides.

use vstd::prelude::*;
use crate::buf::Buf;
use crate::dup::Duplicate;

verus! {

/// The request validator.
///
/// Runs over the request head and the fully buffered body, so it can
/// check anything that needs the whole request at hand (a signature, a
/// schema). It borrows both and mutates neither: the decision is a pure
/// function of the head and the body bytes.
pub trait Validator<M, Data: Buf> {
    /// An error that can occur during validation.
    type Error;

    /// The decision, as a function of the head and the body bytes alone.
    spec fn spec_validate(&self, head: M, body: Seq<u8>) -> Result<(), Self::Error>;

    /// Validate the request head and buffered body.
    fn validate(&self, head: &M, buffered_body: &Data) -> (r: Result<(), Self::Error>)
        ensures
            r == self.spec_validate(*head, buffered_body.buf_view()),
    ;
}

/// Shared ownership is transparent: a validator behind an `Arc` delegates
/// unchanged.
impl<M, Data: Buf, V: Validator<M, Data>> Validator<M, Data> for std::sync::Arc<V> {
    type Error = V::Error;

    open spec fn spec_validate(&self, head: M, body: Seq<u8>) -> Result<(), V::Error> {
        (**self).spec_validate(head, body)
    }

    fn validate(&self, head: &M, buffered_body: &Data) -> (r: Result<(), V::Error>) {
        (**self).validate(head, buffered_body)
    }
}

/// The rejections the validators of this crate produce.
#[derive(Debug, Clone, Copy, PartialEq, Eq, Structural)]
pub enum Rejection {
    /// The body was required to be empty and is not.
    BodyNotEmpty,
    /// The body does not start with the required prefix.
    MissingPrefix,
}

/// A validator that accepts every request.
#[derive(Debug, Clone, Copy, PartialEq, Eq, Structural)]
pub struct AcceptAll;

impl<M, Data: Buf> Validator<M, Data> for AcceptAll {
    type Error = Rejection;

    open spec fn spec_validate(&self, head: M, body: Seq<u8>) -> Result<(), Rejection> {
        Ok(())
    }

    fn validate(&self, _head: &M, _buffered_body: &Data) -> (r: Result<(), Rejection>) {
        Ok(())
    }
}

impl Duplicate for AcceptAll {
    fn duplicate(&self) -> (r: Self) {
        AcceptAll
    }
}

/// A validator that accepts exactly the requests whose body is empty.
#[derive(Debug, Clone, Copy, PartialEq, Eq, Structural)]
pub struct RejectNonEmpty;

impl<M, Data: Buf> Validator<M, Data> for RejectNonEmpty {
    type Error = Rejection;

    open spec fn spec_validate(&self, head: M, body: Seq<u8>) -> Result<(), Rejection> {
        if body.len() == 0 {
            Ok(())
        } else {
            Err(Rejection::BodyNotEmpty)
        }
    }

    fn validate(&self, _head: &M, buffered_body: &Data) -> (r: Result<(), Rejection>) {
        if buffered_body.remaining() == 0 {
            Ok(())
        } else {
            Err(Rejection::BodyNotEmpty)
        }
    }
}

impl Duplicate for RejectNonEmpty {
    fn duplicate(&self) -> (r: Self) {
        RejectNonEmpty
    }
}

/// A validator that requires the body to start with a fixed byte prefix.
pub struct RequirePrefix {
    /// The bytes the body must start with; shared, so that duplicating
    /// the validator is reference counting, not copying.
    pub prefix: std::sync::Arc<Vec<u8>>,
}

impl RequirePrefix {
    /// The required prefix bytes.
    pub open spec fn prefix_view(&self) -> Seq<u8> {
        self.prefix@
    }

    /// A validator requiring `prefix` at the start of the body.
    pub fn new(prefix: Vec<u8>) -> (r: RequirePrefix)
        ensures
            r.prefix_view() == prefix@,
    {
        RequirePrefix { prefix: std::sync::Arc::new(prefix) }
    }
}

/// Whether `body` starts with `prefix`.
pub open spec fn has_prefix(body: Seq<u8>, prefix: Seq<u8>) -> bool {
    body.len() >= prefix.len() && body.subrange(0, prefix.len() as int) == prefix
}

impl<M, Data: Buf> Validator<M, Data> for RequirePrefix {
    type Error = Rejection;

    open spec fn spec_validate(&self, head: M, body: Seq<u8>) -> Result<(), Rejection> {
        if has_prefix(body, self.prefix_view()) {
            Ok(())
        } else {
            Err(Rejection::MissingPrefix)
        }
    }

    fn validate(&self, _head: &M, buffered_body: &Data) -> (r: Result<(), Rejection>) {
        let prefix: &Vec<u8> = &*self.prefix;
        if buffered_body.remaining() < prefix.len() {
            return Err(Rejection::MissingPrefix);
        }
        let mut i: usize = 0;
        while i < prefix.len()
            invariant
                i <= prefix@.len(),
                prefix@.len() <= buffered_body.buf_view().len(),
                prefix@ == self.prefix_view(),
                forall|k: int| 0 <= k < i ==> buffered_body.buf_view()[k] == prefix@[k],
            decreases prefix@.len() - i,
        {
            let b = buffered_body.byte_at(i);
            if b != prefix[i] {
                proof {
                    if has_prefix(buffered_body.buf_view(), prefix@) {
                        assert(buffered_body.buf_view().subrange(0, prefix@.len() as int)[i as int]
                            == prefix@[i as int]);
                        assert(false);
                    }
                }
                return Err(Rejection::MissingPrefix);
            }
            i = i + 1;
        }
        proof {
            assert(buffered_body.buf_view().subrange(0, prefix@.len() as int) =~= prefix@);
        }
        Ok(())
    }
}

impl Duplicate for RequirePrefix {
    fn duplicate(&self) -> (r: Self) {
        RequirePrefix { prefix: self.prefix.clone() }
    }
}

} // verus!
