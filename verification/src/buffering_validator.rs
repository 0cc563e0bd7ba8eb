//! [`BufferingValidator`]: the orchestrator that buffers a request body,
//! validates it, and rebuilds the request for the rest of the pipeline.

use vstd::prelude::*;
use crate::buffered::Buffered;
use crate::bufferer::Bufferer;
use crate::convert::{BodyContent, BufferedToBody, Trivial};
use crate::request::Request;
use crate::validator::Validator;

verus! {

/// An error that can occur while validating the request.
#[derive(Debug)]
pub enum Error<B, V> {
    /// The buffering of the request body failed.
    BodyBuffering(B),
    /// The validation failed.
    Validation(V),
}

/// Which stage of the pipeline fails, given what buffering yields and
/// what the validator decides on its outcome: buffering first, then
/// validation, then neither.
pub open spec fn gate_outcome<B, V>(
    buffered: Result<(Seq<u8>, Option<http::HeaderMap>), B>,
    decision: Result<(), V>,
) -> Option<Error<B, V>> {
    match buffered {
        Err(e) => Some(Error::BodyBuffering(e)),
        Ok(_) => match decision {
            Err(v) => Some(Error::Validation(v)),
            Ok(_) => None,
        },
    }
}

/// Fail fast on buffering: when buffering fails, the pipeline's outcome
/// is that failure alone, whatever any validator would have decided —
/// the validator plays no part in it.
pub proof fn lemma_fail_fast_on_buffering<B, V>(e: B, decision: Result<(), V>)
    ensures
        gate_outcome(Err::<(Seq<u8>, Option<http::HeaderMap>), B>(e), decision) == Some(
            Error::<B, V>::BodyBuffering(e),
        ),
{
}

/// Fail fast on validation: when buffering succeeds and the validator
/// rejects, the pipeline's outcome is exactly that rejection — nothing
/// is converted and nothing reaches a downstream stage.
pub proof fn lemma_fail_fast_on_validation<B, V>(v: (Seq<u8>, Option<http::HeaderMap>), e: V)
    ensures
        gate_outcome(Ok::<(Seq<u8>, Option<http::HeaderMap>), B>(v), Err::<(), V>(e)) == Some(
            Error::<B, V>::Validation(e),
        ),
{
}

/// The buffering validator: owns the bufferer, and is told at the type
/// level which body type it takes in and which converter rebuilds the
/// outgoing body.
pub struct BufferingValidator<Bfr, InBody, BufferedToOutBody> {
    /// The bufferer.
    pub bufferer: Bfr,
    /// The phantom data types.
    pub phantom_data: core::marker::PhantomData<(InBody, BufferedToOutBody)>,
}

impl<Bfr, InBody> BufferingValidator<Bfr, InBody, Trivial<Buffered<Bfr::Data>>> where
    Bfr: Bufferer<InBody>,
 {
    /// Create a new [`BufferingValidator`] with the trivial converter.
    pub fn new(bufferer: Bfr) -> (r: Self)
        ensures
            r.bufferer == bufferer,
    {
        BufferingValidator { bufferer, phantom_data: core::marker::PhantomData }
    }
}

impl<Bfr, InBody, BufferedToOutBody> BufferingValidator<
    Bfr,
    InBody,
    BufferedToOutBody,
> where Bfr: Bufferer<InBody> {
    /// Change the converter type.
    pub fn with_buffered_to_out_body<New>(self) -> (r: BufferingValidator<Bfr, InBody, New>)
        ensures
            r.bufferer == self.bufferer,
    {
        let BufferingValidator { bufferer, phantom_data: _ } = self;
        BufferingValidator { bufferer, phantom_data: core::marker::PhantomData }
    }

    /// Validate the given request.
    ///
    /// Splits the request, buffers the body, hands the head and the
    /// buffered bytes to the validator, and on success rebuilds the
    /// request with the converted body. The stages run in that order,
    /// each at most once: a buffering failure is returned before the
    /// validator is consulted, a rejection before anything is converted,
    /// and on success the new request carries the old head and a body
    /// with exactly the buffered content.
    pub fn validate<M, V>(&self, validator: V, req: Request<M, InBody>) -> (r: Result<
        Request<M, BufferedToOutBody::Body>,
        Error<Bfr::Error, V::Error>,
    >) where
        V: Validator<M, Bfr::Data>,
        BufferedToOutBody: BufferedToBody<Data = Bfr::Data>,

        requires
            self.bufferer.buffer_req(req.body),
        ensures
            ({
                let buffered = self.bufferer.spec_buffer(req.body);
                let decision = match buffered {
                    Ok(v) => validator.spec_validate(req.head, v.0),
                    Err(_) => Ok(()),
                };
                match gate_outcome(buffered, decision) {
                    Some(err) => r == Err::<
                        Request<M, BufferedToOutBody::Body>,
                        Error<Bfr::Error, V::Error>,
                    >(err),
                    None => {
                        &&& r matches Ok(out)
                        &&& out.head == req.head
                        &&& out.body.content_bytes() == buffered->Ok_0.0
                        &&& out.body.content_trailers() == buffered->Ok_0.1
                    },
                }
            }),
    {
        let (head, body) = req.into_parts();
        let buffered = match self.bufferer.buffer(body) {
            Ok(b) => b,
            Err(e) => {
                return Err(Error::BodyBuffering(e));
            },
        };
        match validator.validate(&head, crate::as_buf::AsBuf::as_buf(&buffered)) {
            Ok(_) => {},
            Err(e) => {
                return Err(Error::Validation(e));
            },
        }
        let out_body = BufferedToOutBody::buffered_to_body(buffered);
        Ok(Request::from_parts(head, out_body))
    }
}

} // verus!
