//! The pipeline stage that wraps the buffering validator around a
//! downstream stage: readiness passes through, every call validates
//! first, and the downstream stage is never touched when buffering or
//! validation fails.

use vstd::prelude::*;
use crate::bufferer::Bufferer;
use crate::buffering_validator::{gate_outcome, BufferingValidator};
use crate::convert::{BodyContent, BufferedToBody};
use crate::dup::Duplicate;
use crate::request::Request;
use crate::validator::Validator;

verus! {

/// An error that can occur in the service.
#[derive(Debug)]
pub enum Error<BodyBuffering, Validation, Inner> {
    /// Validation failed: the body could not be buffered, or the
    /// validator rejected the request.
    Validation(crate::buffering_validator::Error<BodyBuffering, Validation>),
    /// The inner, downstream stage failed.
    Inner(Inner),
}

/// Readiness of a stage to accept a call.
#[derive(Debug)]
pub enum Readiness<E> {
    /// The stage can accept a call now.
    Ready,
    /// The stage cannot accept a call yet; ask again later.
    Pending,
    /// The stage failed and can accept no further calls.
    Failed(E),
}

/// A composable unit of a request-processing chain: a readiness check
/// and a call, both pinned to spec-level descriptions of the stage.
pub trait Stage<Req>: Duplicate {
    /// The response the stage answers with.
    type Response;

    /// An error the stage can fail with.
    type Error;

    /// The readiness the stage reports in its current state.
    spec fn spec_ready(&self) -> Readiness<Self::Error>;

    /// The response the stage gives to `req` in its current state.
    spec fn spec_response(&self, req: Req) -> Result<Self::Response, Self::Error>;

    /// The stage's state after answering `req`.
    spec fn spec_after(&self, req: Req) -> Self;

    /// Report whether the stage can accept a call now.
    fn poll_ready(&self) -> (r: Readiness<Self::Error>)
        ensures
            r == self.spec_ready(),
    ;

    /// Answer the request.
    fn call(&mut self, req: Req) -> (r: Result<Self::Response, Self::Error>)
        ensures
            r == old(self).spec_response(req),
            *final(self) == old(self).spec_after(req),
    ;
}

/// Map downstream readiness into the validating stage's readiness: the
/// stage is ready exactly when its downstream stage is, and a downstream
/// failure surfaces as `Inner`. Buffering and validation never gate
/// readiness.
pub open spec fn lift_readiness<B, V, IE>(r: Readiness<IE>) -> Readiness<Error<B, V, IE>> {
    match r {
        Readiness::Ready => Readiness::Ready,
        Readiness::Pending => Readiness::Pending,
        Readiness::Failed(e) => Readiness::Failed(Error::Inner(e)),
    }
}

/// An HTTP request validation layer: holds the validator and bufferer
/// that every service built from it will use.
#[derive(Debug)]
pub struct Layer<V, Bfr, InBody, BufferedToOutBody> {
    /// The validator to use.
    pub validator: V,
    /// The bufferer to use.
    pub bufferer: Bfr,
    /// The phantom data types.
    pub phantom_data: core::marker::PhantomData<(InBody, BufferedToOutBody)>,
}

/// An HTTP request validation service: validates every request and, on
/// success alone, forwards the rebuilt request to the inner stage.
#[derive(Debug)]
pub struct Service<S, V, Bfr, M, InBody, BufferedToOutBody> {
    /// The inner, downstream stage.
    pub inner: S,
    /// The validator to use.
    pub validator: V,
    /// The bufferer to use.
    pub bufferer: Bfr,
    /// The phantom data types.
    pub phantom_data: core::marker::PhantomData<(M, InBody, BufferedToOutBody)>,
}

impl<V: Duplicate, Bfr: Duplicate, InBody, BufferedToOutBody> Duplicate for Layer<
    V,
    Bfr,
    InBody,
    BufferedToOutBody,
> {
    fn duplicate(&self) -> (r: Self) {
        Layer {
            validator: self.validator.duplicate(),
            bufferer: self.bufferer.duplicate(),
            phantom_data: core::marker::PhantomData,
        }
    }
}

impl<S: Duplicate, V: Duplicate, Bfr: Duplicate, M, InBody, BufferedToOutBody> Duplicate for Service<
    S,
    V,
    Bfr,
    M,
    InBody,
    BufferedToOutBody,
> {
    fn duplicate(&self) -> (r: Self) {
        Service {
            inner: self.inner.duplicate(),
            validator: self.validator.duplicate(),
            bufferer: self.bufferer.duplicate(),
            phantom_data: core::marker::PhantomData,
        }
    }
}

impl<V, Bfr, InBody, BufferedToOutBody> Layer<V, Bfr, InBody, BufferedToOutBody> {
    /// Create a new validation layer with the given settings.
    pub fn new(validator: V, bufferer: Bfr) -> (r: Self)
        ensures
            r.validator == validator,
            r.bufferer == bufferer,
    {
        Layer { validator, bufferer, phantom_data: core::marker::PhantomData }
    }

    /// Alter the converter type.
    pub fn with_buffered_to_out_body<Other>(self) -> (r: Layer<V, Bfr, InBody, Other>)
        ensures
            r.validator == self.validator,
            r.bufferer == self.bufferer,
    {
        let Layer { validator, bufferer, phantom_data: _ } = self;
        Layer { validator, bufferer, phantom_data: core::marker::PhantomData }
    }

    /// Wrap the given inner stage into a validation service.
    pub fn layer<S, M>(&self, inner: S) -> (r: Service<S, V, Bfr, M, InBody, BufferedToOutBody>) where
        V: Duplicate,
        Bfr: Duplicate,

        ensures
            r.inner == inner,
            r.validator == self.validator,
            r.bufferer == self.bufferer,
    {
        Service {
            inner,
            validator: self.validator.duplicate(),
            bufferer: self.bufferer.duplicate(),
            phantom_data: core::marker::PhantomData,
        }
    }
}

impl<S, V, Bfr, M, InBody, BufferedToOutBody> Service<
    S,
    V,
    Bfr,
    M,
    InBody,
    BufferedToOutBody,
> where
    Bfr: Bufferer<InBody> + Duplicate,
    V: Validator<M, Bfr::Data> + Duplicate,
    BufferedToOutBody: BufferedToBody<Data = Bfr::Data>,
    S: Stage<Request<M, BufferedToOutBody::Body>>,
 {
    /// Report readiness: exactly the downstream stage's readiness, with
    /// a downstream failure wrapped as `Inner`. Validation imposes no
    /// admission control of its own.
    pub fn poll_ready(&self) -> (r: Readiness<Error<Bfr::Error, V::Error, S::Error>>)
        ensures
            r == lift_readiness::<Bfr::Error, V::Error, S::Error>(self.inner.spec_ready()),
    {
        match self.inner.poll_ready() {
            Readiness::Ready => Readiness::Ready,
            Readiness::Pending => Readiness::Pending,
            Readiness::Failed(e) => Readiness::Failed(Error::Inner(e)),
        }
    }

    /// Validate the request and, on success alone, dispatch the rebuilt
    /// request downstream.
    ///
    /// The call first swaps a fresh duplicate of the downstream handle
    /// into the service and runs on the original lineage, so concurrent
    /// calls through duplicated handles never serialise on one handle;
    /// the service itself is left as it was. When buffering or
    /// validation fails, the outcome is that failure and the downstream
    /// stage is not consulted at all; when both succeed, the outcome is
    /// the downstream stage's answer to a rebuilt request that carries
    /// the old head and exactly the buffered content.
    pub fn call(&mut self, req: Request<M, InBody>) -> (r: Result<
        S::Response,
        Error<Bfr::Error, V::Error, S::Error>,
    >)
        requires
            old(self).bufferer.buffer_req(req.body),
        ensures
            *final(self) == *old(self),
            ({
                let buffered = old(self).bufferer.spec_buffer(req.body);
                let decision = match buffered {
                    Ok(v) => old(self).validator.spec_validate(req.head, v.0),
                    Err(_) => Ok(()),
                };
                match gate_outcome(buffered, decision) {
                    Some(err) => r == Err::<S::Response, Error<Bfr::Error, V::Error, S::Error>>(
                        Error::Validation(err),
                    ),
                    None => exists|out: Request<M, BufferedToOutBody::Body>|
                        {
                            &&& out.head == req.head
                            &&& (#[trigger] out.body.content_bytes()) == buffered->Ok_0.0
                            &&& out.body.content_trailers() == buffered->Ok_0.1
                            &&& r == match old(self).inner.spec_response(out) {
                                Ok(resp) => Ok::<S::Response, Error<Bfr::Error, V::Error, S::Error>>(
                                    resp,
                                ),
                                Err(e) => Err(Error::Inner(e)),
                            }
                        },
                }
            }),
    {
        let mut ready_inner = self.inner.duplicate();
        core::mem::swap(&mut self.inner, &mut ready_inner);
        let buffering_validator = BufferingValidator::new(self.bufferer.duplicate())
            .with_buffered_to_out_body::<BufferedToOutBody>();
        let validator = self.validator.duplicate();
        let out_req = match buffering_validator.validate(validator, req) {
            Ok(out_req) => out_req,
            Err(e) => {
                return Err(Error::Validation(e));
            },
        };
        let ghost witness = out_req;
        let r = match ready_inner.call(out_req) {
            Ok(resp) => Ok(resp),
            Err(e) => Err(Error::Inner(e)),
        };
        proof {
            assert(witness.body.content_bytes() == old(
                self,
            ).bufferer.spec_buffer(req.body)->Ok_0.0);
        }
        r
    }
}

/// Readiness passes through: the validating stage is ready exactly when
/// its downstream stage is ready, pending exactly when it is pending,
/// and failed exactly when it is failed, the failure surfacing as
/// `Inner`. Buffering and validation never block readiness.
pub proof fn lemma_readiness_passthrough<B, V, IE>(r: Readiness<IE>)
    ensures
        lift_readiness::<B, V, IE>(r) is Ready <==> r is Ready,
        lift_readiness::<B, V, IE>(r) is Pending <==> r is Pending,
        lift_readiness::<B, V, IE>(r) is Failed <==> r is Failed,
        r matches Readiness::Failed(e) ==> lift_readiness::<B, V, IE>(r) == Readiness::<
            Error<B, V, IE>,
        >::Failed(Error::Inner(e)),
{
}

/// Downstream isolation: a duplicated downstream handle reports the same
/// readiness, answers any request identically, and moves to the same
/// state as the handle it was duplicated from. Together with the
/// guarantee that a call leaves the service's own handle as it was, the
/// lineage one call runs on is independent of every other call's.
pub proof fn lemma_duplicate_stage_equivalent<Req, S: Stage<Req>>(s1: S, s2: S, req: Req)
    requires
        s1 == s2,
    ensures
        s1.spec_ready() == s2.spec_ready(),
        s1.spec_response(req) == s2.spec_response(req),
        s1.spec_after(req) == s2.spec_after(req),
{
}

/// A simple downstream stage for exercising the adapter: it reports the
/// readiness it was configured with, fails every call with the given
/// error if one was set, and otherwise answers with how many calls it
/// has taken so far.
#[derive(Debug)]
pub struct CountingStage<E> {
    /// How many calls the stage has answered.
    pub calls: u64,
    /// The readiness the stage reports.
    pub readiness: Readiness<E>,
    /// The error every call fails with, if one was set.
    pub fail_with: Option<E>,
}

impl<E> CountingStage<E> {
    /// A ready stage that has answered nothing yet and fails nothing.
    pub fn new() -> (r: Self)
        ensures
            r.calls == 0,
            r.readiness is Ready,
            r.fail_with == None::<E>,
    {
        CountingStage { calls: 0, readiness: Readiness::Ready, fail_with: None }
    }
}

impl<E: Copy> Duplicate for CountingStage<E> {
    fn duplicate(&self) -> (r: Self) {
        CountingStage {
            calls: self.calls,
            readiness: match &self.readiness {
                Readiness::Ready => Readiness::Ready,
                Readiness::Pending => Readiness::Pending,
                Readiness::Failed(e) => Readiness::Failed(*e),
            },
            fail_with: match &self.fail_with {
                Some(e) => Some(*e),
                None => None,
            },
        }
    }
}

impl<Req, E: Copy> Stage<Req> for CountingStage<E> {
    type Response = u64;

    type Error = E;

    open spec fn spec_ready(&self) -> Readiness<E> {
        self.readiness
    }

    open spec fn spec_response(&self, req: Req) -> Result<u64, E> {
        match self.fail_with {
            Some(e) => Err(e),
            None => Ok(
                if self.calls == u64::MAX {
                    u64::MAX
                } else {
                    (self.calls + 1) as u64
                },
            ),
        }
    }

    open spec fn spec_after(&self, req: Req) -> Self {
        CountingStage {
            calls: if self.calls == u64::MAX {
                u64::MAX
            } else {
                (self.calls + 1) as u64
            },
            readiness: self.readiness,
            fail_with: self.fail_with,
        }
    }

    fn poll_ready(&self) -> (r: Readiness<E>) {
        match &self.readiness {
            Readiness::Ready => Readiness::Ready,
            Readiness::Pending => Readiness::Pending,
            Readiness::Failed(e) => Readiness::Failed(*e),
        }
    }

    fn call(&mut self, req: Req) -> (r: Result<u64, E>) {
        if self.calls < u64::MAX {
            self.calls = self.calls + 1;
        }
        match &self.fail_with {
            Some(e) => Err(*e),
            None => Ok(self.calls),
        }
    }
}

} // verus!
