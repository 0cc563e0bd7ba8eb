//! The middleware entry points: buffer and validate a request in one
//! call, rendering a failure into a wire response.

use vstd::prelude::*;
use crate::buffered::Body;
use crate::bufferer::Bufferer;
use crate::buffering_validator::{gate_outcome, BufferingValidator, Error};
use crate::convert::BodyContent;
use crate::handler::{ErrorHandler, ErrorText, PlainDisplayErrorRenderer, Rendered};
use crate::request::Request;
use crate::validator::Validator;

verus! {

/// The middleware state: a validator paired with the error handler that
/// renders its failures.
#[derive(Debug)]
pub struct State<V, H> {
    /// The validator to use.
    pub validator: V,
    /// The error handler to use.
    pub error_handler: H,
}

/// Pair a validator with an error handler, for use as middleware state.
pub fn with_error_handler<V, H>(validator: V, error_handler: H) -> (r: State<V, H>)
    ensures
        r.validator == validator,
        r.error_handler == error_handler,
{
    State { validator, error_handler }
}

/// Buffer and validate the request with the given bufferer, rebuilding
/// it through the trivial converter on success.
pub fn validate<M, InBody, Bfr, V>(bufferer: Bfr, validator: V, req: Request<M, InBody>) -> (r:
    Result<Request<M, Body<Bfr::Data>>, Error<Bfr::Error, V::Error>>) where
    Bfr: Bufferer<InBody>,
    V: Validator<M, Bfr::Data>,

    requires
        bufferer.buffer_req(req.body),
    ensures
        ({
            let buffered = bufferer.spec_buffer(req.body);
            let decision = match buffered {
                Ok(v) => validator.spec_validate(req.head, v.0),
                Err(_) => Ok(()),
            };
            match gate_outcome(buffered, decision) {
                Some(err) => r == Err::<Request<M, Body<Bfr::Data>>, Error<Bfr::Error, V::Error>>(
                    err,
                ),
                None => {
                    &&& r matches Ok(out)
                    &&& out.head == req.head
                    &&& out.body.content_bytes() == buffered->Ok_0.0
                    &&& out.body.content_trailers() == buffered->Ok_0.1
                },
            }
        }),
{
    BufferingValidator::new(bufferer).validate(validator, req)
}

/// Buffer and validate the request; hand back the rebuilt request on
/// success, and the handler's rendering of the failure otherwise.
pub fn middleware<M, InBody, Bfr, V, H>(
    state: State<V, H>,
    bufferer: Bfr,
    req: Request<M, InBody>,
) -> (r: Result<Request<M, Body<Bfr::Data>>, Rendered>) where
    Bfr: Bufferer<InBody>,
    V: Validator<M, Bfr::Data>,
    H: ErrorHandler<Bfr::Error, V::Error>,

    requires
        bufferer.buffer_req(req.body),
    ensures
        ({
            let buffered = bufferer.spec_buffer(req.body);
            let decision = match buffered {
                Ok(v) => state.validator.spec_validate(req.head, v.0),
                Err(_) => Ok(()),
            };
            match gate_outcome(buffered, decision) {
                Some(err) => {
                    &&& r matches Err(resp)
                    &&& resp.status == state.error_handler.spec_status(err)
                    &&& resp.message@ == state.error_handler.spec_message(err)
                },
                None => {
                    &&& r matches Ok(out)
                    &&& out.head == req.head
                    &&& out.body.content_bytes() == buffered->Ok_0.0
                    &&& out.body.content_trailers() == buffered->Ok_0.1
                },
            }
        }),
{
    let State { validator, error_handler } = state;
    match validate(bufferer, validator, req) {
        Ok(out) => Ok(out),
        Err(e) => Err(error_handler.handle_error(e)),
    }
}

/// Buffer and validate the request, rendering any failure with the
/// plain-text renderer: a buffering failure as status 400, a rejection
/// by the validator as status 403.
pub fn simple_middleware<M, InBody, Bfr, V>(
    validator: V,
    bufferer: Bfr,
    req: Request<M, InBody>,
) -> (r: Result<Request<M, Body<Bfr::Data>>, Rendered>) where
    Bfr: Bufferer<InBody>,
    V: Validator<M, Bfr::Data>,
    Bfr::Error: ErrorText,
    V::Error: ErrorText,

    requires
        bufferer.buffer_req(req.body),
    ensures
        ({
            let buffered = bufferer.spec_buffer(req.body);
            let decision = match buffered {
                Ok(v) => validator.spec_validate(req.head, v.0),
                Err(_) => Ok(()),
            };
            match gate_outcome(buffered, decision) {
                Some(err) => {
                    &&& r matches Err(resp)
                    &&& (err matches Error::BodyBuffering(e) ==> resp.status == 400
                        && resp.message@ == "Unable to buffer the request: "@ + e.text_view())
                    &&& (err matches Error::Validation(e) ==> resp.status == 403 && resp.message@
                        == "Invalid request: "@ + e.text_view())
                },
                None => {
                    &&& r matches Ok(out)
                    &&& out.head == req.head
                    &&& out.body.content_bytes() == buffered->Ok_0.0
                    &&& out.body.content_trailers() == buffered->Ok_0.1
                },
            }
        }),
{
    let error_handler = PlainDisplayErrorRenderer;
    middleware(State { validator, error_handler }, bufferer, req)
}

} // verus!
