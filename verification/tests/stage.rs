//! The pipeline-stage adapter: readiness passthrough, fail-fast
//! short-circuiting, and dispatch to the downstream stage.

use http_request_validator::buf::ChunkedBuf;
use http_request_validator::buffered::{Buffered, Frame};
use http_request_validator::buffering_validator::Error as PipelineError;
use http_request_validator::collect::Bufferer;
use http_request_validator::convert::Trivial;
use http_request_validator::dup::Duplicate;
use http_request_validator::frame::FrameBody;
use http_request_validator::request::Request;
use http_request_validator::service::{CountingStage, Error, Layer, Readiness, Service};
use http_request_validator::validator::{AcceptAll, Rejection, RequirePrefix};

type Body = FrameBody<String>;
type Conv = Trivial<Buffered<bytes::Bytes>>;
type TestService<V> =
    Service<CountingStage<&'static str>, V, Bufferer<bytes::Bytes>, u32, Body, Conv>;

fn data(bytes: &[u8]) -> Result<Frame<Vec<u8>>, String> {
    Ok(Frame::Data(bytes.to_vec()))
}

fn service<V>(validator: V) -> TestService<V>
where
    V: Duplicate,
{
    let layer: Layer<V, Bufferer<bytes::Bytes>, Body, Conv> =
        Layer::new(validator, Bufferer::new());
    layer.layer(CountingStage::new())
}

#[test]
fn layer_builds() {
    let svc = service(AcceptAll);
    assert_eq!(svc.inner.calls, 0);
}

#[test]
fn ready_iff_downstream_ready() {
    let svc = service(AcceptAll);
    assert!(matches!(svc.poll_ready(), Readiness::Ready));

    let mut pending = service(AcceptAll);
    pending.inner.readiness = Readiness::Pending;
    assert!(matches!(pending.poll_ready(), Readiness::Pending));

    let mut failed = service(AcceptAll);
    failed.inner.readiness = Readiness::Failed("closed");
    assert!(matches!(
        failed.poll_ready(),
        Readiness::Failed(Error::Inner("closed"))
    ));
}

#[test]
fn empty_body_accepted_and_dispatched_once() {
    // Empty byte sequence against a validator that rejects non-empty
    // bodies: accepted, and the downstream stage is invoked exactly once.
    let mut svc = service(http_request_validator::validator::RejectNonEmpty);
    let req = Request::from_parts(1u32, FrameBody::new(vec![]));
    let response = svc.call(req).unwrap();
    assert_eq!(response, 1);
}

#[test]
fn accepted_request_reaches_downstream_once() {
    let mut svc = service(AcceptAll);
    let req = Request::from_parts(1u32, FrameBody::new(vec![data(b"payload")]));
    let response = svc.call(req).unwrap();
    assert_eq!(response, 1);
}

#[test]
fn rejected_request_never_reaches_downstream() {
    let mut svc = service(RequirePrefix::new(b"signature=".to_vec()));
    let req = Request::from_parts(1u32, FrameBody::new(vec![data(b"unsigned")]));
    let result = svc.call(req);
    assert!(matches!(
        result,
        Err(Error::Validation(PipelineError::Validation(
            Rejection::MissingPrefix
        )))
    ));
    assert_eq!(svc.inner.calls, 0);
}

#[test]
fn buffering_failure_never_reaches_downstream() {
    let mut svc = service(AcceptAll);
    let req = Request::from_parts(1u32, FrameBody::new(vec![Err("reset".to_string())]));
    let result = svc.call(req);
    assert!(matches!(
        result,
        Err(Error::Validation(PipelineError::BodyBuffering(ref e))) if e == "reset"
    ));
    assert_eq!(svc.inner.calls, 0);
}

#[test]
fn downstream_failure_surfaces_as_inner() {
    let mut svc = service(AcceptAll);
    svc.inner.fail_with = Some("downstream broke");
    let req = Request::from_parts(1u32, FrameBody::new(vec![data(b"payload")]));
    let result = svc.call(req);
    assert!(matches!(result, Err(Error::Inner("downstream broke"))));
}

#[test]
fn concurrent_lineages_progress_independently() {
    // Two handles duplicated from one service: each call runs on its own
    // downstream lineage, and neither handle's state depends on the
    // other's call.
    let svc = service(AcceptAll);
    let mut a = svc.duplicate();
    let mut b = svc.duplicate();
    let first = a
        .call(Request::from_parts(1u32, FrameBody::new(vec![data(b"a")])))
        .unwrap();
    let second = b
        .call(Request::from_parts(2u32, FrameBody::new(vec![data(b"b")])))
        .unwrap();
    assert_eq!(first, 1);
    assert_eq!(second, 1);
    assert_eq!(svc.inner.calls, 0);
}

#[test]
fn call_leaves_the_shared_handle_unchanged() {
    let mut svc = service(AcceptAll);
    let _ = svc
        .call(Request::from_parts(1u32, FrameBody::new(vec![data(b"a")])))
        .unwrap();
    // The handle the service keeps is a fresh duplicate of the one the
    // call ran on: later calls start from the same downstream state.
    assert_eq!(svc.inner.calls, 0);
    let again = svc
        .call(Request::from_parts(2u32, FrameBody::new(vec![data(b"b")])))
        .unwrap();
    assert_eq!(again, 1);
}

#[test]
fn chunked_layer_with_custom_converter() {
    let layer: Layer<
        AcceptAll,
        Bufferer<ChunkedBuf>,
        Body,
        http_request_validator::convert::ToContiguous,
    > = Layer::new(AcceptAll, Bufferer::new());
    let mut svc: Service<
        CountingStage<&'static str>,
        AcceptAll,
        Bufferer<ChunkedBuf>,
        u32,
        Body,
        http_request_validator::convert::ToContiguous,
    > = layer.layer(CountingStage::new());
    let req = Request::from_parts(1u32, FrameBody::new(vec![data(b"he"), data(b"llo")]));
    let response = svc.call(req).unwrap();
    assert_eq!(response, 1);
}
