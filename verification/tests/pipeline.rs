//! Buffering and orchestration: draining a streamed body, validating it,
//! and rebuilding a request whose body replays the buffered content.

use http_request_validator::buf::{Buf, ChunkedBuf};
use http_request_validator::buffered::Frame;
use http_request_validator::bufferer::Bufferer as BuffererTrait;
use http_request_validator::buffering_validator::{BufferingValidator, Error};
use http_request_validator::collect::Bufferer;
use http_request_validator::convert::{BufferedToBody, ToContiguous, Trivial};
use http_request_validator::frame::FrameBody;
use http_request_validator::middleware;
use http_request_validator::request::Request;
use http_request_validator::validator::{AcceptAll, Rejection, RejectNonEmpty, RequirePrefix};

fn data(bytes: &[u8]) -> Result<Frame<Vec<u8>>, String> {
    Ok(Frame::Data(bytes.to_vec()))
}

fn trailers_frame() -> (Result<Frame<Vec<u8>>, String>, http::HeaderMap) {
    let mut map = http::HeaderMap::new();
    map.insert("x-checksum", http::HeaderValue::from_static("abc123"));
    (Ok(Frame::Trailers(map.clone())), map)
}

#[test]
fn validate() {
    let bufferer = Bufferer::<bytes::Bytes>::new();
    let req: Request<(), FrameBody<String>> = Request::from_parts((), FrameBody::new(vec![]));
    let result = middleware::validate(bufferer, AcceptAll, req);
    let _ = result.unwrap();
}

#[test]
fn validate_arc() {
    let bufferer = Bufferer::<bytes::Bytes>::new();
    let req: Request<(), FrameBody<String>> = Request::from_parts((), FrameBody::new(vec![]));
    let result = middleware::validate(bufferer, std::sync::Arc::new(AcceptAll), req);
    let _ = result.unwrap();
}

#[test]
fn buffers_all_data_frames_in_order_once() {
    // Two identical chunks stay two chunks: nothing is lost, duplicated
    // beyond what arrived, or reordered.
    let body: FrameBody<String> = FrameBody::new(vec![data(b"ab"), data(b"ab"), data(b"cd")]);
    let buffered = Bufferer::<bytes::Bytes>::new().buffer(body).unwrap();
    assert_eq!(buffered.data.copy_to_vec(), b"ababcd".to_vec());
    assert!(buffered.trailers.is_none());
}

#[test]
fn buffers_chunked_without_concatenating() {
    let body: FrameBody<String> = FrameBody::new(vec![data(b"he"), data(b"llo")]);
    let buffered = Bufferer::<ChunkedBuf>::new().buffer(body).unwrap();
    assert_eq!(buffered.data.remaining(), 5);
    assert_eq!(buffered.data.byte_at(0), b'h');
    assert_eq!(buffered.data.byte_at(4), b'o');
    assert_eq!(buffered.data.copy_to_vec(), b"hello".to_vec());
}

#[test]
fn buffering_fails_with_the_stream_error() {
    // The stream errs on frame 3 of 3: buffering fails with exactly that
    // error even though two frames were already delivered.
    let body: FrameBody<String> =
        FrameBody::new(vec![data(b"ab"), data(b"cd"), Err("boom".to_string())]);
    let result = Bufferer::<bytes::Bytes>::new().buffer(body);
    assert_eq!(result.unwrap_err(), "boom".to_string());
}

#[test]
fn round_trip_preserves_bytes_and_trailers() {
    let (frame, map) = trailers_frame();
    let body: FrameBody<String> = FrameBody::new(vec![data(b"he"), data(b"llo"), frame]);
    let buffered = Bufferer::<bytes::Bytes>::new().buffer(body).unwrap();
    let out = Trivial::buffered_to_body(buffered);
    let (bytes, trailers) = out.drain();
    assert_eq!(bytes, b"hello".to_vec());
    assert_eq!(trailers, Some(map));
}

#[test]
fn round_trip_chunked_through_custom_converter() {
    let (frame, map) = trailers_frame();
    let body: FrameBody<String> = FrameBody::new(vec![data(b"he"), data(b"llo"), frame]);
    let buffered = Bufferer::<ChunkedBuf>::new().buffer(body).unwrap();
    let out = ToContiguous::buffered_to_body(buffered);
    let (bytes, trailers) = out.drain();
    assert_eq!(bytes, b"hello".to_vec());
    assert_eq!(trailers, Some(map));
}

#[test]
fn round_trip_of_empty_body_is_empty() {
    let body: FrameBody<String> = FrameBody::new(vec![]);
    let buffered = Bufferer::<bytes::Bytes>::new().buffer(body).unwrap();
    let out = Trivial::buffered_to_body(buffered);
    let (bytes, trailers) = out.drain();
    assert_eq!(bytes, Vec::<u8>::new());
    assert_eq!(trailers, None);
}

#[test]
fn empty_body_passes_reject_non_empty() {
    // Empty byte sequence, validator rejects non-empty bodies: accepted,
    // and the reconstructed request has an empty body.
    let req: Request<(), FrameBody<String>> = Request::from_parts((), FrameBody::new(vec![]));
    let orchestrator = BufferingValidator::new(Bufferer::<bytes::Bytes>::new());
    let out = orchestrator.validate(RejectNonEmpty, req).unwrap();
    let (bytes, trailers) = out.body.drain();
    assert_eq!(bytes, Vec::<u8>::new());
    assert_eq!(trailers, None);
}

#[test]
fn non_empty_body_rejected_by_reject_non_empty() {
    let req: Request<(), FrameBody<String>> =
        Request::from_parts((), FrameBody::new(vec![data(b"x")]));
    let orchestrator = BufferingValidator::new(Bufferer::<bytes::Bytes>::new());
    let result = orchestrator.validate(RejectNonEmpty, req);
    assert!(matches!(result, Err(Error::Validation(Rejection::BodyNotEmpty))));
}

#[test]
fn signature_prefix_accepted() {
    let req: Request<(), FrameBody<String>> =
        Request::from_parts((), FrameBody::new(vec![data(b"signature=abc")]));
    let orchestrator = BufferingValidator::new(Bufferer::<bytes::Bytes>::new());
    let out = orchestrator
        .validate(RequirePrefix::new(b"signature=".to_vec()), req)
        .unwrap();
    let (bytes, _) = out.body.drain();
    assert_eq!(bytes, b"signature=abc".to_vec());
}

#[test]
fn missing_prefix_rejected() {
    // Body without the required prefix: the validation error comes back
    // and nothing downstream ever sees the request.
    let req: Request<(), FrameBody<String>> =
        Request::from_parts((), FrameBody::new(vec![data(b"unsigned")]));
    let orchestrator = BufferingValidator::new(Bufferer::<bytes::Bytes>::new());
    let result = orchestrator.validate(RequirePrefix::new(b"signature=".to_vec()), req);
    assert!(matches!(result, Err(Error::Validation(Rejection::MissingPrefix))));
}

#[test]
fn prefix_check_spans_chunk_boundaries() {
    let req: Request<(), FrameBody<String>> =
        Request::from_parts((), FrameBody::new(vec![data(b"sig"), data(b"nature=abc")]));
    let orchestrator = BufferingValidator::new(Bufferer::<ChunkedBuf>::new());
    let result = orchestrator.validate(RequirePrefix::new(b"signature=".to_vec()), req);
    assert!(result.is_ok());
}

#[test]
fn stream_error_beats_validation() {
    // The stream errs after 2 of 3 expected frames: the outcome is a
    // buffering failure, not a validation failure, although the
    // validator would also have rejected the partial data.
    let req: Request<(), FrameBody<String>> = Request::from_parts(
        (),
        FrameBody::new(vec![data(b"ab"), data(b"cd"), Err("reset".to_string())]),
    );
    let orchestrator = BufferingValidator::new(Bufferer::<bytes::Bytes>::new());
    let result = orchestrator.validate(RejectNonEmpty, req);
    assert!(matches!(result, Err(Error::BodyBuffering(ref e)) if e == "reset"));
}

#[test]
fn head_is_kept_through_the_pipeline() {
    let req: Request<u32, FrameBody<String>> =
        Request::from_parts(7, FrameBody::new(vec![data(b"x")]));
    let orchestrator = BufferingValidator::new(Bufferer::<bytes::Bytes>::new());
    let out = orchestrator.validate(AcceptAll, req).unwrap();
    assert_eq!(out.head, 7);
}

#[test]
fn last_trailers_frame_wins() {
    let mut first = http::HeaderMap::new();
    first.insert("x-a", http::HeaderValue::from_static("1"));
    let mut second = http::HeaderMap::new();
    second.insert("x-b", http::HeaderValue::from_static("2"));
    let body: FrameBody<String> = FrameBody::new(vec![
        Ok(Frame::Trailers(first)),
        data(b"hi"),
        Ok(Frame::Trailers(second.clone())),
    ]);
    let buffered = Bufferer::<bytes::Bytes>::new().buffer(body).unwrap();
    assert_eq!(buffered.trailers, Some(second));
    assert_eq!(buffered.data.copy_to_vec(), b"hi".to_vec());
}
