//! Error rendering and the middleware entry points.

use http_request_validator::buffered::Frame;
use http_request_validator::buffering_validator::Error;
use http_request_validator::collect::Bufferer;
use http_request_validator::frame::FrameBody;
use http_request_validator::handler::{ErrorHandler, ErrorText, PlainDisplayErrorRenderer};
use http_request_validator::middleware::{middleware, simple_middleware, with_error_handler};
use http_request_validator::request::Request;
use http_request_validator::validator::{Rejection, RejectNonEmpty, RequirePrefix};

fn data(bytes: &[u8]) -> Result<Frame<Vec<u8>>, String> {
    Ok(Frame::Data(bytes.to_vec()))
}

#[test]
fn buffering_error_renders_400() {
    let error: Error<String, Rejection> = Error::BodyBuffering("connection reset".to_string());
    let rendered = PlainDisplayErrorRenderer.handle_error(error);
    assert_eq!(rendered.status, 400);
    assert_eq!(
        rendered.message,
        "Unable to buffer the request: connection reset".to_string()
    );
}

#[test]
fn validation_error_renders_403() {
    let error: Error<String, Rejection> = Error::Validation(Rejection::MissingPrefix);
    let rendered = PlainDisplayErrorRenderer.handle_error(error);
    assert_eq!(rendered.status, 403);
    assert_eq!(
        rendered.message,
        "Invalid request: the body does not start with the required prefix".to_string()
    );
}

#[test]
fn rejection_texts_are_exact() {
    assert_eq!(
        Rejection::BodyNotEmpty.error_text(),
        "the body must be empty".to_string()
    );
    assert_eq!(
        Rejection::MissingPrefix.error_text(),
        "the body does not start with the required prefix".to_string()
    );
}

#[test]
fn middleware_passes_valid_requests_through() {
    let state = with_error_handler(RejectNonEmpty, PlainDisplayErrorRenderer);
    let req: Request<(), FrameBody<String>> = Request::from_parts((), FrameBody::new(vec![]));
    let out = middleware(state, Bufferer::<bytes::Bytes>::new(), req).unwrap();
    let (bytes, trailers) = out.body.drain();
    assert_eq!(bytes, Vec::<u8>::new());
    assert_eq!(trailers, None);
}

#[test]
fn middleware_renders_rejection() {
    let state = with_error_handler(RejectNonEmpty, PlainDisplayErrorRenderer);
    let req: Request<(), FrameBody<String>> =
        Request::from_parts((), FrameBody::new(vec![data(b"oops")]));
    let rendered = middleware(state, Bufferer::<bytes::Bytes>::new(), req).unwrap_err();
    assert_eq!(rendered.status, 403);
    assert_eq!(
        rendered.message,
        "Invalid request: the body must be empty".to_string()
    );
}

#[test]
fn simple_middleware_renders_stream_failure() {
    // Streaming body errors after delivering 2 of 3 expected frames: the
    // failure is a buffering failure, rendered as status 400; the
    // validator never comes into it.
    let req: Request<(), FrameBody<String>> = Request::from_parts(
        (),
        FrameBody::new(vec![data(b"ab"), data(b"cd"), Err("peer hung up".to_string())]),
    );
    let rendered = simple_middleware(
        RequirePrefix::new(b"signature=".to_vec()),
        Bufferer::<bytes::Bytes>::new(),
        req,
    )
    .unwrap_err();
    assert_eq!(rendered.status, 400);
    assert_eq!(
        rendered.message,
        "Unable to buffer the request: peer hung up".to_string()
    );
}

#[test]
fn simple_middleware_accepts_signed_request() {
    let req: Request<(), FrameBody<String>> =
        Request::from_parts((), FrameBody::new(vec![data(b"signature=abc")]));
    let out = simple_middleware(
        RequirePrefix::new(b"signature=".to_vec()),
        Bufferer::<bytes::Bytes>::new(),
        req,
    )
    .unwrap();
    let (bytes, _) = out.body.drain();
    assert_eq!(bytes, b"signature=abc".to_vec());
}
