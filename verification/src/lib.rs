//! A request-validation pipeline: fully buffer a streamed request body,
//! run a pluggable validator over the request head and the buffered bytes,
//! and rebuild a request whose body replays the buffered content downstream.

pub mod as_buf;
pub mod buf;
pub mod buffered;
pub mod bufferer;
pub mod buffering_validator;
pub mod bytes_buf;
pub mod collect;
pub mod convert;
pub mod dup;
pub mod frame;
pub mod handler;
pub mod middleware;
pub mod request;
pub mod service;
pub mod validator;

pub use crate::as_buf::AsBuf;
pub use crate::bufferer::Bufferer;
pub use crate::buffering_validator::BufferingValidator;
pub use crate::buffering_validator::Error;
