//! Rendering a pipeline error into a wire response: the boundary where
//! a buffering or validation failure becomes a status code and a message.

use vstd::prelude::*;
use vstd::string::StringExecFns;
use crate::buffering_validator::Error;

verus! {

/// The ability to render oneself as plain text, for error messages.
pub trait ErrorText {
    /// The textual representation.
    spec fn text_view(&self) -> Seq<char>;

    /// Render the textual representation.
    fn error_text(&self) -> (s: String)
        ensures
            s@ == self.text_view(),
    ;
}

impl ErrorText for String {
    open spec fn text_view(&self) -> Seq<char> {
        self@
    }

    fn error_text(&self) -> (s: String) {
        self.clone()
    }
}

impl ErrorText for crate::validator::Rejection {
    open spec fn text_view(&self) -> Seq<char> {
        match self {
            crate::validator::Rejection::BodyNotEmpty => "the body must be empty"@,
            crate::validator::Rejection::MissingPrefix => (
            "the body does not start with the required prefix"@),
        }
    }

    fn error_text(&self) -> (s: String) {
        match self {
            crate::validator::Rejection::BodyNotEmpty => String::from_str("the body must be empty"),
            crate::validator::Rejection::MissingPrefix => String::from_str(
                "the body does not start with the required prefix",
            ),
        }
    }
}

/// A rendered error response: a status code and a plain-text message.
#[derive(Debug)]
pub struct Rendered {
    /// The HTTP status code to answer with.
    pub status: u16,
    /// The plain-text message to answer with.
    pub message: String,
}

/// The handler that turns a pipeline error into a wire response.
pub trait ErrorHandler<B, V> {
    /// The status code the handler assigns to the error.
    spec fn spec_status(&self, error: Error<B, V>) -> u16;

    /// The message the handler renders for the error.
    spec fn spec_message(&self, error: Error<B, V>) -> Seq<char>;

    /// Render the error.
    fn handle_error(&self, error: Error<B, V>) -> (r: Rendered)
        ensures
            r.status == self.spec_status(error),
            r.message@ == self.spec_message(error),
    ;
}

/// An error renderer that answers with a plain-text message: a buffering
/// failure as 400, a rejection by the validator as 403.
#[derive(Debug, Clone, Copy, PartialEq, Eq, Structural)]
pub struct PlainDisplayErrorRenderer;

impl Default for PlainDisplayErrorRenderer {
    fn default() -> (r: Self)
        ensures
            r == PlainDisplayErrorRenderer,
    {
        PlainDisplayErrorRenderer
    }
}

impl<B: ErrorText, V: ErrorText> ErrorHandler<B, V> for PlainDisplayErrorRenderer {
    open spec fn spec_status(&self, error: Error<B, V>) -> u16 {
        match error {
            Error::BodyBuffering(_) => 400,
            Error::Validation(_) => 403,
        }
    }

    open spec fn spec_message(&self, error: Error<B, V>) -> Seq<char> {
        match error {
            Error::BodyBuffering(e) => "Unable to buffer the request: "@ + e.text_view(),
            Error::Validation(e) => "Invalid request: "@ + e.text_view(),
        }
    }

    fn handle_error(&self, error: Error<B, V>) -> (r: Rendered) {
        match error {
            Error::BodyBuffering(e) => {
                let mut message = String::from_str("Unable to buffer the request: ");
                let text = e.error_text();
                message.append(text.as_str());
                Rendered { status: 400, message }
            },
            Error::Validation(e) => {
                let mut message = String::from_str("Invalid request: ");
                let text = e.error_text();
                message.append(text.as_str());
                Rendered { status: 403, message }
            },
        }
    }
}

impl crate::dup::Duplicate for PlainDisplayErrorRenderer {
    fn duplicate(&self) -> (r: Self) {
        PlainDisplayErrorRenderer
    }
}

} // verus!
