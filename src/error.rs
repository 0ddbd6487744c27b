use vstd::prelude::*;

verus! {

/// Raised when the request description cannot be duplicated, so that it could
/// not be re-issued on a reconnection.
#[derive(Debug, Clone, Copy, PartialEq, Eq)]
pub struct CannotCloneRequestError;

impl CannotCloneRequestError {
    /// The human-readable description of this error.
    pub fn message(&self) -> (r: &'static str)
        ensures
            r@ == "expected a cloneable request"@,
    {
        "expected a cloneable request"
    }
}

/// Every failure that the event stream reports to its consumer.
#[derive(Debug, Clone, PartialEq, Eq)]
pub enum Error {
    /// The response body was not valid UTF-8.
    Utf8(String),
    /// A frame of the response body could not be parsed.
    Parser(String),
    /// The request could not be sent or the body could not be read.
    Transport(String),
    /// The response's content type is missing or is not `text/event-stream`;
    /// holds the raw header value (empty when the header is absent).
    InvalidContentType(Vec<u8>),
    /// The response's status code is not 200.
    InvalidStatusCode(u16),
    /// The last event id cannot be sent as a header value.
    InvalidLastEventId(String),
    /// The server ended the response body.
    StreamEnded,
}

/// Whether a failure of this kind may be followed by a reconnection: only a
/// transport failure or the end of the body may.
pub open spec fn is_retryable(error: Error) -> bool {
    match error {
        Error::Transport(_) | Error::StreamEnded => true,
        _ => false,
    }
}

} // verus!
