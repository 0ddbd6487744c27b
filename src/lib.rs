//! A reconnecting Server-Sent-Events client core.
//!
//! The stream state machine in [`event_source`] decides what happens after each
//! outcome of a request, a response body or a retry delay; the policies in
//! [`retry`] decide whether and after how long a failed connection is retried.
//! The code that performs the requests and drives the timers hands the machine
//! plain values and carries out what it decides.
mod error;
pub mod event_source;
pub mod response;
pub mod retry;

pub use error::{CannotCloneRequestError, Error};
pub use event_source::{Event, EventSource, MessageEvent, ReadyState};

