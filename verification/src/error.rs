//! The closed set of failures a consumer can meet, and how each is handled.

use vstd::prelude::*;

verus! {

/// How a failure is handled.
#[derive(Clone, Copy, Debug, PartialEq, Eq, Structural)]
pub enum ErrorClass {
    /// Resolved locally: the consumer waits and reconnects.
    Transient,
    /// Ends the stream; surfaced to the caller unchanged.
    Fatal,
    /// Raised by the caller's own collaborators; surfaced, never retried.
    CallerDomain,
}

/// Every failure the consumer can report. Each variant but the last carries a
/// human-readable detail that the consumer never inspects.
#[derive(Clone, Debug, PartialEq, Eq)]
pub enum StreamError {
    /// Network unreachable, connection reset, temporary unavailability.
    Connection(String),
    /// The credential is missing or was rejected.
    Auth(String),
    /// Unknown module name or malformed module graph.
    InvalidRequest(String),
    /// Malformed package bytes, or an undecodable message on the wire.
    Decode(String),
    /// The cursor could not be recorded durably.
    Persist(String),
    /// No rollback handling was supplied by the embedding application.
    UnimplementedPolicy,
}

/// The failure that an HTTP status stands for, if it stands for one: none for
/// a success, an authentication failure for 401 and 403, an invalid request for
/// 400, 404 and 422, and a connection failure for every other status.
pub open spec fn status_failure(code: u16, detail: String) -> Option<StreamError> {
    if 200 <= code < 300 {
        None
    } else if code == 401 || code == 403 {
        Some(StreamError::Auth(detail))
    } else if code == 400 || code == 404 || code == 422 {
        Some(StreamError::InvalidRequest(detail))
    } else {
        Some(StreamError::Connection(detail))
    }
}

impl StreamError {
    /// Reads the status of a response to a session request.
    pub fn from_status(code: u16, detail: String) -> (failure: Option<StreamError>)
        ensures
            failure == status_failure(code, detail),
    {
        if 200 <= code && code < 300 {
            None
        } else if code == 401 || code == 403 {
            Some(StreamError::Auth(detail))
        } else if code == 400 || code == 404 || code == 422 {
            Some(StreamError::InvalidRequest(detail))
        } else {
            Some(StreamError::Connection(detail))
        }
    }

    /// The class of this failure, as a mathematical function of the variant.
    pub open spec fn class_of(self) -> ErrorClass {
        match self {
            StreamError::Connection(_) => ErrorClass::Transient,
            StreamError::Persist(_) => ErrorClass::CallerDomain,
            _ => ErrorClass::Fatal,
        }
    }

    /// Whether the consumer retries after this failure.
    pub open spec fn transient(self) -> bool {
        self is Connection
    }

    /// The class of this failure.
    pub fn class(&self) -> (c: ErrorClass)
        ensures
            c == self.class_of(),
    {
        match self {
            StreamError::Connection(_) => ErrorClass::Transient,
            StreamError::Persist(_) => ErrorClass::CallerDomain,
            _ => ErrorClass::Fatal,
        }
    }

    /// True exactly for connection failures, the only kind that is retried.
    pub fn is_transient(&self) -> (b: bool)
        ensures
            b == self.transient(),
            b == (self.class_of() == ErrorClass::Transient),
    {
        match self {
            StreamError::Connection(_) => true,
            _ => false,
        }
    }

    /// True for every failure that ends the stream at once.
    pub fn is_fatal(&self) -> (b: bool)
        ensures
            b == (self.class_of() == ErrorClass::Fatal),
            b == !(self is Connection || self is Persist),
    {
        match self {
            StreamError::Connection(_) => false,
            StreamError::Persist(_) => false,
            _ => true,
        }
    }

    /// The process exit status for a run that ended with this failure: never zero.
    pub fn exit_code(&self) -> (code: u8)
        ensures
            code == 1,
    {
        1
    }
}

} // verus!
