//! Error type of client operations.

use vstd::prelude::*;

use crate::protocol::{ProtocolError, StatusCode};

verus! {

/// Error type of client operations.
#[derive(Debug, Clone, PartialEq, Eq)]
pub enum Error {
    /// Network or connection error
    Connection(String),
    /// Protocol error
    Protocol(String),
    /// A response frame that could not be decoded
    Frame(ProtocolError),
    /// A response whose sequence number is not the request's; the connection
    /// must not be used again
    SequenceMismatch { expected: u32, got: u32 },
    /// A well-formed response with a status other than success (and other
    /// than authentication required), with its payload as text
    Status(StatusCode, String),
    /// The server asks for authentication; retryable after authenticating
    AuthRequired(String),
    /// Server returned an error
    Server(String),
    /// Operation timed out
    Timeout(String),
    /// I/O error
    Io(String),
    /// Serialization/deserialization error
    Serialization(String),
    /// Invalid argument provided
    InvalidArgument(String),
    /// Key not found
    KeyNotFound,
    /// Connection pool exhausted
    PoolExhausted,
    /// Invalid response from server
    InvalidResponse(String),
    /// Authentication failed
    AuthenticationFailed,
    /// The server rejected the authentication handshake, with its reason
    AuthenticationRejected(String),
    /// Not connected to server
    NotConnected,
    /// Operation not supported
    NotSupported,
    /// JSON serialization/deserialization error
    Json(String),
    /// Other errors
    Other(String),
}

/// The error of a response with status `status` and payload text `text`:
/// `AuthRequired` for that status, `Status` for every other one.
pub open spec fn is_status_error(e: Error, status: StatusCode, text: Seq<char>) -> bool {
    match e {
        Error::AuthRequired(m) => status == StatusCode::AuthRequired && m@ == text,
        Error::Status(s, m) => s == status && status != StatusCode::AuthRequired && m@ == text,
        _ => false,
    }
}

/// The errors after which a connection's byte stream can no longer be
/// trusted: a frame that could not be read, a sequence mismatch, a timeout
/// or an I/O failure in mid-frame.
pub open spec fn spec_is_connection_fatal(e: Error) -> bool {
    match e {
        Error::Frame(_) | Error::SequenceMismatch { .. } | Error::Timeout(_) | Error::Io(_)
        | Error::Connection(_) => true,
        _ => false,
    }
}

impl Error {
    /// A connection error with the given message.
    pub fn connection(msg: &str) -> (r: Self)
        ensures
            r matches Error::Connection(m) && m@ == msg@,
    {
        Error::Connection(msg.to_owned())
    }

    /// A protocol error with the given message.
    pub fn protocol(msg: &str) -> (r: Self)
        ensures
            r matches Error::Protocol(m) && m@ == msg@,
    {
        Error::Protocol(msg.to_owned())
    }

    /// A server error with the given message.
    pub fn server(msg: &str) -> (r: Self)
        ensures
            r matches Error::Server(m) && m@ == msg@,
    {
        Error::Server(msg.to_owned())
    }

    /// An invalid-argument error with the given message.
    pub fn invalid_argument(msg: &str) -> (r: Self)
        ensures
            r matches Error::InvalidArgument(m) && m@ == msg@,
    {
        Error::InvalidArgument(msg.to_owned())
    }

    /// An invalid-response error with the given message.
    pub fn invalid_response(msg: &str) -> (r: Self)
        ensures
            r matches Error::InvalidResponse(m) && m@ == msg@,
    {
        Error::InvalidResponse(msg.to_owned())
    }

    /// An error of no other kind, with the given message.
    pub fn other(msg: &str) -> (r: Self)
        ensures
            r matches Error::Other(m) && m@ == msg@,
    {
        Error::Other(msg.to_owned())
    }

    /// Whether the connection that produced this error must be discarded
    /// rather than handed out again.
    pub fn is_connection_fatal(&self) -> (r: bool)
        ensures
            r == spec_is_connection_fatal(*self),
    {
        match self {
            Error::Frame(_) | Error::SequenceMismatch { .. } | Error::Timeout(_) | Error::Io(_)
            | Error::Connection(_) => true,
            _ => false,
        }
    }

    /// Whether the operation may succeed if retried after authenticating.
    pub fn is_retryable(&self) -> (r: bool)
        ensures
            r == (*self is AuthRequired),
    {
        match self {
            Error::AuthRequired(_) => true,
            _ => false,
        }
    }
}

} // verus!
