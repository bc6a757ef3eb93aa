//! The failures that the bridge reports.

use vstd::prelude::*;

verus! {

/// The four ways in which an operation fails.
#[derive(Clone, Copy, Debug, PartialEq, Eq, Structural)]
pub enum ErrorKind {
    /// The service was not reached: no connection, a timeout, a fault in transport.
    ConnectionFailure,
    /// The service answered with a status outside 200 to 299.
    UpstreamError,
    /// The service answered with success, but the body is of no use.
    MalformedResponse,
    /// A required argument is missing or empty.
    ValidationError,
}

/// The mathematical model of a `BridgeError`.
pub enum Failure {
    ConnectionFailure { message: Seq<char> },
    UpstreamError { status: u16, message: Seq<char> },
    MalformedResponse { message: Seq<char> },
    ValidationError { message: Seq<char> },
}

impl Failure {
    /// In which of the four ways the operation failed.
    pub open spec fn kind(self) -> ErrorKind {
        match self {
            Failure::ConnectionFailure { .. } => ErrorKind::ConnectionFailure,
            Failure::UpstreamError { .. } => ErrorKind::UpstreamError,
            Failure::MalformedResponse { .. } => ErrorKind::MalformedResponse,
            Failure::ValidationError { .. } => ErrorKind::ValidationError,
        }
    }

    /// What the caller is told.
    pub open spec fn message(self) -> Seq<char> {
        match self {
            Failure::ConnectionFailure { message } => message,
            Failure::UpstreamError { message, .. } => message,
            Failure::MalformedResponse { message } => message,
            Failure::ValidationError { message } => message,
        }
    }
}

/// A failed operation: its kind and a message for a human reader.
#[derive(Clone, Debug, PartialEq, Eq)]
pub enum BridgeError {
    ConnectionFailure { message: String },
    UpstreamError { status: u16, message: String },
    MalformedResponse { message: String },
    ValidationError { message: String },
}

impl View for BridgeError {
    type V = Failure;

    open spec fn view(&self) -> Failure {
        match self {
            BridgeError::ConnectionFailure { message } => Failure::ConnectionFailure {
                message: message@,
            },
            BridgeError::UpstreamError { status, message } => Failure::UpstreamError {
                status: *status,
                message: message@,
            },
            BridgeError::MalformedResponse { message } => Failure::MalformedResponse {
                message: message@,
            },
            BridgeError::ValidationError { message } => Failure::ValidationError {
                message: message@,
            },
        }
    }
}

impl BridgeError {
    /// In which of the four ways the operation failed.
    pub fn kind(&self) -> (r: ErrorKind)
        ensures
            r == self@.kind(),
    {
        match self {
            BridgeError::ConnectionFailure { .. } => ErrorKind::ConnectionFailure,
            BridgeError::UpstreamError { .. } => ErrorKind::UpstreamError,
            BridgeError::MalformedResponse { .. } => ErrorKind::MalformedResponse,
            BridgeError::ValidationError { .. } => ErrorKind::ValidationError,
        }
    }

    /// What the caller is told.
    pub fn message(&self) -> (r: &String)
        ensures
            r@ == self@.message(),
    {
        match self {
            BridgeError::ConnectionFailure { message } => message,
            BridgeError::UpstreamError { message, .. } => message,
            BridgeError::MalformedResponse { message } => message,
            BridgeError::ValidationError { message } => message,
        }
    }

    /// The status that the service answered with, where that is the failure.
    pub fn status(&self) -> (r: Option<u16>)
        ensures
            r == match self@ {
                Failure::UpstreamError { status, .. } => Some(status),
                _ => None,
            },
    {
        match self {
            BridgeError::UpstreamError { status, .. } => Some(*status),
            _ => None,
        }
    }
}

} // verus!
