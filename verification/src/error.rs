//! Error taxonomy of the service, and its mapping to HTTP status codes.

use vstd::prelude::*;

verus! {

/// Everything that can go wrong while handling a request. Each variant
/// carries a human-readable message; the transport layer turns the pair
/// (status code, message) into the error body of the HTTP response.
#[derive(Debug)]
pub enum AppError {
    /// The bus was unreachable when the service tried to connect (fatal at
    /// startup: the service exists only to forward to the bus).
    NatsConnectionError(String),
    /// The bus rejected or could not deliver a publish call.
    NatsPublishError(String),
    /// A record failed one of the structural checks.
    ValidationError(String),
    /// An internal failure, such as a record that could not be encoded.
    InternalError(String),
}

impl AppError {
    /// The HTTP status code that reports this error.
    pub open spec fn spec_status_code(&self) -> u16 {
        match self {
            AppError::NatsConnectionError(_) => 503,
            AppError::NatsPublishError(_) => 500,
            AppError::ValidationError(_) => 400,
            AppError::InternalError(_) => 500,
        }
    }

    /// The message carried by this error.
    pub open spec fn spec_message(&self) -> Seq<char> {
        match self {
            AppError::NatsConnectionError(m) => m@,
            AppError::NatsPublishError(m) => m@,
            AppError::ValidationError(m) => m@,
            AppError::InternalError(m) => m@,
        }
    }

    /// The HTTP status code of the response that reports this error:
    /// 503 when the bus could not be reached, 400 for an invalid record,
    /// 500 for a failed publish or an internal failure.
    pub fn status_code(&self) -> (code: u16)
        ensures
            code == self.spec_status_code(),
    {
        match self {
            AppError::NatsConnectionError(_) => 503,
            AppError::NatsPublishError(_) => 500,
            AppError::ValidationError(_) => 400,
            AppError::InternalError(_) => 500,
        }
    }

    /// The human-readable message to put in the error body of the response.
    pub fn message(&self) -> (m: String)
        ensures
            m@ == self.spec_message(),
    {
        match self {
            AppError::NatsConnectionError(m) => m.clone(),
            AppError::NatsPublishError(m) => m.clone(),
            AppError::ValidationError(m) => m.clone(),
            AppError::InternalError(m) => m.clone(),
        }
    }
}

} // verus!
