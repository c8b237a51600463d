//! The closed error taxonomy shared by every operation.
use vstd::prelude::*;

verus! {

/// Errors that can occur when using the Bento API.
///
/// Validation errors are produced locally, before any request is sent.
/// `RateLimit`, `AuthenticationFailed`, `UnexpectedResponse` and
/// `HttpClient` describe the outcome of a request that was sent.
#[derive(Debug, Clone, PartialEq, Eq)]
pub enum Error {
    /// Invalid configuration provided
    InvalidConfig(String),
    /// Invalid email address format
    InvalidEmail(String),
    /// Invalid IP address format
    InvalidIpAddress(String),
    /// Invalid request parameters
    InvalidRequest(String),
    /// Unexpected API response
    UnexpectedResponse(String),
    /// Invalid command type
    InvalidCommand(String),
    /// Invalid name format
    InvalidName(String),
    /// Invalid segment ID
    InvalidSegmentId(String),
    /// Invalid content
    InvalidContent(String),
    /// Invalid tags format
    InvalidTags(String),
    /// Invalid batch size
    InvalidBatchSize(String),
    /// Transport-level failure reported by the HTTP client
    HttpClient(String),
    /// Rate limit exceeded
    RateLimit,
    /// Authentication failed
    AuthenticationFailed,
}

} // verus!
