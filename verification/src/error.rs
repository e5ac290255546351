//! The error of API requests.
use vstd::prelude::*;
use crate::resource::{ErrorResponse, OAuth2ErrorResponse};
use std::time::Duration;
use reqwest::Error as ReqwestError;

verus! {

/// The error type of `reqwest`, carried through as the source of request errors.
#[verifier::external_type_specification]
#[verifier::external_body]
pub struct ExReqwestError(ReqwestError);

/// An alias to `Result` of `Error`.
pub type Result<T> = std::result::Result<T, Error>;

/// What went wrong in an API request.
#[derive(Debug)]
pub enum ErrorKind {
    /// The HTTP request failed, or ser/de of its payload failed.
    RequestError(ReqwestError),
    /// The request could not be built from its parts.
    InvalidRequest { reason: &'static str },
    /// The response did not have the expected form.
    UnexpectedResponse { reason: &'static str },
    /// The storage API answered with an error status.
    ErrorResponse { status: u16, response: ErrorResponse, retry_after: Option<u32> },
    /// The OAuth2 endpoint answered with an error status.
    OAuth2Error { status: u16, response: OAuth2ErrorResponse, retry_after: Option<u32> },
}

/// Error of API request.
#[derive(Debug)]
pub struct Error {
    inner: Box<ErrorKind>,
}

impl Error {
    /// What went wrong.
    pub closed spec fn kind(&self) -> ErrorKind {
        *self.inner
    }

    /// Whether this error is an unexpected response for the given reason.
    pub open spec fn is_unexpected(&self, reason: Seq<char>) -> bool {
        self.kind() matches ErrorKind::UnexpectedResponse { reason: r } && r@ == reason
    }

    /// Whether this error is an invalid request for the given reason.
    pub open spec fn is_invalid_request(&self, reason: Seq<char>) -> bool {
        self.kind() matches ErrorKind::InvalidRequest { reason: r } && r@ == reason
    }

    /// An error for an error status of the storage API.
    pub fn from_error_response(status: u16, response: ErrorResponse, retry_after: Option<u32>) -> (r: Self)
        ensures
            r.kind() == (ErrorKind::ErrorResponse { status, response, retry_after }),
    {
        Error { inner: Box::new(ErrorKind::ErrorResponse { status, response, retry_after }) }
    }

    /// An error for a response that is not of the expected form.
    pub fn unexpected_response(reason: &'static str) -> (r: Self)
        ensures
            r.kind() == (ErrorKind::UnexpectedResponse { reason }),
    {
        Error { inner: Box::new(ErrorKind::UnexpectedResponse { reason }) }
    }

    /// An error for a request that cannot be built.
    pub fn invalid_request(reason: &'static str) -> (r: Self)
        ensures
            r.kind() == (ErrorKind::InvalidRequest { reason }),
    {
        Error { inner: Box::new(ErrorKind::InvalidRequest { reason }) }
    }

    /// An error for an error status of the OAuth2 endpoint.
    pub fn from_oauth2_error_response(
        status: u16,
        response: OAuth2ErrorResponse,
        retry_after: Option<u32>,
    ) -> (r: Self)
        ensures
            r.kind() == (ErrorKind::OAuth2Error { status, response, retry_after }),
    {
        Error { inner: Box::new(ErrorKind::OAuth2Error { status, response, retry_after }) }
    }

    /// An error for a failed HTTP request.
    pub fn from_request_error(source: ReqwestError) -> (r: Self)
        ensures
            r.kind() == ErrorKind::RequestError(source),
    {
        Error { inner: Box::new(ErrorKind::RequestError(source)) }
    }

    /// Take out what went wrong.
    pub fn into_kind(self) -> (r: ErrorKind)
        ensures
            r == self.kind(),
    {
        *self.inner
    }

    /// Get the error response from API if caused by error status code.
    pub fn error_response(&self) -> (r: Option<&ErrorResponse>)
        ensures
            r == (match self.kind() {
                ErrorKind::ErrorResponse { response, .. } => Some(&response),
                _ => None,
            }),
    {
        match &*self.inner {
            ErrorKind::ErrorResponse { response, .. } => Some(response),
            _ => None,
        }
    }

    /// Get the OAuth2 error response from API if caused by OAuth2 error response.
    pub fn oauth2_error_response(&self) -> (r: Option<&OAuth2ErrorResponse>)
        ensures
            r == (match self.kind() {
                ErrorKind::OAuth2Error { response, .. } => Some(&response),
                _ => None,
            }),
    {
        match &*self.inner {
            ErrorKind::OAuth2Error { response, .. } => Some(response),
            _ => None,
        }
    }

    /// Get the HTTP status code if caused by error status code.
    pub fn status_code(&self) -> (r: Option<u16>)
        ensures
            match self.kind() {
                ErrorKind::RequestError(_) => true,
                ErrorKind::ErrorResponse { status, .. } => r == Some(status),
                ErrorKind::OAuth2Error { status, .. } => r == Some(status),
                _ => r is None,
            },
    {
        match &*self.inner {
            ErrorKind::RequestError(source) => reqwest_error_status(source),
            ErrorKind::InvalidRequest { .. } => None,
            ErrorKind::UnexpectedResponse { .. } => None,
            ErrorKind::ErrorResponse { status, .. } => Some(*status),
            ErrorKind::OAuth2Error { status, .. } => Some(*status),
        }
    }

    /// The retry delay hint in seconds, as parsed from the response header `Retry-After`.
    pub open spec fn retry_after_spec(&self) -> Option<u32> {
        match self.kind() {
            ErrorKind::ErrorResponse { retry_after, .. } => retry_after,
            ErrorKind::OAuth2Error { retry_after, .. } => retry_after,
            _ => None,
        }
    }

    /// Get the retry delay hint on rate limited (HTTP 429) or server unavailability, if any.
    ///
    /// This is parsed from response header `Retry-After`.
    pub fn retry_after(&self) -> (r: Option<Duration>)
        ensures
            r == (match self.retry_after_spec() {
                Some(secs) => Some(duration_of_secs(secs as u64)),
                None => None,
            }),
    {
        match &*self.inner {
            ErrorKind::ErrorResponse { retry_after, .. } => match retry_after {
                Some(secs) => Some(duration_from_secs(*secs as u64)),
                None => None,
            },
            ErrorKind::OAuth2Error { retry_after, .. } => match retry_after {
                Some(secs) => Some(duration_from_secs(*secs as u64)),
                None => None,
            },
            _ => None,
        }
    }
}

/// Calls `reqwest::Error::status` and gives back the numeric code of the status, if any.
/// Nothing is claimed of the result: the error value is opaque here.
#[verifier::external_body]
fn reqwest_error_status(e: &ReqwestError) -> Option<u16> {
    match e.status() {
        Some(s) => Some(s.as_u16()),
        None => None,
    }
}

/// The duration of a whole number of seconds, as `std::time::Duration::from_secs` makes it.
pub uninterp spec fn duration_of_secs(secs: u64) -> Duration;

/// Calls `std::time::Duration::from_secs`, which makes the duration of the given number of
/// whole seconds; the claim is that the result depends on that number alone.
#[verifier::external_body]
fn duration_from_secs(secs: u64) -> (r: Duration)
    ensures
        r == duration_of_secs(secs),
{
    Duration::from_secs(secs)
}

impl From<ReqwestError> for Error {
    fn from(source: ReqwestError) -> (r: Self) {
        Error::from_request_error(source)
    }
}

impl vstd::std_specs::convert::FromSpecImpl<ReqwestError> for Error {
    open spec fn obeys_from_spec() -> bool {
        true
    }

    closed spec fn from_spec(v: ReqwestError) -> Self {
        Error { inner: Box::new(ErrorKind::RequestError(v)) }
    }
}

} // verus!
