//! The failures that a request can end in, and the classification of an
//! unsuccessful HTTP status.
use crate::rate_limit::RateLimit;
use reqwest::Error as TransportError;
use serde_json::Error as JsonError;
use url::ParseError as UrlError;
use vstd::prelude::*;

verus! {

#[verifier::external_type_specification]
#[verifier::external_body]
pub struct ExTransportError(TransportError);

#[verifier::external_type_specification]
#[verifier::external_body]
pub struct ExUrlError(UrlError);

#[verifier::external_type_specification]
#[verifier::external_body]
pub struct ExJsonError(JsonError);

/// What could not be read: the endpoint address or the body of a response.
#[derive(Debug)]
pub enum ParseCause {
    Url(UrlError),
    Body(JsonError),
}

/// Possible errors of a request.
#[derive(Debug)]
pub enum Error {
    BadRequest,
    Unauthorized,
    Forbidden,
    NotFound,
    UnsupportedMediaType,
    /// The quota is exhausted; the server asks to wait this many seconds.
    TooManyRequests(u64),
    InternalServerError,
    ServiceUnavailable,
    /// No response arrived: the connection, the TLS session or the transfer failed.
    RequestError(TransportError),
    ParseError(ParseCause),
    Unknown,
    /// The API key holds a byte that a header value cannot carry.
    InvalidApiKey,
}

/// The error that an unsuccessful status stands for; `retry_after_secs` is
/// the delay that the response asked for.
pub open spec fn status_error(status: u16, retry_after_secs: u64) -> Error {
    if status == 400 {
        Error::BadRequest
    } else if status == 401 {
        Error::Unauthorized
    } else if status == 403 {
        Error::Forbidden
    } else if status == 404 {
        Error::NotFound
    } else if status == 415 {
        Error::UnsupportedMediaType
    } else if status == 429 {
        Error::TooManyRequests(retry_after_secs)
    } else if status == 500 {
        Error::InternalServerError
    } else if status == 503 {
        Error::ServiceUnavailable
    } else {
        Error::Unknown
    }
}

/// Classifies an unsuccessful status. A rate-limit rejection carries the
/// delay of the response's telemetry.
pub fn classify(status: u16, rate_limit: &RateLimit) -> (e: Error)
    ensures
        e == status_error(status, rate_limit.timeout_secs),
{
    match status {
        400 => Error::BadRequest,
        401 => Error::Unauthorized,
        403 => Error::Forbidden,
        404 => Error::NotFound,
        415 => Error::UnsupportedMediaType,
        429 => Error::TooManyRequests(rate_limit.timeout_secs),
        500 => Error::InternalServerError,
        503 => Error::ServiceUnavailable,
        _ => Error::Unknown,
    }
}

} // verus!
