//! Error codes and error answers with optional extra headers.

use vstd::prelude::*;
use crate::http::error::{canonical_reason, spec_canonical_reason};

verus! {

/// A categorised error code; its number is grouped by the kind of failure.
#[derive(Debug, Clone, Copy, PartialEq, Eq, Structural)]
pub enum ApiErrorCode {
    Unknown,
    DatabaseError,
    CacheError,
    RateLimitExceeded,
    ResourceNotFound,
    InvalidResource,
    BadRequest,
    InvalidLanguage,
    InvalidCategory,
    ServiceUnavailable,
    ExternalServiceError,
}

/// The name of an error code.
pub open spec fn spec_code_name(c: ApiErrorCode) -> Seq<char> {
    match c {
        ApiErrorCode::Unknown => "UNKNOWN"@,
        ApiErrorCode::DatabaseError => "DATABASE_ERROR"@,
        ApiErrorCode::CacheError => "CACHE_ERROR"@,
        ApiErrorCode::RateLimitExceeded => "RATE_LIMIT_EXCEEDED"@,
        ApiErrorCode::ResourceNotFound => "RESOURCE_NOT_FOUND"@,
        ApiErrorCode::InvalidResource => "INVALID_RESOURCE"@,
        ApiErrorCode::BadRequest => "BAD_REQUEST"@,
        ApiErrorCode::InvalidLanguage => "INVALID_LANGUAGE"@,
        ApiErrorCode::InvalidCategory => "INVALID_CATEGORY"@,
        ApiErrorCode::ServiceUnavailable => "SERVICE_UNAVAILABLE"@,
        ApiErrorCode::ExternalServiceError => "EXTERNAL_SERVICE_ERROR"@,
    }
}

/// The number of an error code: 1000s database, 2000s rate limiting, 3000s
/// resources, 4000s requests, 5000s services.
pub open spec fn spec_code_number(c: ApiErrorCode) -> u16 {
    match c {
        ApiErrorCode::Unknown => 0,
        ApiErrorCode::DatabaseError => 1000,
        ApiErrorCode::CacheError => 1001,
        ApiErrorCode::RateLimitExceeded => 2000,
        ApiErrorCode::ResourceNotFound => 3000,
        ApiErrorCode::InvalidResource => 3001,
        ApiErrorCode::BadRequest => 4000,
        ApiErrorCode::InvalidLanguage => 4001,
        ApiErrorCode::InvalidCategory => 4002,
        ApiErrorCode::ServiceUnavailable => 5000,
        ApiErrorCode::ExternalServiceError => 5001,
    }
}

impl ApiErrorCode {
    /// The name of this code, in upper snake case.
    pub fn as_str(&self) -> (r: &'static str)
        ensures
            r@ == spec_code_name(*self),
    {
        match self {
            ApiErrorCode::Unknown => "UNKNOWN",
            ApiErrorCode::DatabaseError => "DATABASE_ERROR",
            ApiErrorCode::CacheError => "CACHE_ERROR",
            ApiErrorCode::RateLimitExceeded => "RATE_LIMIT_EXCEEDED",
            ApiErrorCode::ResourceNotFound => "RESOURCE_NOT_FOUND",
            ApiErrorCode::InvalidResource => "INVALID_RESOURCE",
            ApiErrorCode::BadRequest => "BAD_REQUEST",
            ApiErrorCode::InvalidLanguage => "INVALID_LANGUAGE",
            ApiErrorCode::InvalidCategory => "INVALID_CATEGORY",
            ApiErrorCode::ServiceUnavailable => "SERVICE_UNAVAILABLE",
            ApiErrorCode::ExternalServiceError => "EXTERNAL_SERVICE_ERROR",
        }
    }

    /// The number this code is serialised as.
    pub fn code(&self) -> (r: u16)
        ensures
            r == spec_code_number(*self),
    {
        match self {
            ApiErrorCode::Unknown => 0,
            ApiErrorCode::DatabaseError => 1000,
            ApiErrorCode::CacheError => 1001,
            ApiErrorCode::RateLimitExceeded => 2000,
            ApiErrorCode::ResourceNotFound => 3000,
            ApiErrorCode::InvalidResource => 3001,
            ApiErrorCode::BadRequest => 4000,
            ApiErrorCode::InvalidLanguage => 4001,
            ApiErrorCode::InvalidCategory => 4002,
            ApiErrorCode::ServiceUnavailable => 5000,
            ApiErrorCode::ExternalServiceError => 5001,
        }
    }
}

/// No two error codes share a number.
pub proof fn law_code_numbers_distinct(a: ApiErrorCode, b: ApiErrorCode)
    ensures
        spec_code_number(a) == spec_code_number(b) ==> a == b,
{
}

/// The reason phrase an error answer carries for `code`.
pub open spec fn status_text(code: u16) -> Seq<char> {
    match spec_canonical_reason(code) {
        Some(s) => s,
        None => "unknown status code"@,
    }
}

/// An error answer with an HTTP status, its reason phrase, an error code, a
/// message and headers to add to the response.
#[derive(Debug, Clone)]
pub struct ApiError {
    pub status_code: u16,
    pub status: String,
    pub error_code: ApiErrorCode,
    pub error: String,
    pub extra_headers: Option<Vec<(String, String)>>,
}

impl ApiError {
    /// An error with the given status; its reason phrase is the standard one,
    /// or `"unknown status code"` for a code without one.
    pub fn new(status_code: u16, error_code: ApiErrorCode, error: &str) -> (e: ApiError)
        requires
            100 <= status_code <= 999,
        ensures
            e.status_code == status_code,
            e.status@ == status_text(status_code),
            status_code == 400 ==> e.status@ == "Bad Request"@,
            status_code == 404 ==> e.status@ == "Not Found"@,
            status_code == 429 ==> e.status@ == "Too Many Requests"@,
            status_code == 500 ==> e.status@ == "Internal Server Error"@,
            e.error_code == error_code,
            e.error@ == error@,
            e.extra_headers is None,
    {
        let status = match canonical_reason(status_code) {
            Some(s) => s.to_owned(),
            None => "unknown status code".to_owned(),
        };
        ApiError { status_code, status, error_code, error: error.to_owned(), extra_headers: None }
    }

    /// A `500 Internal Server Error` error with code `Unknown`.
    pub fn internal_server_error(error: &str) -> (e: ApiError)
        ensures
            e.status_code == 500,
            e.status@ == "Internal Server Error"@,
            e.error_code == ApiErrorCode::Unknown,
            e.error@ == error@,
            e.extra_headers is None,
    {
        ApiError::new(500, ApiErrorCode::Unknown, error)
    }

    /// A `500 Internal Server Error` error with code `DatabaseError`.
    pub fn database_error(error: &str) -> (e: ApiError)
        ensures
            e.status_code == 500,
            e.status@ == "Internal Server Error"@,
            e.error_code == ApiErrorCode::DatabaseError,
            e.error@ == error@,
            e.extra_headers is None,
    {
        ApiError::new(500, ApiErrorCode::DatabaseError, error)
    }

    /// A `500 Internal Server Error` error with code `CacheError`.
    pub fn cache_error(error: &str) -> (e: ApiError)
        ensures
            e.status_code == 500,
            e.status@ == "Internal Server Error"@,
            e.error_code == ApiErrorCode::CacheError,
            e.error@ == error@,
            e.extra_headers is None,
    {
        ApiError::new(500, ApiErrorCode::CacheError, error)
    }

    /// A `429 Too Many Requests` error with code `RateLimitExceeded`.
    pub fn rate_limit_exceeded(error: &str) -> (e: ApiError)
        ensures
            e.status_code == 429,
            e.status@ == "Too Many Requests"@,
            e.error_code == ApiErrorCode::RateLimitExceeded,
            e.error@ == error@,
            e.extra_headers is None,
    {
        ApiError::new(429, ApiErrorCode::RateLimitExceeded, error)
    }

    /// A `404 Not Found` error with code `ResourceNotFound`.
    pub fn not_found(error: &str) -> (e: ApiError)
        ensures
            e.status_code == 404,
            e.status@ == "Not Found"@,
            e.error_code == ApiErrorCode::ResourceNotFound,
            e.error@ == error@,
            e.extra_headers is None,
    {
        ApiError::new(404, ApiErrorCode::ResourceNotFound, error)
    }

    /// A `400 Bad Request` error with code `BadRequest`.
    pub fn bad_request(error: &str) -> (e: ApiError)
        ensures
            e.status_code == 400,
            e.status@ == "Bad Request"@,
            e.error_code == ApiErrorCode::BadRequest,
            e.error@ == error@,
            e.extra_headers is None,
    {
        ApiError::new(400, ApiErrorCode::BadRequest, error)
    }

    /// The same error with `headers` added to its response.
    pub fn with_extra_headers(self, headers: Vec<(String, String)>) -> (e: ApiError)
        ensures
            e.status_code == self.status_code,
            e.status == self.status,
            e.error_code == self.error_code,
            e.error == self.error,
            e.extra_headers == Some(headers),
    {
        ApiError { extra_headers: Some(headers), ..self }
    }
}

} // verus!
