//! The error body that every route answers with when it fails.

use vstd::prelude::*;

verus! {

/// The reason phrase that the `http` crate's status table gives a status code.
pub uninterp spec fn spec_canonical_reason(code: u16) -> Option<Seq<char>>;

/// `hyper::StatusCode::from_u16(code)` followed by `StatusCode::canonical_reason`.
///
/// Claims that the phrase is the one the `http` crate's table holds for `code`
/// (named, not spelled out), and states the table's entries for the four codes
/// this library answers with. `from_u16` accepts exactly the codes 100 to 999,
/// which is why they are required.
#[verifier::external_body]
pub(crate) fn canonical_reason(code: u16) -> (r: Option<&'static str>)
    requires
        100 <= code <= 999,
    ensures
        r is Some ==> spec_canonical_reason(code) == Some(r->0@),
        r is None ==> spec_canonical_reason(code) is None,
        code == 400 ==> r is Some && r->0@ == "Bad Request"@,
        code == 404 ==> r is Some && r->0@ == "Not Found"@,
        code == 429 ==> r is Some && r->0@ == "Too Many Requests"@,
        code == 500 ==> r is Some && r->0@ == "Internal Server Error"@,
{
    match hyper::StatusCode::from_u16(code) {
        Ok(status) => status.canonical_reason(),
        Err(_) => None,
    }
}

/// A numeric error code of the API, serialised as a bare number.
#[derive(Debug, Clone, Copy, PartialEq, Eq, Structural)]
pub struct ApiErrorCode(pub u16);

impl ApiErrorCode {
    /// The requested route does not exist.
    pub fn route_not_found() -> (c: ApiErrorCode)
        ensures
            c.0 == 404,
    {
        ApiErrorCode(404)
    }

    /// The requested game slug does not exist.
    pub fn unknown_game() -> (c: ApiErrorCode)
        ensures
            c.0 == 1000,
    {
        ApiErrorCode(1000)
    }

    /// The `lang` parameter is not a supported language.
    pub fn invalid_language() -> (c: ApiErrorCode)
        ensures
            c.0 == 1001,
    {
        ApiErrorCode(1001)
    }

    /// A database query failed unexpectedly.
    pub fn database_error() -> (c: ApiErrorCode)
        ensures
            c.0 == 2000,
    {
        ApiErrorCode(2000)
    }

    /// The requested feature is not configured on the server.
    pub fn not_configured() -> (c: ApiErrorCode)
        ensures
            c.0 == 3000,
    {
        ApiErrorCode(3000)
    }

    /// An upstream HoYoverse or HoYoLab call failed.
    pub fn upstream_error() -> (c: ApiErrorCode)
        ensures
            c.0 == 3001,
    {
        ApiErrorCode(3001)
    }
}

/// The reason phrase an error body carries for `code`.
pub open spec fn status_text(code: u16) -> Seq<char> {
    match spec_canonical_reason(code) {
        Some(s) => s,
        None => "unknown"@,
    }
}

/// An error answer: an HTTP status, its reason phrase, an API error code and a message.
#[derive(Debug, Clone)]
pub struct ApiError {
    pub status_code: u16,
    pub status: String,
    pub error_code: ApiErrorCode,
    pub error: String,
}

impl ApiError {
    /// An error with the given status; its reason phrase is the standard one,
    /// or `"unknown"` for a code without one.
    pub fn new(status_code: u16, error_code: ApiErrorCode, error: &str) -> (e: ApiError)
        requires
            100 <= status_code <= 999,
        ensures
            e.status_code == status_code,
            e.status@ == status_text(status_code),
            status_code == 400 ==> e.status@ == "Bad Request"@,
            status_code == 404 ==> e.status@ == "Not Found"@,
            status_code == 429 ==> e.status@ == "Too Many Requests"@,
            status_code == 500 ==> e.status@ == "Internal Server Error"@,
            e.error_code == error_code,
            e.error@ == error@,
    {
        let status = match canonical_reason(status_code) {
            Some(s) => s.to_owned(),
            None => "unknown".to_owned(),
        };
        ApiError { status_code, status, error_code, error: error.to_owned() }
    }

    /// A `400 Bad Request` error.
    pub fn bad_request(error_code: ApiErrorCode, error: &str) -> (e: ApiError)
        ensures
            e.status_code == 400,
            e.status@ == "Bad Request"@,
            e.error_code == error_code,
            e.error@ == error@,
    {
        ApiError::new(400, error_code, error)
    }

    /// A `404 Not Found` error.
    pub fn not_found(error_code: ApiErrorCode, error: &str) -> (e: ApiError)
        ensures
            e.status_code == 404,
            e.status@ == "Not Found"@,
            e.error_code == error_code,
            e.error@ == error@,
    {
        ApiError::new(404, error_code, error)
    }

    /// A `500 Internal Server Error` error.
    pub fn internal_server_error(error_code: ApiErrorCode, error: &str) -> (e: ApiError)
        ensures
            e.status_code == 500,
            e.status@ == "Internal Server Error"@,
            e.error_code == error_code,
            e.error@ == error@,
    {
        ApiError::new(500, error_code, error)
    }
}

} // verus!
