use vstd::prelude::*;

use crate::decimal::{dec_rep, u64_to_decimal};

verus! {

broadcast use vstd::string::group_string_axioms;

/// Why an API operation failed.
#[derive(Clone, Debug, PartialEq)]
pub enum ApiError {
    /// The HTTP round trip itself could not be completed.
    Transport(String),
    /// The server answered outside 200..=299; the status and the body text
    /// are kept for diagnostics.
    HttpStatus(u16, String),
    /// The response body did not parse as the expected shape.
    Decode(String),
    /// The request address could not be assembled.
    UriConstruction(String),
}

impl ApiError {
    /// A one-line description of the failure.
    pub fn describe(&self) -> (r: String)
        ensures
            match self {
                ApiError::Transport(m) => r@ == "transport error: "@ + m@,
                ApiError::HttpStatus(code, body) => r@ == "got http status code "@ + dec_rep(
                    *code as nat,
                ) + ": "@ + body@,
                ApiError::Decode(m) => r@ == "decode error: "@ + m@,
                ApiError::UriConstruction(m) => r@ == "uri construction error: "@ + m@,
            },
    {
        match self {
            ApiError::Transport(m) => {
                let mut s = "transport error: ".to_owned();
                s.append(m.as_str());
                s
            },
            ApiError::HttpStatus(code, body) => {
                let mut s = "got http status code ".to_owned();
                let rendered = u64_to_decimal(*code as u64);
                s.append(rendered.as_str());
                s.append(": ");
                s.append(body.as_str());
                s
            },
            ApiError::Decode(m) => {
                let mut s = "decode error: ".to_owned();
                s.append(m.as_str());
                s
            },
            ApiError::UriConstruction(m) => {
                let mut s = "uri construction error: ".to_owned();
                s.append(m.as_str());
                s
            },
        }
    }
}

/// Whether an HTTP status counts as success.
pub open spec fn status_success(status: u16) -> bool {
    200 <= status <= 299
}

/// Tests whether an HTTP status counts as success.
pub fn status_is_success(status: u16) -> (r: bool)
    ensures
        r == status_success(status),
{
    200 <= status && status <= 299
}

/// Decides one request/response round trip: a success status hands the body
/// on for decoding, any other status becomes the status error carrying the
/// body text, exactly as received.
pub fn evaluate_response(status: u16, body: String) -> (r: Result<String, ApiError>)
    ensures
        status_success(status) ==> r == Ok::<String, ApiError>(body),
        !status_success(status) ==> r == Err::<String, ApiError>(
            ApiError::HttpStatus(status, body),
        ),
{
    if 200 <= status && status <= 299 {
        Ok(body)
    } else {
        Err(ApiError::HttpStatus(status, body))
    }
}

/// The header every request carries the API key under.
pub fn api_header_key() -> (r: String)
    ensures
        r@ == "X-API-Key"@,
{
    "X-API-Key".to_owned()
}

/// The authority a client binds to when none is given.
pub fn default_authority() -> (r: String)
    ensures
        r@ == "127.0.0.1:8384"@,
{
    "127.0.0.1:8384".to_owned()
}

} // verus!
