//! The errors that the client reports, and their messages.

use crate::text::{decimal, decimal_digits, followed_by};
use vstd::prelude::*;
use vstd::string::*;

verus! {

/// Everything that can go wrong with a call to the Gyazo API.
#[derive(Debug)]
pub enum GyazoError {
    /// The request could not be sent, or the response could not be read.
    /// Holds the transport's own description of the failure.
    RequestFailed(String),
    /// A successful response whose body is not the expected JSON record.
    JsonParseError(String),
    /// HTTP 400.
    BadRequest,
    /// HTTP 401.
    Unauthorized,
    /// HTTP 403.
    Forbidden,
    /// HTTP 404.
    NotFound,
    /// HTTP 422.
    UnprocessableEntity,
    /// HTTP 429.
    RateLimitExceeded,
    /// HTTP 500.
    InternalServerError,
    /// Any other status that is not a success, with the response body.
    ApiError { status: u16, message: String },
    /// A failure that fits no other kind.
    Other(String),
    /// An upload parameter that is not one of its permitted values.
    InvalidInput(String),
    /// A URL that does not point at Gyazo.
    InvalidUrl(String),
}

/// The reason phrase that HTTP assigns to a status code, where the code is
/// between 100 and 999 and has one.
pub uninterp spec fn canonical_reason(code: u16) -> Option<Seq<char>>;

/// Calls `StatusCode::from_u16` and `StatusCode::canonical_reason`.
///
/// Trusted: the result is the reason phrase of `code`, and there is none
/// where `code` has no registered phrase or is no status code at all, as
/// every number below 100 or above 999 is none.
#[verifier::external_body]
fn reason_phrase(code: u16) -> (phrase: Option<String>)
    ensures
        phrase matches Some(p) ==> canonical_reason(code) == Some(p@),
        phrase is None ==> canonical_reason(code) is None,
        code < 100 || code > 999 ==> phrase is None,
{
    match reqwest::StatusCode::from_u16(code) {
        Ok(status) => status.canonical_reason().map(String::from),
        Err(_) => None,
    }
}

/// How a status code is written in a message: the number, a space, and the
/// reason phrase or a placeholder for it.
pub open spec fn status_text(code: u16) -> Seq<char> {
    decimal_digits(code as nat) + " "@ + match canonical_reason(code) {
        Some(phrase) => phrase,
        None => "<unknown status code>"@,
    }
}

/// Writes a status code as `status_text` describes.
pub fn status_line(code: u16) -> (line: String)
    ensures
        line@ == status_text(code),
{
    let mut line = decimal(code);
    line.append(" ");
    match reason_phrase(code) {
        Some(phrase) => line.append(phrase.as_str()),
        None => line.append("<unknown status code>"),
    }
    line
}

impl GyazoError {
    /// The message of this error.
    pub open spec fn message(&self) -> Seq<char> {
        match self {
            GyazoError::RequestFailed(cause) => "HTTP request failed: "@ + cause@,
            GyazoError::JsonParseError(cause) => "Failed to parse JSON: "@ + cause@,
            GyazoError::BadRequest => "Bad Request: Invalid request parameters"@,
            GyazoError::Unauthorized => "Unauthorized: Authentication required"@,
            GyazoError::Forbidden => "Forbidden: Access denied"@,
            GyazoError::NotFound => "Not Found"@,
            GyazoError::UnprocessableEntity => "Unprocessable Entity: Server cannot process the request"@,
            GyazoError::RateLimitExceeded => "Too Many Requests: Rate limit exceeded"@,
            GyazoError::InternalServerError => "Internal Server Error: Unexpected error occurred"@,
            GyazoError::ApiError { status, message } => "API error: "@ + status_text(*status)
                + ", message: "@ + message@,
            GyazoError::Other(detail) => "Unexpected error: "@ + detail@,
            GyazoError::InvalidInput(detail) => "Invalid input: "@ + detail@,
            GyazoError::InvalidUrl(detail) => "Invalid url: "@ + detail@,
        }
    }

    /// Writes the message of this error.
    pub fn to_string(&self) -> (text: String)
        ensures
            text@ == self.message(),
    {
        match self {
            GyazoError::RequestFailed(cause) => followed_by(
                "HTTP request failed: ",
                cause.as_str(),
            ),
            GyazoError::JsonParseError(cause) => followed_by(
                "Failed to parse JSON: ",
                cause.as_str(),
            ),
            GyazoError::BadRequest => String::from_str("Bad Request: Invalid request parameters"),
            GyazoError::Unauthorized => String::from_str("Unauthorized: Authentication required"),
            GyazoError::Forbidden => String::from_str("Forbidden: Access denied"),
            GyazoError::NotFound => String::from_str("Not Found"),
            GyazoError::UnprocessableEntity => String::from_str(
                "Unprocessable Entity: Server cannot process the request",
            ),
            GyazoError::RateLimitExceeded => String::from_str(
                "Too Many Requests: Rate limit exceeded",
            ),
            GyazoError::InternalServerError => String::from_str(
                "Internal Server Error: Unexpected error occurred",
            ),
            GyazoError::ApiError { status, message } => {
                let mut text = String::from_str("API error: ");
                let line = status_line(*status);
                text.append(line.as_str());
                text.append(", message: ");
                text.append(message.as_str());
                text
            },
            GyazoError::Other(detail) => followed_by("Unexpected error: ", detail.as_str()),
            GyazoError::InvalidInput(detail) => followed_by("Invalid input: ", detail.as_str()),
            GyazoError::InvalidUrl(detail) => followed_by("Invalid url: ", detail.as_str()),
        }
    }
}

} // verus!
