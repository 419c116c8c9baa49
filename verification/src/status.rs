//! How the status of a response decides what becomes of it.

use crate::error::GyazoError;
use crate::json::Json;
use crate::records::{body_record, decodes};
use vstd::prelude::*;
use vstd::string::*;

verus! {

/// What a status code means to the client.
#[derive(Debug)]
pub enum StatusClass {
    /// The call succeeded and the body holds the record.
    Success,
    /// The call failed in one of the ways that have a name of their own.
    Failure(GyazoError),
    /// The call failed in some other way, which the body may describe.
    Unrecognized,
}

/// The statuses of a call that succeeded: 200, 201 and 204.
pub open spec fn is_success(status: u16) -> bool {
    status == 200 || status == 201 || status == 204
}

/// The error that has a name of its own, for the statuses that have one.
pub open spec fn named_failure(status: u16) -> Option<GyazoError> {
    if status == 400 {
        Some(GyazoError::BadRequest)
    } else if status == 401 {
        Some(GyazoError::Unauthorized)
    } else if status == 403 {
        Some(GyazoError::Forbidden)
    } else if status == 404 {
        Some(GyazoError::NotFound)
    } else if status == 422 {
        Some(GyazoError::UnprocessableEntity)
    } else if status == 429 {
        Some(GyazoError::RateLimitExceeded)
    } else if status == 500 {
        Some(GyazoError::InternalServerError)
    } else {
        None
    }
}

/// The class of a status.
pub open spec fn status_class(status: u16) -> StatusClass {
    if is_success(status) {
        StatusClass::Success
    } else {
        match named_failure(status) {
            Some(kind) => StatusClass::Failure(kind),
            None => StatusClass::Unrecognized,
        }
    }
}

/// What stands for the body of a response that could not be read.
pub open spec fn unknown_error() -> Seq<char> {
    "Unknown error"@
}

/// The error of a response whose status is neither a success nor a failure
/// with a name: it carries the status and the body, or a placeholder where
/// the body could not be read.
pub open spec fn is_api_error(error: GyazoError, status: u16, body: Result<String, String>) -> bool {
    error matches GyazoError::ApiError { status: held, message } && held == status && message@ == (
    match body {
        Ok(text) => text@,
        Err(_) => unknown_error(),
    })
}

/// Whether a response with the given status and body holds a record to be
/// read: its status is a success and its body was delivered. A body that
/// was read is `Ok`; one that the transport failed to deliver is `Err`, with
/// the transport's words.
pub open spec fn is_readable(status: u16, body: Result<String, String>) -> bool {
    is_success(status) && body is Ok
}

/// Whether `outcome` is the error that a response without a readable record
/// comes to. A failure with a name of its own ignores the body.
pub open spec fn is_rejection<T>(
    outcome: Result<T, GyazoError>,
    status: u16,
    body: Result<String, String>,
) -> bool {
    match status_class(status) {
        StatusClass::Success => body matches Err(cause) && outcome matches Err(
            GyazoError::RequestFailed(held),
        ) && held == cause,
        StatusClass::Failure(kind) => outcome matches Err(error) && error == kind,
        StatusClass::Unrecognized => outcome matches Err(error) && is_api_error(
            error,
            status,
            body,
        ),
    }
}

/// Whether `outcome` is what a response with the given status and body
/// comes to: the body itself where it is to be read, the error of the call
/// where it is not.
pub open spec fn settles(
    outcome: Result<String, GyazoError>,
    status: u16,
    body: Result<String, String>,
) -> bool {
    if is_readable(status, body) {
        outcome == Ok::<String, GyazoError>(body->Ok_0)
    } else {
        is_rejection(outcome, status, body)
    }
}

/// Whether `outcome` is the answer to a call whose response has the given
/// status and body, for a record that is read from JSON by `shape`.
pub open spec fn answers<T: View>(
    outcome: Result<T, GyazoError>,
    status: u16,
    body: Result<String, String>,
    shape: spec_fn(Json) -> Result<T::V, Seq<char>>,
) -> bool {
    if is_readable(status, body) {
        decodes(outcome, body_record(body->Ok_0@, shape))
    } else {
        is_rejection(outcome, status, body)
    }
}

/// Classifies a status code.
pub fn classify_status(status: u16) -> (class: StatusClass)
    ensures
        class == status_class(status),
{
    if status == 200 || status == 201 || status == 204 {
        StatusClass::Success
    } else if status == 400 {
        StatusClass::Failure(GyazoError::BadRequest)
    } else if status == 401 {
        StatusClass::Failure(GyazoError::Unauthorized)
    } else if status == 403 {
        StatusClass::Failure(GyazoError::Forbidden)
    } else if status == 404 {
        StatusClass::Failure(GyazoError::NotFound)
    } else if status == 422 {
        StatusClass::Failure(GyazoError::UnprocessableEntity)
    } else if status == 429 {
        StatusClass::Failure(GyazoError::RateLimitExceeded)
    } else if status == 500 {
        StatusClass::Failure(GyazoError::InternalServerError)
    } else {
        StatusClass::Unrecognized
    }
}

/// Decides what a response comes to: the body that is to be decoded, or the
/// error of the call.
pub fn response_body(status: u16, body: Result<String, String>) -> (outcome: Result<
    String,
    GyazoError,
>)
    ensures
        settles(outcome, status, body),
{
    match classify_status(status) {
        StatusClass::Success => match body {
            Ok(text) => Ok(text),
            Err(cause) => Err(GyazoError::RequestFailed(cause)),
        },
        StatusClass::Failure(kind) => Err(kind),
        StatusClass::Unrecognized => {
            let message = match body {
                Ok(text) => text,
                Err(_) => String::from_str("Unknown error"),
            };
            Err(GyazoError::ApiError { status, message })
        },
    }
}

/// A failure with a name of its own is reported whatever the body holds:
/// two responses with such a status come to the same error, which is the one
/// that the status names.
pub proof fn lemma_named_failure_ignores_body(
    status: u16,
    first_body: Result<String, String>,
    second_body: Result<String, String>,
    first: Result<String, GyazoError>,
    second: Result<String, GyazoError>,
)
    requires
        named_failure(status) is Some,
        settles(first, status, first_body),
        settles(second, status, second_body),
    ensures
        first == second,
        first == Err::<String, GyazoError>(named_failure(status)->Some_0),
{
}

/// A status that is neither a success nor a failure with a name comes to the
/// catch-all error, which carries that very status and the body as it was
/// read.
pub proof fn lemma_unrecognized_carries_status_and_body(
    status: u16,
    text: String,
    outcome: Result<String, GyazoError>,
)
    requires
        !is_success(status),
        named_failure(status) is None,
        settles(outcome, status, Ok(text)),
    ensures
        outcome matches Err(GyazoError::ApiError { status: held, message }) && held == status
            && message@ == text@,
{
}

/// Only a success ever hands a body on to be decoded.
pub proof fn lemma_only_success_is_read(
    status: u16,
    body: Result<String, String>,
    outcome: Result<String, GyazoError>,
)
    requires
        settles(outcome, status, body),
    ensures
        outcome is Ok <==> (is_success(status) && body is Ok),
{
}

} // verus!
