//! What a request handler answers, and the failures that outside services report.

use vstd::prelude::*;
use crate::event_scheme::EventListResponse;
use crate::text::owned;

verus! {

/// An error answer: an HTTP status code and the text of the body.
#[derive(Debug, Clone, PartialEq, Eq)]
pub struct HttpError {
    pub status: u16,
    pub message: String,
}

/// A failure reported by an outside service (the database, the OAuth provider, Discord),
/// as its `Display` text and its `Debug` text.
#[derive(Debug, Clone, PartialEq, Eq)]
pub struct Failure {
    pub display: String,
    pub debug: String,
}

/// A successful answer.
#[derive(Debug, Clone, PartialEq, Eq)]
pub enum Reply {
    /// `200 OK` with a plain text body.
    Text(String),
    /// `302 Found` with this `Location`.
    Found(String),
    /// `201 Created` with an empty body.
    Created,
    /// `201 Created` with the identifier of the new record as a JSON string.
    CreatedId(u128),
    /// `200 OK` with this list as a JSON array.
    Events(Vec<EventListResponse>),
}

/// `401 Unauthorized` with the body `Unauthorized`.
pub open spec fn is_unauthorized(e: HttpError) -> bool {
    e.status == 401 && e.message@ == "Unauthorized"@
}

/// `500 Internal Server Error` with exactly this body.
pub open spec fn is_internal(e: HttpError, message: Seq<char>) -> bool {
    e.status == 500 && e.message@ == message
}

/// The answer to a request that carries no usable session.
pub fn unauthorized() -> (e: HttpError)
    ensures
        is_unauthorized(e),
{
    HttpError { status: 401, message: owned("Unauthorized") }
}

/// A `500 Internal Server Error` carrying `message`.
pub fn internal_error(message: String) -> (e: HttpError)
    ensures
        e.status == 500,
        e.message == message,
{
    HttpError { status: 500, message }
}

/// A `500 Internal Server Error` whose body is `prefix` followed by `detail`.
pub fn internal_error_with(prefix: &str, detail: &str) -> (e: HttpError)
    ensures
        is_internal(e, prefix@ + detail@),
{
    let mut message = owned(prefix);
    message.append(detail);
    HttpError { status: 500, message }
}

} // verus!
