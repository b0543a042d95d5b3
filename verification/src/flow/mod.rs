//! The request handlers that talk to the database, the OAuth provider and Discord.
//!
//! Each handler is a state machine: given what the last outside operation reported, it
//! decides the next operation (an [`Effect`]) or the answer. The caller performs the
//! effect and hands back what came of it (a [`Feedback`]), until the effect is an answer.

pub mod callback;
pub mod event_list;
pub mod events;
pub mod groups;
pub mod guard;

use vstd::prelude::*;
use crate::discord::DiscordUser;
use crate::entity::{event, group, member, session, user};
use crate::http::{internal_error_with, is_internal, is_unauthorized, unauthorized, Failure, HttpError, Reply};
use crate::text::owned;

verus! {

/// What an outside operation reported.
#[derive(Debug, PartialEq, Eq)]
pub enum Feedback {
    /// The request has been received; handlers that need no session start from this.
    Begin,
    /// The session identity of the request: none, its key, or the error reading it gave.
    Identity(Option<Result<String, HttpError>>),
    /// All groups were read; this many were found.
    GroupRows(Result<u64, Failure>),
    /// The session row whose key was asked for, if there is one.
    SessionRow(Result<Option<session::Model>, Failure>),
    /// A row was inserted; this is the identifier the database gave back.
    Inserted(Result<u128, Failure>),
    /// All events were read.
    EventRows(Result<Vec<event::Model>, Failure>),
    /// The OAuth provider exchanged the code for this access token.
    Token(Result<String, Failure>),
    /// Discord returned this profile.
    Profile(Result<DiscordUser, Failure>),
    /// The identity was attached to the browser session; this is the key read back.
    SignedIn(Result<String, HttpError>),
}

/// What the handler asks for next.
#[derive(Debug, PartialEq, Eq)]
pub enum Effect {
    /// Read all groups.
    ListGroups,
    /// Read the session row whose `session_id` is this key.
    FindSession(String),
    InsertGroup(group::Model),
    InsertMember(member::Model),
    InsertEvent(event::Model),
    /// Read all events.
    ListEvents,
    /// Exchange this authorization code for an access token at the OAuth provider.
    ExchangeCode(String),
    /// `GET` this URL with this `Authorization` header and read the profile it returns.
    FetchProfile { url: String, authorization: String },
    InsertUser(user::Model),
    /// Attach this identity to the browser session and read its key back.
    SignIn(String),
    /// Answer the request; the handler is done.
    Respond(Result<Reply, HttpError>),
    /// Give up without an answer (the request cannot be served); the handler is done.
    Abort(String),
}

/// The feedback did not belong to the state the handler was in.
pub open spec fn is_protocol_abort(effect: Effect) -> bool {
    effect matches Effect::Abort(m) && m@ == "unexpected feedback"@
}

/// The session key that an identity gives, or the error answer: `401 Unauthorized` when
/// the request has no identity, the identity's own error when it could not be read.
pub open spec fn is_key_outcome(
    identity: Option<Result<String, HttpError>>,
    r: Result<String, HttpError>,
) -> bool {
    match identity {
        None => r matches Err(e) && is_unauthorized(e),
        Some(Ok(key)) => r == Ok::<String, HttpError>(key),
        Some(Err(e)) => r == Err::<String, HttpError>(e),
    }
}

/// The user that a session lookup gives, or the error answer: `500` naming the database
/// failure, or `401 Unauthorized` when no session has that key.
pub open spec fn is_user_outcome(
    found: Result<Option<session::Model>, Failure>,
    r: Result<u128, HttpError>,
) -> bool {
    match found {
        Err(f) => r matches Err(e) && is_internal(e, "Failed to get session: "@ + f.debug@),
        Ok(None) => r matches Err(e) && is_unauthorized(e),
        Ok(Some(s)) => r == Ok::<u128, HttpError>(s.user_id),
    }
}

/// Reads the session key of a request that must be signed in.
pub fn session_key(identity: Option<Result<String, HttpError>>) -> (r: Result<String, HttpError>)
    ensures
        is_key_outcome(identity, r),
{
    match identity {
        Some(Ok(key)) => Ok(key),
        Some(Err(e)) => Err(e),
        None => Err(unauthorized()),
    }
}

/// Reads the user of a session lookup.
pub fn session_user(found: Result<Option<session::Model>, Failure>) -> (r: Result<u128, HttpError>)
    ensures
        is_user_outcome(found, r),
{
    match found {
        Ok(Some(s)) => Ok(s.user_id),
        Ok(None) => Err(unauthorized()),
        Err(f) => Err(internal_error_with("Failed to get session: ", f.debug.as_str())),
    }
}

/// The abort for a feedback that does not belong to the handler's state.
pub fn protocol_abort() -> (effect: Effect)
    ensures
        is_protocol_abort(effect),
{
    Effect::Abort(owned("unexpected feedback"))
}

} // verus!
