//! `GET /groups/{group_id}/events`: a signed-in user lists the events.

use vstd::prelude::*;
use crate::entity::event;
use crate::event_scheme::EventListResponse;
use crate::flow::{
    is_key_outcome, is_protocol_abort, is_user_outcome, protocol_abort, session_key,
    session_user, Effect, Feedback,
};
use crate::http::{internal_error_with, is_internal, HttpError, Reply};
use crate::ids::{uuid_string, uuid_text, uuid_text_is_injective};
use crate::text::owned;

verus! {

/// Where the listing handler stands.
#[derive(Debug, Clone, PartialEq, Eq)]
pub enum EventListFlow {
    /// Waiting for the identity of the request.
    Start,
    /// Waiting for the session row.
    Session,
    /// Waiting for the events.
    Listed,
    Done,
}

/// `entry` shows `row`: the identifier as hyphenated text, the name `Test`, and the
/// description.
pub open spec fn is_entry_of(entry: EventListResponse, row: event::Model) -> bool {
    &&& entry.id@ == uuid_text(row.id)
    &&& entry.name@ == "Test"@
    &&& entry.description == row.description
}

/// `entries` shows `rows`, one entry per row, in the same order.
pub open spec fn is_listing_of(entries: Seq<EventListResponse>, rows: Seq<event::Model>) -> bool {
    &&& entries.len() == rows.len()
    &&& forall|i: int| 0 <= i < rows.len() ==> is_entry_of(#[trigger] entries[i], rows[i])
}

/// The entry that shows one event row.
pub fn entry_of(row: &event::Model) -> (entry: EventListResponse)
    ensures
        is_entry_of(entry, *row),
{
    EventListResponse { id: uuid_string(row.id), name: owned("Test"), description: row.description.clone() }
}

/// The answer body that lists `rows`.
pub fn listing_of(rows: &Vec<event::Model>) -> (entries: Vec<EventListResponse>)
    ensures
        is_listing_of(entries@, rows@),
{
    let mut entries: Vec<EventListResponse> = Vec::new();
    let mut i: usize = 0;
    while i < rows.len()
        invariant
            i <= rows.len(),
            entries@.len() == i,
            forall|j: int| 0 <= j < i ==> is_entry_of(#[trigger] entries@[j], rows@[j]),
        decreases rows.len() - i,
    {
        entries.push(entry_of(&rows[i]));
        i = i + 1;
    }
    entries
}

impl EventListFlow {
    pub fn new() -> (f: EventListFlow)
        ensures
            f is Start,
    {
        EventListFlow::Start
    }

    /// How many outside operations the handler may still ask for, at most.
    pub open spec fn rank(self) -> nat {
        match self {
            EventListFlow::Start => 3,
            EventListFlow::Session => 2,
            EventListFlow::Listed => 1,
            EventListFlow::Done => 0,
        }
    }

    /// One step of the handler: from `self`, on `fb`, it moves to `next` and asks for
    /// `effect`.
    pub open spec fn steps_to(self, fb: Feedback, next: EventListFlow, effect: Effect) -> bool {
        match (self, fb) {
            (EventListFlow::Start, Feedback::Identity(identity)) => match identity {
                Some(Ok(key)) => next is Session && effect == Effect::FindSession(key),
                _ => next is Done && exists|e: HttpError|
                    is_key_outcome(identity, Err(e)) && effect == Effect::Respond(Err(e)),
            },
            (EventListFlow::Session, Feedback::SessionRow(found)) => match found {
                Ok(Some(_)) => next is Listed && effect is ListEvents,
                _ => next is Done && exists|e: HttpError|
                    is_user_outcome(found, Err(e)) && effect == Effect::Respond(Err(e)),
            },
            (EventListFlow::Listed, Feedback::EventRows(rows)) => {
                &&& next is Done
                &&& match rows {
                    Ok(rows) => effect matches Effect::Respond(Ok(Reply::Events(entries)))
                        && is_listing_of(entries@, rows@),
                    Err(f) => effect matches Effect::Respond(Err(e))
                        && is_internal(e, "Failed to get events: "@ + f.debug@),
                }
            },
            _ => next is Done && is_protocol_abort(effect),
        }
    }

    /// Takes one step (see `steps_to`).
    pub fn step(self, fb: Feedback) -> (r: (EventListFlow, Effect))
        ensures
            self.steps_to(fb, r.0, r.1),
    {
        match self {
            EventListFlow::Start => match fb {
                Feedback::Identity(identity) => match session_key(identity) {
                    Ok(key) => (EventListFlow::Session, Effect::FindSession(key)),
                    Err(e) => (EventListFlow::Done, Effect::Respond(Err(e))),
                },
                _ => (EventListFlow::Done, protocol_abort()),
            },
            EventListFlow::Session => match fb {
                Feedback::SessionRow(found) => match session_user(found) {
                    Ok(_) => (EventListFlow::Listed, Effect::ListEvents),
                    Err(e) => (EventListFlow::Done, Effect::Respond(Err(e))),
                },
                _ => (EventListFlow::Done, protocol_abort()),
            },
            EventListFlow::Listed => match fb {
                Feedback::EventRows(Ok(rows)) => (
                    EventListFlow::Done,
                    Effect::Respond(Ok(Reply::Events(listing_of(&rows)))),
                ),
                Feedback::EventRows(Err(f)) => (
                    EventListFlow::Done,
                    Effect::Respond(Err(internal_error_with("Failed to get events: ", f.debug.as_str()))),
                ),
                _ => (EventListFlow::Done, protocol_abort()),
            },
            EventListFlow::Done => (EventListFlow::Done, protocol_abort()),
        }
    }
}

/// Every step of the listing handler either ends it with an answer or an abort, or brings
/// it closer to its end.
pub proof fn event_list_step_progresses(f: EventListFlow, fb: Feedback, next: EventListFlow, effect: Effect)
    requires
        f.steps_to(fb, next, effect),
    ensures
        f is Done || next.rank() < f.rank(),
        next is Done <==> (effect is Respond || effect is Abort),
{
}

/// A signed-in user sees every event, in the order the database gave them, each with its
/// identifier, the name `Test` and its description.
pub proof fn listing_shows_every_event(
    key: String,
    session: crate::entity::session::Model,
    rows: Vec<event::Model>,
    flows: Seq<EventListFlow>,
    effects: Seq<Effect>,
)
    requires
        flows.len() == 3,
        effects.len() == 3,
        EventListFlow::Start.steps_to(Feedback::Identity(Some(Ok(key))), flows[0], effects[0]),
        flows[0].steps_to(Feedback::SessionRow(Ok(Some(session))), flows[1], effects[1]),
        flows[1].steps_to(Feedback::EventRows(Ok(rows)), flows[2], effects[2]),
    ensures
        effects[0] == Effect::FindSession(key),
        effects[1] is ListEvents,
        effects[2] matches Effect::Respond(Ok(Reply::Events(entries))) && is_listing_of(entries@, rows@),
        flows[2] is Done,
        effects[2] matches Effect::Respond(Ok(Reply::Events(entries))) && entries@.len() == rows@.len()
            && forall|i: int| 0 <= i < rows@.len() ==> {
                &&& (#[trigger] entries@[i]).description == rows@[i].description
                &&& entries@[i].name@ == "Test"@
                &&& entries@[i].id@ == uuid_text(rows@[i].id)
            },
{
}

/// Events with distinct identifiers are listed with distinct identifier texts.
pub proof fn listed_ids_tell_events_apart(entries: Seq<EventListResponse>, rows: Seq<event::Model>, i: int, j: int)
    requires
        is_listing_of(entries, rows),
        0 <= i < rows.len(),
        0 <= j < rows.len(),
        rows[i].id != rows[j].id,
    ensures
        entries[i].id@ != entries[j].id@,
{
    assert(is_entry_of(entries[i], rows[i]));
    assert(is_entry_of(entries[j], rows[j]));
    if entries[i].id@ == entries[j].id@ {
        uuid_text_is_injective(rows[i].id, rows[j].id);
    }
}


/// An entry shows its row's description, the name `Test` and the row's identifier text,
/// whatever the row's other fields (author, day, references).
pub proof fn entry_shows_the_description(entry: EventListResponse, row: event::Model)
    requires
        is_entry_of(entry, row),
    ensures
        entry.description == row.description,
        entry.description@ == row.description@,
        entry.name@ == "Test"@,
        entry.id@ == uuid_text(row.id),
{
}

/// A failed read of the session or of the events is answered `500 Internal Server Error` with
/// `Failed to get session: ` or `Failed to get events: ` and the failure's `Debug` text.
pub proof fn event_list_failure_is_reported(
    f: crate::http::Failure,
    next: EventListFlow,
    effect: Effect,
    at_session: (EventListFlow, Effect),
)
    requires
        EventListFlow::Listed.steps_to(Feedback::EventRows(Err(f)), next, effect),
        EventListFlow::Session.steps_to(Feedback::SessionRow(Err(f)), at_session.0, at_session.1),
    ensures
        effect matches Effect::Respond(Err(e)) && e.status == 500 && e.message@ == "Failed to get events: "@ + f.debug@,
        next is Done,
        at_session.1 matches Effect::Respond(Err(e)) && e.status == 500 && e.message@ == "Failed to get session: "@ + f.debug@,
        at_session.0 is Done,
{
}

} // verus!
