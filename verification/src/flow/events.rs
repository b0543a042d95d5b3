//! `POST /groups/{group_id}/events`: a signed-in user records an event.

use vstd::prelude::*;
use crate::ids::{fresh_id, is_v7};
use crate::calendar::{chrono_parse_date, parse_event_date, parsed_event_date, CalendarDate};
use crate::entity::event;
use crate::event_scheme::Event;
use crate::flow::{
    is_key_outcome, is_protocol_abort, is_user_outcome, protocol_abort, session_key,
    session_user, Effect, Feedback,
};
use crate::http::{internal_error_with, is_internal, HttpError, Reply};
use crate::text::owned;

verus! {

/// Where the event handler stands.
#[derive(Debug, Clone, PartialEq, Eq)]
pub enum EventsFlow {
    /// Waiting for the identity of the request.
    Start { body: Event },
    /// Waiting for the session row.
    Session { body: Event },
    /// Waiting for the new event row.
    Inserted,
    Done,
}

/// The event row that `author` records from a request body, on the day `date`, with
/// identifier `id`: only the description and the day of the body are kept.
pub open spec fn event_row(body: Event, date: CalendarDate, author: u128, id: u128) -> event::Model {
    event::Model {
        id,
        description: body.description,
        event_date: date,
        comment_id: None,
        tag_id: None,
        reaction_id: None,
        author_id: Some(author),
    }
}

/// The day `date` is the one chrono reads in `text`.
pub open spec fn is_day_of(text: Seq<char>, date: CalendarDate) -> bool {
    parsed_event_date(text) == Some((date.year, date.month, date.day))
}

/// The insert of the event row that `author` records from a request body on the day
/// `date`, with identifier `id`.
pub fn insert_event(body: Event, date: CalendarDate, author: u128, id: u128) -> (effect: Effect)
    ensures
        effect == Effect::InsertEvent(event_row(body, date, author, id)),
{
    Effect::InsertEvent(
        event::Model {
            id,
            description: body.description,
            event_date: date,
            comment_id: None,
            tag_id: None,
            reaction_id: None,
            author_id: Some(author),
        },
    )
}

/// The abort that ends a request whose day is not a date.
pub open spec fn is_bad_day_abort(effect: Effect) -> bool {
    effect matches Effect::Abort(m) && m@ == "event_date is not a YYYY-MM-DD date"@
}

impl EventsFlow {
    pub fn new(body: Event) -> (f: EventsFlow)
        ensures
            f == (EventsFlow::Start { body }),
    {
        EventsFlow::Start { body }
    }

    /// How many outside operations the handler may still ask for, at most.
    pub open spec fn rank(self) -> nat {
        match self {
            EventsFlow::Start { .. } => 3,
            EventsFlow::Session { .. } => 2,
            EventsFlow::Inserted => 1,
            EventsFlow::Done => 0,
        }
    }

    /// A found session leads to the insert of the event, which needs a day chrono can read
    /// in the body (the request cannot be served otherwise).
    pub open spec fn reads_a_day(self, fb: Feedback) -> bool {
        match (self, fb) {
            (EventsFlow::Session { body }, Feedback::SessionRow(Ok(Some(_)))) => parsed_event_date(body.event_date@) is Some,
            _ => true,
        }
    }

    /// One step of the handler: from `self`, on `fb`, with `id` as the identifier for a
    /// row it creates, it moves to `next` and asks for `effect`.
    pub open spec fn steps_to(self, fb: Feedback, id: u128, next: EventsFlow, effect: Effect) -> bool {
        match (self, fb) {
            (EventsFlow::Start { body }, Feedback::Identity(identity)) => match identity {
                Some(Ok(key)) => next == (EventsFlow::Session { body }) && effect == Effect::FindSession(key),
                _ => next is Done && exists|e: HttpError|
                    is_key_outcome(identity, Err(e)) && effect == Effect::Respond(Err(e)),
            },
            (EventsFlow::Session { body }, Feedback::SessionRow(found)) => match found {
                Ok(Some(s)) => {
                    &&& next is Inserted
                    &&& exists|d: CalendarDate|
                        is_day_of(body.event_date@, d) && effect == Effect::InsertEvent(event_row(body, d, s.user_id, id))
                },
                _ => next is Done && exists|e: HttpError|
                    is_user_outcome(found, Err(e)) && effect == Effect::Respond(Err(e)),
            },
            (EventsFlow::Inserted, Feedback::Inserted(r)) => match r {
                Ok(_) => next is Done && effect == Effect::Respond(Ok(Reply::Created)),
                Err(f) => {
                    &&& next is Done
                    &&& effect matches Effect::Respond(Err(e))
                        && is_internal(e, "Failed to insert event: "@ + f.debug@)
                },
            },
            _ => next is Done && is_protocol_abort(effect),
        }
    }

    /// Takes one step with a new version 7 identifier for the row it may create; where
    /// the session is found but chrono cannot read the day of the body, gives up with an
    /// abort instead.
    pub fn advance(self, fb: Feedback) -> (r: (EventsFlow, Effect))
        ensures
            self.reads_a_day(fb) ==> exists|id: u128| is_v7(id) && self.steps_to(fb, id, r.0, r.1),
            !self.reads_a_day(fb) ==> r.0 is Done && is_bad_day_abort(r.1),
    {
        if let EventsFlow::Session { body } = &self {
            if let Feedback::SessionRow(Ok(Some(_))) = &fb {
                if parse_event_date(body.event_date.as_str()).is_none() {
                    return (EventsFlow::Done, Effect::Abort(owned("event_date is not a YYYY-MM-DD date")));
                }
            }
        }
        let id = fresh_id();
        self.step(fb, id)
    }

    /// Takes one step (see `steps_to`).
    pub fn step(self, fb: Feedback, id: u128) -> (r: (EventsFlow, Effect))
        requires
            self.reads_a_day(fb),
        ensures
            self.steps_to(fb, id, r.0, r.1),
    {
        match self {
            EventsFlow::Start { body } => match fb {
                Feedback::Identity(identity) => match session_key(identity) {
                    Ok(key) => (EventsFlow::Session { body }, Effect::FindSession(key)),
                    Err(e) => (EventsFlow::Done, Effect::Respond(Err(e))),
                },
                _ => (EventsFlow::Done, protocol_abort()),
            },
            EventsFlow::Session { body } => match fb {
                Feedback::SessionRow(found) => match session_user(found) {
                    Ok(author) => match parse_event_date(body.event_date.as_str()) {
                        Some(date) => {
                            let ghost request = body;
                            let effect = insert_event(body, date, author, id);
                            assert(is_day_of(request.event_date@, date));
                            (EventsFlow::Inserted, effect)
                        },
                        None => (EventsFlow::Done, protocol_abort()),
                    },
                    Err(e) => (EventsFlow::Done, Effect::Respond(Err(e))),
                },
                _ => (EventsFlow::Done, protocol_abort()),
            },
            EventsFlow::Inserted => match fb {
                Feedback::Inserted(Ok(_)) => (EventsFlow::Done, Effect::Respond(Ok(Reply::Created))),
                Feedback::Inserted(Err(f)) => (
                    EventsFlow::Done,
                    Effect::Respond(Err(internal_error_with("Failed to insert event: ", f.debug.as_str()))),
                ),
                _ => (EventsFlow::Done, protocol_abort()),
            },
            EventsFlow::Done => (EventsFlow::Done, protocol_abort()),
        }
    }
}

/// Every step of the event handler either ends it, with an answer or an abort, or brings
/// it closer to its end.
pub proof fn events_step_progresses(f: EventsFlow, fb: Feedback, id: u128, next: EventsFlow, effect: Effect)
    requires
        f.steps_to(fb, id, next, effect),
    ensures
        f is Done || next.rank() < f.rank(),
        next is Done <==> (effect is Respond || effect is Abort),
{
}

/// An event is recorded under the user of the request's session, on the day chrono reads
/// in the body: along a request whose session is found, whose day is a date and whose
/// insert succeeds, the handler inserts exactly that row and answers `201 Created`.
pub proof fn event_recorded_for_author(
    body: Event,
    key: String,
    session: crate::entity::session::Model,
    inserted: u128,
    ids: Seq<u128>,
    flows: Seq<EventsFlow>,
    effects: Seq<Effect>,
)
    requires
        ids.len() == 3,
        flows.len() == 3,
        effects.len() == 3,
        parsed_event_date(body.event_date@) is Some,
        (EventsFlow::Start { body }).steps_to(Feedback::Identity(Some(Ok(key))), ids[0], flows[0], effects[0]),
        flows[0].steps_to(Feedback::SessionRow(Ok(Some(session))), ids[1], flows[1], effects[1]),
        flows[1].steps_to(Feedback::Inserted(Ok(inserted)), ids[2], flows[2], effects[2]),
    ensures
        effects[0] == Effect::FindSession(key),
        exists|d: CalendarDate|
            is_day_of(body.event_date@, d) && effects[1] == Effect::InsertEvent(event_row(body, d, session.user_id, ids[1])),
        effects[2] == Effect::Respond(Ok(Reply::Created)),
        flows[2] is Done,
        effects[1] matches Effect::InsertEvent(r)
            && r.id == ids[1]
            && r.description == body.description
            && chrono_parse_date(body.event_date@, "%Y-%m-%d"@) == Some((r.event_date.year, r.event_date.month, r.event_date.day))
            && r.author_id == Some(session.user_id)
            && r.comment_id is None && r.tag_id is None && r.reaction_id is None,
{
}


/// The event row keeps exactly the day it is given, the body's description, the author
/// and the identifier, and refers to nothing else; for every input.
pub proof fn event_row_keeps_the_day(body: Event, date: CalendarDate, author: u128, id: u128)
    ensures
        event_row(body, date, author, id).event_date == date,
        event_row(body, date, author, id).event_date.year == date.year,
        event_row(body, date, author, id).event_date.month == date.month,
        event_row(body, date, author, id).event_date.day == date.day,
        event_row(body, date, author, id).description == body.description,
        event_row(body, date, author, id).author_id == Some(author),
        event_row(body, date, author, id).id == id,
        event_row(body, date, author, id).comment_id is None,
        event_row(body, date, author, id).tag_id is None,
        event_row(body, date, author, id).reaction_id is None,
{
}

/// From a found session with a readable day, whatever the body, the user and the
/// identifier, the inserted row carries the year, month and day chrono reads in the body
/// with `%Y-%m-%d`, the body's description and the session's user as author.
pub proof fn inserted_event_has_the_posted_day(
    body: Event,
    session: crate::entity::session::Model,
    id: u128,
    next: EventsFlow,
    effect: Effect,
)
    requires
        (EventsFlow::Session { body }).steps_to(Feedback::SessionRow(Ok(Some(session))), id, next, effect),
    ensures
        effect matches Effect::InsertEvent(r)
            && chrono_parse_date(body.event_date@, "%Y-%m-%d"@) == Some((r.event_date.year, r.event_date.month, r.event_date.day))
            && r.description == body.description
            && r.author_id == Some(session.user_id)
            && r.id == id,
        next is Inserted,
{
}

/// Every failure the event handler meets is answered `500 Internal Server Error` with
/// `Failed to ` and the operation, `: ` and the failure's `Debug` text.
pub proof fn event_failures_are_reported(
    body: Event,
    f: crate::http::Failure,
    id: u128,
    a: (EventsFlow, Effect),
    b: (EventsFlow, Effect),
)
    requires
        (EventsFlow::Session { body }).steps_to(Feedback::SessionRow(Err(f)), id, a.0, a.1),
        EventsFlow::Inserted.steps_to(Feedback::Inserted(Err(f)), id, b.0, b.1),
    ensures
        a.1 matches Effect::Respond(Err(e)) && e.status == 500 && e.message@ == "Failed to get session: "@ + f.debug@,
        b.1 matches Effect::Respond(Err(e)) && e.status == 500 && e.message@ == "Failed to insert event: "@ + f.debug@,
        a.0 is Done && b.0 is Done,
{
}

} // verus!
