//! What the handlers that need a signed-in user have in common.

use vstd::prelude::*;
use crate::event_scheme::Event;
use crate::flow::event_list::EventListFlow;
use crate::flow::events::EventsFlow;
use crate::flow::groups::GroupsFlow;
use crate::flow::{Effect, Feedback};
use crate::group_scheme::Group;
use crate::http::{is_unauthorized, HttpError};

verus! {

/// The handler refuses the request with `401 Unauthorized` and asks for nothing else.
pub open spec fn refused(effect: Effect) -> bool {
    effect matches Effect::Respond(Err(e)) && is_unauthorized(e)
}

/// A request without an identity is refused with `401 Unauthorized` by every handler
/// that needs a signed-in user, before any database operation.
pub proof fn anonymous_requests_are_refused(
    group: Group,
    event: Event,
    id: u128,
    groups: (GroupsFlow, Effect),
    events: (EventsFlow, Effect),
    listing: (EventListFlow, Effect),
)
    requires
        (GroupsFlow::Start { body: group }).steps_to(Feedback::Identity(None), id, groups.0, groups.1),
        (EventsFlow::Start { body: event }).steps_to(Feedback::Identity(None), id, events.0, events.1),
        EventListFlow::Start.steps_to(Feedback::Identity(None), listing.0, listing.1),
    ensures
        refused(groups.1) && groups.0 is Done,
        refused(events.1) && events.0 is Done,
        refused(listing.1) && listing.0 is Done,
        groups.1 matches Effect::Respond(Err(e)) && e.status == 401 && e.message@ == "Unauthorized"@,
        events.1 matches Effect::Respond(Err(e)) && e.status == 401 && e.message@ == "Unauthorized"@,
        listing.1 matches Effect::Respond(Err(e)) && e.status == 401 && e.message@ == "Unauthorized"@,
{
}

/// A request whose session key names no session is refused with `401 Unauthorized` by
/// every handler that needs a signed-in user, and nothing is written.
pub proof fn unknown_sessions_are_refused(
    group: Group,
    event: Event,
    id: u128,
    groups: (GroupsFlow, Effect),
    events: (EventsFlow, Effect),
    listing: (EventListFlow, Effect),
)
    requires
        (GroupsFlow::Session { body: group }).steps_to(Feedback::SessionRow(Ok(None)), id, groups.0, groups.1),
        (EventsFlow::Session { body: event }).steps_to(Feedback::SessionRow(Ok(None)), id, events.0, events.1),
        EventListFlow::Session.steps_to(Feedback::SessionRow(Ok(None)), listing.0, listing.1),
    ensures
        refused(groups.1) && groups.0 is Done,
        refused(events.1) && events.0 is Done,
        refused(listing.1) && listing.0 is Done,
        groups.1 matches Effect::Respond(Err(e)) && e.status == 401 && e.message@ == "Unauthorized"@,
        events.1 matches Effect::Respond(Err(e)) && e.status == 401 && e.message@ == "Unauthorized"@,
        listing.1 matches Effect::Respond(Err(e)) && e.status == 401 && e.message@ == "Unauthorized"@,
{
}


/// An identity that could not be read is answered with its own error, unchanged, by
/// every handler that needs a signed-in user, before any database operation.
pub proof fn identity_errors_are_passed_on(
    group: Group,
    event: Event,
    error: HttpError,
    id: u128,
    groups: (GroupsFlow, Effect),
    events: (EventsFlow, Effect),
    listing: (EventListFlow, Effect),
)
    requires
        (GroupsFlow::Start { body: group }).steps_to(Feedback::Identity(Some(Err(error))), id, groups.0, groups.1),
        (EventsFlow::Start { body: event }).steps_to(Feedback::Identity(Some(Err(error))), id, events.0, events.1),
        EventListFlow::Start.steps_to(Feedback::Identity(Some(Err(error))), listing.0, listing.1),
    ensures
        groups.1 == Effect::Respond(Err(error)) && groups.0 is Done,
        events.1 == Effect::Respond(Err(error)) && events.0 is Done,
        listing.1 == Effect::Respond(Err(error)) && listing.0 is Done,
{
}

} // verus!
