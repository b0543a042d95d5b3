//! The bodies of the event endpoints.

use vstd::prelude::*;

verus! {

/// The JSON body of a request that creates an event.
#[derive(Debug, Clone, PartialEq, Eq)]
pub struct Event {
    pub name: String,
    pub description: String,
    pub tags: Vec<String>,
    pub location: String,
    pub min_participants: u32,
    pub max_participants: u32,
    /// The day of the event, written `YYYY-MM-DD`.
    pub event_date: String,
}

/// One entry of the answer that lists events.
#[derive(Debug, Clone, PartialEq, Eq)]
pub struct EventListResponse {
    pub id: String,
    pub name: String,
    pub description: String,
}

} // verus!
