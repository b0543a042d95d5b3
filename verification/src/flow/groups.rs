//! `POST /groups`: a signed-in user creates a group and becomes its administrator.

use vstd::prelude::*;
use crate::ids::{fresh_id, is_v7};
use crate::entity::{group, member};
use crate::flow::{
    is_key_outcome, is_protocol_abort, is_user_outcome, protocol_abort, session_key,
    session_user, Effect, Feedback,
};
use crate::group_scheme::Group;
use crate::http::{internal_error_with, is_internal, HttpError, Reply};

verus! {

/// Where the group handler stands.
#[derive(Debug, Clone, PartialEq, Eq)]
pub enum GroupsFlow {
    /// Waiting for the identity of the request.
    Start { body: Group },
    /// Waiting for the first read of all groups.
    Listed { body: Group, key: String },
    /// Waiting for the session row.
    Session { body: Group },
    /// Waiting for the new group row.
    GroupInserted { user_id: u128 },
    /// Waiting for the new member row.
    MemberInserted { group_id: u128 },
    /// Waiting for the last read of all groups.
    Relisted { group_id: u128 },
    Done,
}

/// The group row a request body describes, with identifier `id`.
pub open spec fn group_row(body: Group, id: u128) -> group::Model {
    group::Model { id, name: body.name, icon_path: body.icon_path, theme: body.theme }
}

/// The member row that makes `user_id` the administrator of `group_id`.
pub open spec fn admin_row(user_id: u128, group_id: u128, id: u128) -> member::Model {
    member::Model { id, user_id, is_admin: true, group_id }
}

/// The handler answers with `error` and is done.
pub open spec fn fails_with(next: GroupsFlow, effect: Effect, error: spec_fn(HttpError) -> bool) -> bool {
    &&& next is Done
    &&& effect matches Effect::Respond(Err(e)) && error(e)
}

impl GroupsFlow {
    pub fn new(body: Group) -> (f: GroupsFlow)
        ensures
            f == (GroupsFlow::Start { body }),
    {
        GroupsFlow::Start { body }
    }

    /// How many outside operations the handler may still ask for, at most.
    pub open spec fn rank(self) -> nat {
        match self {
            GroupsFlow::Start { .. } => 6,
            GroupsFlow::Listed { .. } => 5,
            GroupsFlow::Session { .. } => 4,
            GroupsFlow::GroupInserted { .. } => 3,
            GroupsFlow::MemberInserted { .. } => 2,
            GroupsFlow::Relisted { .. } => 1,
            GroupsFlow::Done => 0,
        }
    }

    /// One step of the handler: from `self`, on `fb`, with `id` as the identifier for a
    /// row it creates, it moves to `next` and asks for `effect`.
    pub open spec fn steps_to(self, fb: Feedback, id: u128, next: GroupsFlow, effect: Effect) -> bool {
        match (self, fb) {
            (GroupsFlow::Start { body }, Feedback::Identity(identity)) => match identity {
                Some(Ok(key)) => next == (GroupsFlow::Listed { body, key }) && effect is ListGroups,
                _ => next is Done && exists|e: HttpError|
                    is_key_outcome(identity, Err(e)) && effect == Effect::Respond(Err(e)),
            },
            (GroupsFlow::Listed { body, key }, Feedback::GroupRows(rows)) => match rows {
                Ok(_) => next == (GroupsFlow::Session { body }) && effect == Effect::FindSession(key),
                Err(f) => fails_with(next, effect, |e: HttpError| is_internal(e, "Failed to get groups: "@ + f.debug@)),
            },
            (GroupsFlow::Session { body }, Feedback::SessionRow(found)) => match found {
                Ok(Some(s)) => next == (GroupsFlow::GroupInserted { user_id: s.user_id })
                    && effect == Effect::InsertGroup(group_row(body, id)),
                _ => next is Done && exists|e: HttpError|
                    is_user_outcome(found, Err(e)) && effect == Effect::Respond(Err(e)),
            },
            (GroupsFlow::GroupInserted { user_id }, Feedback::Inserted(r)) => match r {
                Ok(group_id) => next == (GroupsFlow::MemberInserted { group_id })
                    && effect == Effect::InsertMember(admin_row(user_id, group_id, id)),
                Err(f) => fails_with(next, effect, |e: HttpError| is_internal(e, "Failed to insert group: "@ + f.debug@)),
            },
            (GroupsFlow::MemberInserted { group_id }, Feedback::Inserted(r)) => match r {
                Ok(_) => next == (GroupsFlow::Relisted { group_id }) && effect is ListGroups,
                Err(f) => fails_with(next, effect, |e: HttpError| is_internal(e, "Failed to insert member: "@ + f.debug@)),
            },
            (GroupsFlow::Relisted { group_id }, Feedback::GroupRows(rows)) => match rows {
                Ok(_) => next is Done && effect == Effect::Respond(Ok(Reply::CreatedId(group_id))),
                Err(f) => fails_with(next, effect, |e: HttpError| is_internal(e, "Failed to get groups: "@ + f.debug@)),
            },
            _ => next is Done && is_protocol_abort(effect),
        }
    }

    /// Takes one step with a new version 7 identifier for the row it may create.
    pub fn advance(self, fb: Feedback) -> (r: (GroupsFlow, Effect))
        ensures
            exists|id: u128| is_v7(id) && self.steps_to(fb, id, r.0, r.1),
    {
        let id = fresh_id();
        self.step(fb, id)
    }

    /// Takes one step (see `steps_to`).
    pub fn step(self, fb: Feedback, id: u128) -> (r: (GroupsFlow, Effect))
        ensures
            self.steps_to(fb, id, r.0, r.1),
    {
        match self {
            GroupsFlow::Start { body } => match fb {
                Feedback::Identity(identity) => match session_key(identity) {
                    Ok(key) => (GroupsFlow::Listed { body, key }, Effect::ListGroups),
                    Err(e) => (GroupsFlow::Done, Effect::Respond(Err(e))),
                },
                _ => (GroupsFlow::Done, protocol_abort()),
            },
            GroupsFlow::Listed { body, key } => match fb {
                Feedback::GroupRows(Ok(_)) => (GroupsFlow::Session { body }, Effect::FindSession(key)),
                Feedback::GroupRows(Err(f)) => (
                    GroupsFlow::Done,
                    Effect::Respond(Err(internal_error_with("Failed to get groups: ", f.debug.as_str()))),
                ),
                _ => (GroupsFlow::Done, protocol_abort()),
            },
            GroupsFlow::Session { body } => match fb {
                Feedback::SessionRow(found) => match session_user(found) {
                    Ok(user_id) => {
                        let row = group::Model {
                            id,
                            name: body.name,
                            icon_path: body.icon_path,
                            theme: body.theme,
                        };
                        (GroupsFlow::GroupInserted { user_id }, Effect::InsertGroup(row))
                    },
                    Err(e) => (GroupsFlow::Done, Effect::Respond(Err(e))),
                },
                _ => (GroupsFlow::Done, protocol_abort()),
            },
            GroupsFlow::GroupInserted { user_id } => match fb {
                Feedback::Inserted(Ok(group_id)) => {
                    let row = member::Model { id, user_id, is_admin: true, group_id };
                    (GroupsFlow::MemberInserted { group_id }, Effect::InsertMember(row))
                },
                Feedback::Inserted(Err(f)) => (
                    GroupsFlow::Done,
                    Effect::Respond(Err(internal_error_with("Failed to insert group: ", f.debug.as_str()))),
                ),
                _ => (GroupsFlow::Done, protocol_abort()),
            },
            GroupsFlow::MemberInserted { group_id } => match fb {
                Feedback::Inserted(Ok(_)) => (GroupsFlow::Relisted { group_id }, Effect::ListGroups),
                Feedback::Inserted(Err(f)) => (
                    GroupsFlow::Done,
                    Effect::Respond(Err(internal_error_with("Failed to insert member: ", f.debug.as_str()))),
                ),
                _ => (GroupsFlow::Done, protocol_abort()),
            },
            GroupsFlow::Relisted { group_id } => match fb {
                Feedback::GroupRows(Ok(_)) => (GroupsFlow::Done, Effect::Respond(Ok(Reply::CreatedId(group_id)))),
                Feedback::GroupRows(Err(f)) => (
                    GroupsFlow::Done,
                    Effect::Respond(Err(internal_error_with("Failed to get groups: ", f.debug.as_str()))),
                ),
                _ => (GroupsFlow::Done, protocol_abort()),
            },
            GroupsFlow::Done => (GroupsFlow::Done, protocol_abort()),
        }
    }
}

/// Every step of the group handler either ends it, with an answer or an abort, or brings
/// it closer to its end.
pub proof fn groups_step_progresses(f: GroupsFlow, fb: Feedback, id: u128, next: GroupsFlow, effect: Effect)
    requires
        f.steps_to(fb, id, next, effect),
    ensures
        f is Done || next.rank() < f.rank(),
        next is Done <==> (effect is Respond || effect is Abort),
{
}

/// A signed-in user who creates a group becomes its administrator: along a request where
/// every outside operation succeeds, the handler reads the session of the request's key,
/// inserts the group the body describes, then a member row that makes the session's user
/// administrator of the group the database created, and answers `201 Created` with that
/// group's identifier.
pub proof fn creator_becomes_admin(
    body: Group,
    key: String,
    found: u64,
    session: crate::entity::session::Model,
    group_id: u128,
    member_id: u128,
    found_after: u64,
    ids: Seq<u128>,
    flows: Seq<GroupsFlow>,
    effects: Seq<Effect>,
)
    requires
        ids.len() == 6,
        flows.len() == 6,
        effects.len() == 6,
        (GroupsFlow::Start { body }).steps_to(Feedback::Identity(Some(Ok(key))), ids[0], flows[0], effects[0]),
        flows[0].steps_to(Feedback::GroupRows(Ok(found)), ids[1], flows[1], effects[1]),
        flows[1].steps_to(Feedback::SessionRow(Ok(Some(session))), ids[2], flows[2], effects[2]),
        flows[2].steps_to(Feedback::Inserted(Ok(group_id)), ids[3], flows[3], effects[3]),
        flows[3].steps_to(Feedback::Inserted(Ok(member_id)), ids[4], flows[4], effects[4]),
        flows[4].steps_to(Feedback::GroupRows(Ok(found_after)), ids[5], flows[5], effects[5]),
    ensures
        effects[0] is ListGroups,
        effects[1] == Effect::FindSession(key),
        effects[2] == Effect::InsertGroup(group_row(body, ids[2])),
        effects[3] == Effect::InsertMember(admin_row(session.user_id, group_id, ids[3])),
        effects[4] is ListGroups,
        effects[5] == Effect::Respond(Ok(Reply::CreatedId(group_id))),
        flows[5] is Done,
        effects[2] matches Effect::InsertGroup(g) && g.id == ids[2] && g.name == body.name
            && g.icon_path == body.icon_path && g.theme == body.theme,
        effects[3] matches Effect::InsertMember(m) && m.id == ids[3] && m.user_id == session.user_id
            && m.group_id == group_id && m.is_admin == true,
{
}


/// From a found session, whatever the body, the user and the identifiers, the handler
/// inserts the group the body describes and remembers the session's user; once the group
/// insert returns any identifier, the member row it inserts makes that user administrator
/// of exactly that group.
pub proof fn member_row_makes_the_creator_admin(
    body: Group,
    session: crate::entity::session::Model,
    group_id: u128,
    id1: u128,
    id2: u128,
    first: (GroupsFlow, Effect),
    second: (GroupsFlow, Effect),
)
    requires
        (GroupsFlow::Session { body }).steps_to(Feedback::SessionRow(Ok(Some(session))), id1, first.0, first.1),
        first.0.steps_to(Feedback::Inserted(Ok(group_id)), id2, second.0, second.1),
    ensures
        first.1 matches Effect::InsertGroup(g) && g.id == id1 && g.name == body.name
            && g.icon_path == body.icon_path && g.theme == body.theme,
        second.1 matches Effect::InsertMember(m) && m.id == id2 && m.user_id == session.user_id
            && m.group_id == group_id && m.is_admin == true,
{
}

/// Every database failure of the group handler is answered `500 Internal Server Error`
/// with `Failed to ` and the operation, `: ` and the failure's `Debug` text.
pub proof fn group_failures_are_reported(
    body: Group,
    key: String,
    user_id: u128,
    group_id: u128,
    f: crate::http::Failure,
    id: u128,
    r: Seq<(GroupsFlow, Effect)>,
)
    requires
        r.len() == 5,
        (GroupsFlow::Listed { body, key }).steps_to(Feedback::GroupRows(Err(f)), id, r[0].0, r[0].1),
        (GroupsFlow::Session { body }).steps_to(Feedback::SessionRow(Err(f)), id, r[1].0, r[1].1),
        (GroupsFlow::GroupInserted { user_id }).steps_to(Feedback::Inserted(Err(f)), id, r[2].0, r[2].1),
        (GroupsFlow::MemberInserted { group_id }).steps_to(Feedback::Inserted(Err(f)), id, r[3].0, r[3].1),
        (GroupsFlow::Relisted { group_id }).steps_to(Feedback::GroupRows(Err(f)), id, r[4].0, r[4].1),
    ensures
        r[0].1 matches Effect::Respond(Err(e)) && e.status == 500 && e.message@ == "Failed to get groups: "@ + f.debug@,
        r[1].1 matches Effect::Respond(Err(e)) && e.status == 500 && e.message@ == "Failed to get session: "@ + f.debug@,
        r[2].1 matches Effect::Respond(Err(e)) && e.status == 500 && e.message@ == "Failed to insert group: "@ + f.debug@,
        r[3].1 matches Effect::Respond(Err(e)) && e.status == 500 && e.message@ == "Failed to insert member: "@ + f.debug@,
        r[4].1 matches Effect::Respond(Err(e)) && e.status == 500 && e.message@ == "Failed to get groups: "@ + f.debug@,
        forall|i: int| 0 <= i < 5 ==> (#[trigger] r[i]).0 is Done,
{
}

} // verus!
