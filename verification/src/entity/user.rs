//! The `user` table.

use vstd::prelude::*;
use crate::entity::event;
use crate::text::owned;
use crate::entity::relation::{is_belongs_to, is_reverse_of, reverse, RelationDef};

verus! {

/// A row of `user`.
#[derive(Debug, Clone, PartialEq, Eq)]
pub struct Model {
    pub id: u128,
    pub name: String,
    pub email: String,
    pub icon_path: String,
}

/// The rows that refer to a user.
#[derive(Debug, Clone, PartialEq, Eq)]
pub enum Relation {
    Comment,
    Event,
    Member,
    Reaction,
    Session,
}

impl Relation {
    /// The table whose rows refer to the user.
    pub open spec fn spec_related_table(self) -> Seq<char> {
        match self {
            Relation::Comment => "comment"@,
            Relation::Event => "event"@,
            Relation::Member => "member"@,
            Relation::Reaction => "reaction"@,
            Relation::Session => "session"@,
        }
    }

    /// The table whose rows refer to the user.
    pub fn related_table(&self) -> (t: String)
        ensures
            t@ == self.spec_related_table(),
    {
        match self {
            Relation::Comment => owned("comment"),
            Relation::Event => owned("event"),
            Relation::Member => owned("member"),
            Relation::Reaction => owned("reaction"),
            Relation::Session => owned("session"),
        }
    }
}

/// The events a user wrote: `event`'s `belongs_to` relation to `user`, seen from the user.
pub fn events_relation() -> (d: RelationDef)
    ensures
        forall|o: RelationDef|
            #![trigger is_belongs_to(o, "event"@, "author_id"@, "user"@)]
            is_belongs_to(o, "event"@, "author_id"@, "user"@) ==> is_reverse_of(d, o),
        d.kind is HasMany,
        d.from_table@ == "user"@ && d.from_column@ == "id"@,
        d.to_table@ == "event"@ && d.to_column@ == "author_id"@,
{
    let owner = event::Relation::User.def();
    reverse(&owner)
}


/// A user is referred to by `comment`, `event`, `member`, `reaction` and `session`.
pub proof fn users_are_referred_to_by_five_tables()
    ensures
        Relation::Comment.spec_related_table() == "comment"@,
        Relation::Event.spec_related_table() == "event"@,
        Relation::Member.spec_related_table() == "member"@,
        Relation::Reaction.spec_related_table() == "reaction"@,
        Relation::Session.spec_related_table() == "session"@,
{
}

} // verus!
