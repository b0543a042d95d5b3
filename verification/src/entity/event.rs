//! The `event` table.

use vstd::prelude::*;
use crate::calendar::CalendarDate;
use crate::entity::relation::{belongs_to, is_belongs_to, RelationDef};

verus! {

/// A row of `event`.
#[derive(Debug, Clone, PartialEq, Eq)]
pub struct Model {
    pub id: u128,
    pub description: String,
    pub event_date: CalendarDate,
    pub comment_id: Option<u128>,
    pub tag_id: Option<u128>,
    pub reaction_id: Option<u128>,
    pub author_id: Option<u128>,
}

/// The rows an event refers to.
#[derive(Debug, Clone, PartialEq, Eq)]
pub enum Relation {
    Comment,
    Reaction,
    Tag,
    User,
}

impl Relation {
    /// The column of `event` this relation goes through and the table it leads to.
    pub open spec fn spec_ends(self) -> (Seq<char>, Seq<char>) {
        match self {
            Relation::Comment => ("comment_id"@, "comment"@),
            Relation::Reaction => ("reaction_id"@, "reaction"@),
            Relation::Tag => ("tag_id"@, "tag"@),
            Relation::User => ("author_id"@, "user"@),
        }
    }

    /// Each relation of an event is a `belongs_to` from one of its columns to the `id` of
    /// the referred table, with no action on update or delete.
    pub fn def(&self) -> (d: RelationDef)
        ensures
            is_belongs_to(d, "event"@, self.spec_ends().0, self.spec_ends().1),
    {
        match self {
            Relation::Comment => belongs_to("event", "comment_id", "comment"),
            Relation::Reaction => belongs_to("event", "reaction_id", "reaction"),
            Relation::Tag => belongs_to("event", "tag_id", "tag"),
            Relation::User => belongs_to("event", "author_id", "user"),
        }
    }
}


/// Every relation of an event goes from a column of `event` to the `id` of the table it
/// names, with no action on update or delete: `comment_id` to `comment`, `reaction_id` to
/// `reaction`, `tag_id` to `tag`, `author_id` to `user`.
pub proof fn event_relations_follow_their_columns(r: Relation, d: RelationDef)
    requires
        is_belongs_to(d, "event"@, r.spec_ends().0, r.spec_ends().1),
    ensures
        d.kind is BelongsTo,
        d.from_table@ == "event"@,
        d.to_column@ == "id"@,
        d.on_update == Some(crate::entity::relation::ForeignKeyAction::NoAction),
        d.on_delete == Some(crate::entity::relation::ForeignKeyAction::NoAction),
        r is Comment ==> d.from_column@ == "comment_id"@ && d.to_table@ == "comment"@,
        r is Reaction ==> d.from_column@ == "reaction_id"@ && d.to_table@ == "reaction"@,
        r is Tag ==> d.from_column@ == "tag_id"@ && d.to_table@ == "tag"@,
        r is User ==> d.from_column@ == "author_id"@ && d.to_table@ == "user"@,
{
}

} // verus!
