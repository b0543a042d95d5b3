//! How the tables refer to each other.

use vstd::prelude::*;
use crate::text::owned;

verus! {

/// Whether a relation leads to the one row that a foreign key names, or to the many rows
/// whose foreign key names this row.
#[derive(Debug, Clone, PartialEq, Eq)]
pub enum RelationKind {
    BelongsTo,
    HasMany,
}

/// What a database does to referring rows when the referred row changes.
#[derive(Debug, Clone, PartialEq, Eq)]
pub enum ForeignKeyAction {
    NoAction,
}

/// A relation between two tables: rows of `from_table` whose `from_column` equals
/// `to_column` of rows of `to_table`.
#[derive(Debug, Clone, PartialEq, Eq)]
pub struct RelationDef {
    pub kind: RelationKind,
    pub from_table: String,
    pub from_column: String,
    pub to_table: String,
    pub to_column: String,
    pub on_update: Option<ForeignKeyAction>,
    pub on_delete: Option<ForeignKeyAction>,
}

/// A `belongs_to` relation from `from_table.from_column` to `to_table.id` that takes no
/// action on update or delete.
pub open spec fn is_belongs_to(
    d: RelationDef,
    from_table: Seq<char>,
    from_column: Seq<char>,
    to_table: Seq<char>,
) -> bool {
    &&& d.kind is BelongsTo
    &&& d.from_table@ == from_table
    &&& d.from_column@ == from_column
    &&& d.to_table@ == to_table
    &&& d.to_column@ == "id"@
    &&& d.on_update == Some(ForeignKeyAction::NoAction)
    &&& d.on_delete == Some(ForeignKeyAction::NoAction)
}

/// `r` is `d` seen from the other end: a `has_many` over the same columns, with no
/// referential actions of its own.
pub open spec fn is_reverse_of(r: RelationDef, d: RelationDef) -> bool {
    &&& r.kind is HasMany
    &&& r.from_table@ == d.to_table@
    &&& r.from_column@ == d.to_column@
    &&& r.to_table@ == d.from_table@
    &&& r.to_column@ == d.from_column@
    &&& r.on_update is None
    &&& r.on_delete is None
}

/// The `belongs_to` relation from `from_table.from_column` to `to_table.id`.
pub fn belongs_to(from_table: &str, from_column: &str, to_table: &str) -> (d: RelationDef)
    ensures
        is_belongs_to(d, from_table@, from_column@, to_table@),
{
    RelationDef {
        kind: RelationKind::BelongsTo,
        from_table: owned(from_table),
        from_column: owned(from_column),
        to_table: owned(to_table),
        to_column: owned("id"),
        on_update: Some(ForeignKeyAction::NoAction),
        on_delete: Some(ForeignKeyAction::NoAction),
    }
}

/// The `has_many` relation that looks at `d` from its other end.
pub fn reverse(d: &RelationDef) -> (r: RelationDef)
    ensures
        is_reverse_of(r, *d),
{
    RelationDef {
        kind: RelationKind::HasMany,
        from_table: d.to_table.clone(),
        from_column: d.to_column.clone(),
        to_table: d.from_table.clone(),
        to_column: d.from_column.clone(),
        on_update: None,
        on_delete: None,
    }
}

} // verus!
