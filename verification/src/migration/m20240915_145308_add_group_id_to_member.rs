//! Gives every member the group it belongs to.

use vstd::prelude::*;
use crate::migration::model::{
    apply_changes, goes_up, key_index, keys_without_column, lemma_keys_without_column,
    lemma_single_change, lemma_table_index_bounds, lemma_table_index_update, lemma_two_ops,
    table_index, TableState,
};
use crate::migration::schema::{
    alter_table, changes_view, column_view, foreign_key_view, not_null, AlterOp, AlterOpView,
    ChangeView, ColumnSpec, ColumnType, ColumnView, ForeignKeySpec, ForeignKeyView, SchemaChange,
};
use crate::text::owned;

verus! {

pub struct Migration;

/// `group_id`: a non-null UUID.
pub open spec fn group_id_column() -> ColumnView {
    not_null(column_view("group_id"@, ColumnType::Uuid))
}

/// `fk_group_id`: from `member.group_id` to `group.id`.
pub open spec fn group_key() -> ForeignKeyView {
    foreign_key_view("fk_group_id"@, "member"@, "group_id"@, "group"@, "id"@)
}

pub open spec fn up_ops() -> Seq<AlterOpView> {
    seq![AlterOpView::AddColumn(group_id_column()), AlterOpView::AddForeignKey(group_key())]
}

pub open spec fn down_ops() -> Seq<AlterOpView> {
    seq![AlterOpView::DropColumn("group_id"@), AlterOpView::DropForeignKey("fk_group_id"@)]
}

/// The statements going up: add `group_id` and its foreign key to `member`.
pub open spec fn up_changes() -> Seq<ChangeView> {
    seq![ChangeView::AlterTable { table: "member"@, ops: up_ops() }]
}

/// The statements going down: drop them again.
pub open spec fn down_changes() -> Seq<ChangeView> {
    seq![ChangeView::AlterTable { table: "member"@, ops: down_ops() }]
}

impl Migration {
    pub fn name(&self) -> (n: String)
        ensures
            n@ == "m20240915_145308_add_group_id_to_member"@,
    {
        owned("m20240915_145308_add_group_id_to_member")
    }

    pub fn up(&self) -> (r: Vec<SchemaChange>)
        ensures
            changes_view(r@) == up_changes(),
    {
        let ops = vec![
            AlterOp::AddColumn(ColumnSpec::new("group_id", ColumnType::Uuid).not_null()),
            AlterOp::AddForeignKey(ForeignKeySpec::new("fk_group_id", "member", "group_id", "group", "id")),
        ];
        assert(ops@.map_values(|o: AlterOp| o@) =~= up_ops());
        let r = vec![alter_table("member", ops)];
        assert(changes_view(r@) =~= up_changes());
        r
    }

    pub fn down(&self) -> (r: Vec<SchemaChange>)
        ensures
            changes_view(r@) == down_changes(),
    {
        let ops = vec![AlterOp::DropColumn(owned("group_id")), AlterOp::DropForeignKey(owned("fk_group_id"))];
        assert(ops@.map_values(|o: AlterOp| o@) =~= down_ops());
        let r = vec![alter_table("member", ops)];
        assert(changes_view(r@) =~= down_changes());
        r
    }
}

/// Going down always fails after going up: dropping `group_id` drops `fk_group_id` with
/// it, so the following `DROP CONSTRAINT fk_group_id` finds no such key.
pub proof fn down_fails_after_up(s: Seq<TableState>)
    ensures
        goes_up(s, up_changes()) ==> apply_changes(apply_changes(s, up_changes()).unwrap(), down_changes()) is None,
{
    lemma_single_change(s, up_changes()[0]);
    if goes_up(s, up_changes()) {
        let i = table_index(s, "member"@);
        lemma_table_index_bounds(s, "member"@);
        let t = s[i];
        lemma_two_ops(s, t, AlterOpView::AddColumn(group_id_column()), AlterOpView::AddForeignKey(group_key()));
        let with_column = TableState { columns: t.columns.push(group_id_column()), ..t };
        let altered = TableState { foreign_keys: t.foreign_keys.push(group_key()), ..with_column };
        assert(key_index(t.foreign_keys, "fk_group_id"@) < 0);
        let s1 = s.update(i, altered);
        assert(apply_changes(s, up_changes()) == Some(s1));
        lemma_table_index_update(s, "member"@, altered);
        lemma_single_change(s1, down_changes()[0]);
        lemma_two_ops(s1, altered, AlterOpView::DropColumn("group_id"@), AlterOpView::DropForeignKey("fk_group_id"@));
        assert(altered.foreign_keys.drop_last() =~= t.foreign_keys);
        assert(keys_without_column(altered.foreign_keys, "group_id"@) == keys_without_column(t.foreign_keys, "group_id"@));
        lemma_keys_without_column(t.foreign_keys, "group_id"@);
        assert(key_index(keys_without_column(t.foreign_keys, "group_id"@), "fk_group_id"@) < 0);
    }
}


/// Going up adds to `member` the column `group_id` of type UUID, NOT NULL, then the key
/// `fk_group_id` from `member.group_id` to `group.id`; going down drops `group_id` and
/// then the key `fk_group_id`.
pub proof fn declares_the_change()
    ensures
        up_changes() == seq![ChangeView::AlterTable { table: "member"@, ops: seq![AlterOpView::AddColumn(ColumnView { name: "group_id"@, ty: ColumnType::Uuid, not_null: true, primary_key: false, unique: false, default: None }), AlterOpView::AddForeignKey(ForeignKeyView { name: "fk_group_id"@, from_table: "member"@, from_column: "group_id"@, to_table: "group"@, to_column: "id"@ })] }],
        down_changes() == seq![ChangeView::AlterTable { table: "member"@, ops: seq![AlterOpView::DropColumn("group_id"@), AlterOpView::DropForeignKey("fk_group_id"@)] }],
{
}

} // verus!
