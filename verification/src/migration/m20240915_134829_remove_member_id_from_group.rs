//! Drops the member column of `group`: membership moves to `member.group_id`.

use vstd::prelude::*;
use crate::migration::model::{
    apply_changes, column_index, column_referred_by_other, down_restores, goes_up,
    keys_without_column, lemma_alter_then_alter, lemma_keys_without_column, lemma_single_change,
    lemma_single_op, lemma_table_index_bounds, lemma_table_index_update, table_index, TableState,
};
use crate::migration::schema::{
    alter_table, changes_view, column_view, not_null, AlterOp, AlterOpView, ChangeView,
    ColumnSpec, ColumnType, ColumnView, SchemaChange,
};
use crate::text::owned;

verus! {

pub struct Migration;

/// `member_id` as going down adds it back: a non-null UUID.
pub open spec fn member_id_column() -> ColumnView {
    not_null(column_view("member_id"@, ColumnType::Uuid))
}

pub open spec fn up_ops() -> Seq<AlterOpView> {
    seq![AlterOpView::DropColumn("member_id"@)]
}

pub open spec fn down_ops() -> Seq<AlterOpView> {
    seq![AlterOpView::AddColumn(member_id_column())]
}

/// The statements going up: drop `member_id` from `group`.
pub open spec fn up_changes() -> Seq<ChangeView> {
    seq![ChangeView::AlterTable { table: "group"@, ops: up_ops() }]
}

/// The statements going down: add `member_id` to `group` again.
pub open spec fn down_changes() -> Seq<ChangeView> {
    seq![ChangeView::AlterTable { table: "group"@, ops: down_ops() }]
}

impl Migration {
    pub fn name(&self) -> (n: String)
        ensures
            n@ == "m20240915_134829_remove_member_id_from_group"@,
    {
        owned("m20240915_134829_remove_member_id_from_group")
    }

    pub fn up(&self) -> (r: Vec<SchemaChange>)
        ensures
            changes_view(r@) == up_changes(),
    {
        let ops = vec![AlterOp::DropColumn(owned("member_id"))];
        assert(ops@.map_values(|o: AlterOp| o@) =~= up_ops());
        let r = vec![alter_table("group", ops)];
        assert(changes_view(r@) =~= up_changes());
        r
    }

    pub fn down(&self) -> (r: Vec<SchemaChange>)
        ensures
            changes_view(r@) == down_changes(),
    {
        let ops = vec![AlterOp::AddColumn(ColumnSpec::new("member_id", ColumnType::Uuid).not_null())];
        assert(ops@.map_values(|o: AlterOp| o@) =~= down_ops());
        let r = vec![alter_table("group", ops)];
        assert(changes_view(r@) =~= down_changes());
        r
    }
}

/// The foreign keys on `member_id` go with it: wherever going up succeeds, `group` keeps
/// exactly its keys that are not on `member_id`, and none that is.
pub proof fn keys_go_with_the_column(s: Seq<TableState>)
    ensures
        goes_up(s, up_changes()) ==> {
            let i = table_index(s, "group"@);
            let after = apply_changes(s, up_changes()).unwrap()[i];
            &&& after.foreign_keys == keys_without_column(s[i].foreign_keys, "member_id"@)
            &&& forall|j: int| 0 <= j < after.foreign_keys.len() ==> (#[trigger] after.foreign_keys[j]).from_column != "member_id"@
        },
{
    lemma_single_change(s, up_changes()[0]);
    if goes_up(s, up_changes()) {
        let i = table_index(s, "group"@);
        lemma_table_index_bounds(s, "group"@);
        lemma_single_op(s, s[i], AlterOpView::DropColumn("member_id"@));
        lemma_keys_without_column(s[i].foreign_keys, "member_id"@);
    }
}

/// Going down does not bring back the keys that going up dropped with `member_id`: where
/// `group` had a key on `member_id` (as `fk_member_id` after `create_group`), going up then
/// down never gives the schema back.
pub proof fn down_loses_keys_on_member_id(s: Seq<TableState>)
    ensures
        goes_up(s, up_changes()) && (exists|j: int|
            0 <= j < s[table_index(s, "group"@)].foreign_keys.len()
                && (#[trigger] s[table_index(s, "group"@)].foreign_keys[j]).from_column == "member_id"@)
            ==> apply_changes(apply_changes(s, up_changes()).unwrap(), down_changes()) != Some(s),
{
    lemma_single_change(s, up_changes()[0]);
    let i = table_index(s, "group"@);
    lemma_table_index_bounds(s, "group"@);
    if goes_up(s, up_changes()) && exists|j: int|
        0 <= j < s[i].foreign_keys.len() && (#[trigger] s[i].foreign_keys[j]).from_column == "member_id"@ {
        let j = choose|j: int|
            0 <= j < s[i].foreign_keys.len() && (#[trigger] s[i].foreign_keys[j]).from_column == "member_id"@;
        let t = s[i];
        lemma_single_op(s, t, AlterOpView::DropColumn("member_id"@));
        let ci = column_index(t.columns, "member_id"@);
        let t1 = TableState {
            columns: t.columns.remove(ci),
            foreign_keys: keys_without_column(t.foreign_keys, "member_id"@),
            ..t
        };
        let s1 = s.update(i, t1);
        assert(apply_changes(s, up_changes()) == Some(s1));
        lemma_table_index_update(s, "group"@, t1);
        lemma_single_change(s1, down_changes()[0]);
        lemma_single_op(s1, t1, AlterOpView::AddColumn(member_id_column()));
        lemma_keys_without_column(t.foreign_keys, "member_id"@);
        if apply_changes(s1, down_changes()) == Some(s) {
            let t2 = TableState { columns: t1.columns.push(member_id_column()), ..t1 };
            assert(s1.update(i, t2)[i] == s[i]);
            assert(t2.foreign_keys == t.foreign_keys);
            assert(t.foreign_keys[j].from_column == "member_id"@);
            assert(t2.foreign_keys[j].from_column != "member_id"@);
        }
    }
}

/// Going down after going up gives the schema back when `member_id` is the last column of
/// `group`, is the non-null UUID column that going down adds, is the only column of that
/// name, carries no key and is referred to by none, and `group` holds no rows. (Going down
/// appends the column without its keys, and refuses a non-null column without default on
/// a table with rows.)
pub proof fn down_undoes_up(s: Seq<TableState>)
    requires
        table_index(s, "group"@) >= 0,
        s[table_index(s, "group"@)].columns.len() > 0,
        s[table_index(s, "group"@)].columns.last() == member_id_column(),
        column_index(s[table_index(s, "group"@)].columns.drop_last(), "member_id"@) < 0,
        forall|j: int| 0 <= j < s[table_index(s, "group"@)].foreign_keys.len()
            ==> (#[trigger] s[table_index(s, "group"@)].foreign_keys[j]).from_column != "member_id"@,
        !column_referred_by_other(s, "group"@, "member_id"@),
        !s[table_index(s, "group"@)].has_rows,
    ensures
        down_restores(s, up_changes(), down_changes()),
{
    let i = table_index(s, "group"@);
    lemma_table_index_bounds(s, "group"@);
    let t = s[i];
    let rest = t.columns.drop_last();
    lemma_single_op(s, t, AlterOpView::DropColumn("member_id"@));
    assert(column_index(t.columns, "member_id"@) == t.columns.len() - 1);
    assert(t.columns.remove(t.columns.len() - 1) =~= rest);
    lemma_keys_without_column(t.foreign_keys, "member_id"@);
    let altered = TableState { columns: rest, ..t };
    lemma_single_op(s.update(i, altered), altered, AlterOpView::AddColumn(member_id_column()));
    assert(rest.push(member_id_column()) =~= t.columns);
    assert(TableState { columns: rest.push(member_id_column()), ..altered } == t);
    lemma_alter_then_alter(s, "group"@, up_ops(), down_ops(), altered);
}


/// Going up drops `member_id` from `group`; going down adds to `group` the column
/// `member_id` of type UUID, NOT NULL.
pub proof fn declares_the_change()
    ensures
        up_changes() == seq![ChangeView::AlterTable { table: "group"@, ops: seq![AlterOpView::DropColumn("member_id"@)] }],
        down_changes() == seq![ChangeView::AlterTable { table: "group"@, ops: seq![AlterOpView::AddColumn(ColumnView { name: "member_id"@, ty: ColumnType::Uuid, not_null: true, primary_key: false, unique: false, default: None })] }],
{
}

} // verus!
