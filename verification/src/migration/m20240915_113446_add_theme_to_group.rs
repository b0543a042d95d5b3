//! Gives every group a colour theme, white unless set.

use vstd::prelude::*;
use crate::migration::model::{
    column_exists, column_index, column_referred_by_other, down_restores, goes_up, keys_resolved,
    keys_without_column, lemma_alter_then_alter, lemma_column_index_bounds, lemma_column_pushed,
    lemma_keys_without_column, lemma_single_change, lemma_single_op, lemma_table_index_bounds,
    table_index, TableState,
};
use crate::migration::schema::{
    alter_table, changes_view, column_view, not_null, with_default, AlterOp, AlterOpView,
    ChangeView, ColumnSpec, ColumnType, ColumnView, SchemaChange,
};
use crate::text::owned;

verus! {

pub struct Migration;

/// `theme`: a non-null string that defaults to `#ffffff`.
pub open spec fn theme_column() -> ColumnView {
    with_default(not_null(column_view("theme"@, ColumnType::VarChar)), "#ffffff"@)
}

pub open spec fn up_ops() -> Seq<AlterOpView> {
    seq![AlterOpView::AddColumn(theme_column())]
}

pub open spec fn down_ops() -> Seq<AlterOpView> {
    seq![AlterOpView::DropColumn("theme"@)]
}

/// The statements going up: add `theme` to `group`.
pub open spec fn up_changes() -> Seq<ChangeView> {
    seq![ChangeView::AlterTable { table: "group"@, ops: up_ops() }]
}

/// The statements going down: drop `theme` from `group`.
pub open spec fn down_changes() -> Seq<ChangeView> {
    seq![ChangeView::AlterTable { table: "group"@, ops: down_ops() }]
}

impl Migration {
    pub fn name(&self) -> (n: String)
        ensures
            n@ == "m20240915_113446_add_theme_to_group"@,
    {
        owned("m20240915_113446_add_theme_to_group")
    }

    pub fn up(&self) -> (r: Vec<SchemaChange>)
        ensures
            changes_view(r@) == up_changes(),
    {
        let theme = ColumnSpec::new("theme", ColumnType::VarChar).not_null().default("#ffffff");
        let ops = vec![AlterOp::AddColumn(theme)];
        assert(ops@.map_values(|o: AlterOp| o@) =~= up_ops());
        let r = vec![alter_table("group", ops)];
        assert(changes_view(r@) =~= up_changes());
        r
    }

    pub fn down(&self) -> (r: Vec<SchemaChange>)
        ensures
            changes_view(r@) == down_changes(),
    {
        let ops = vec![AlterOp::DropColumn(owned("theme"))];
        assert(ops@.map_values(|o: AlterOp| o@) =~= down_ops());
        let r = vec![alter_table("group", ops)];
        assert(changes_view(r@) =~= down_changes());
        r
    }
}

/// Wherever going up succeeds on a schema whose keys resolve, going down again gives the
/// schema back.
pub proof fn down_undoes_up(s: Seq<TableState>)
    requires
        keys_resolved(s),
    ensures
        goes_up(s, up_changes()) ==> down_restores(s, up_changes(), down_changes()),
{
    lemma_single_change(s, up_changes()[0]);
    if goes_up(s, up_changes()) {
        let i = table_index(s, "group"@);
        lemma_table_index_bounds(s, "group"@);
        let t = s[i];
        lemma_single_op(s, t, AlterOpView::AddColumn(theme_column()));
        assert(column_index(t.columns, "theme"@) < 0);
        lemma_column_index_bounds(t.columns, "theme"@);
        let altered = TableState { columns: t.columns.push(theme_column()), ..t };
        let s1 = s.update(i, altered);
        lemma_column_pushed(t.columns, theme_column());
        lemma_single_op(s1, altered, AlterOpView::DropColumn("theme"@));
        assert forall|j: int| 0 <= j < t.foreign_keys.len() implies (#[trigger] t.foreign_keys[j]).from_column != "theme"@ by {
            let f = t.foreign_keys[j].from_column;
            assert(s[i].foreign_keys[j] == t.foreign_keys[j]);
            lemma_column_index_bounds(t.columns, f);
        }
        lemma_keys_without_column(t.foreign_keys, "theme"@);
        assert(!column_referred_by_other(s1, "group"@, "theme"@)) by {
            if column_referred_by_other(s1, "group"@, "theme"@) {
                let (k, j) = choose|k: int, j: int|
                    0 <= k < s1.len() && s1[k].name != "group"@ && 0 <= j < s1[k].foreign_keys.len()
                        && (#[trigger] s1[k].foreign_keys[j]).to_table == "group"@
                        && s1[k].foreign_keys[j].to_column == "theme"@;
                assert(k != i);
                assert(s1[k] == s[k]);
                assert(column_exists(s, s[k].foreign_keys[j].to_table, s[k].foreign_keys[j].to_column));
            }
        }
        assert(TableState {
            columns: altered.columns.remove(t.columns.len() as int),
            foreign_keys: keys_without_column(altered.foreign_keys, "theme"@),
            ..altered
        } == t);
        lemma_alter_then_alter(s, "group"@, up_ops(), down_ops(), altered);
    }
}


/// Going up adds to `group` the column `theme` of type VARCHAR, NOT NULL, DEFAULT
/// `#ffffff`; going down drops `theme` from `group`.
pub proof fn declares_the_change()
    ensures
        up_changes() == seq![ChangeView::AlterTable { table: "group"@, ops: seq![AlterOpView::AddColumn(ColumnView { name: "theme"@, ty: ColumnType::VarChar, not_null: true, primary_key: false, unique: false, default: Some("#ffffff"@) })] }],
        down_changes() == seq![ChangeView::AlterTable { table: "group"@, ops: seq![AlterOpView::DropColumn("theme"@)] }],
{
}

} // verus!
