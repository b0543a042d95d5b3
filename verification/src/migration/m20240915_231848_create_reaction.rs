//! Creates `reaction` with an icon only.

use vstd::prelude::*;
use crate::migration::model::{
    down_restores, goes_up, keys_resolved, lemma_create_then_drop, lemma_single_change, table_index,
    TableState,
};
use crate::migration::schema::{
    changes_view, column_view, create_table, create_table_view, drop_table, not_null, primary_key, table_view,
    ChangeView, ColumnSpec, ColumnType, ColumnView, ForeignKeySpec, ForeignKeyView, SchemaChange,
    TableView,
};
use crate::text::owned;

verus! {

pub struct Migration;

/// The columns of `reaction`.
pub open spec fn table_columns() -> Seq<ColumnView> {
    seq![
        primary_key(not_null(column_view("id"@, ColumnType::Uuid))),
        not_null(column_view("icon_path"@, ColumnType::VarChar)),
    ]
}

/// The foreign keys of `reaction`.
pub open spec fn table_foreign_keys() -> Seq<ForeignKeyView> {
    Seq::empty()
}

/// The statements going up: create `reaction` if it does not exist.
pub open spec fn up_changes() -> Seq<ChangeView> {
    seq![create_table_view("reaction"@, table_columns(), table_foreign_keys())]
}

/// The statements going down: drop `reaction`.
pub open spec fn down_changes() -> Seq<ChangeView> {
    seq![ChangeView::DropTable("reaction"@)]
}

impl Migration {
    pub fn name(&self) -> (n: String)
        ensures
            n@ == "m20240915_231848_create_reaction"@,
    {
        owned("m20240915_231848_create_reaction")
    }

    pub fn up(&self) -> (r: Vec<SchemaChange>)
        ensures
            changes_view(r@) == up_changes(),
    {
        let columns = vec![
            ColumnSpec::new("id", ColumnType::Uuid).not_null().primary_key(),
            ColumnSpec::new("icon_path", ColumnType::VarChar).not_null(),
        ];
        let keys: Vec<ForeignKeySpec> = Vec::new();
        assert(columns@.map_values(|c: ColumnSpec| c@) =~= table_columns());
        assert(keys@.map_values(|k: ForeignKeySpec| k@) =~= table_foreign_keys());
        let r = vec![create_table("reaction", columns, keys)];
        assert(changes_view(r@) =~= up_changes());
        r
    }

    pub fn down(&self) -> (r: Vec<SchemaChange>)
        ensures
            changes_view(r@) == down_changes(),
    {
        let r = vec![drop_table("reaction")];
        assert(changes_view(r@) =~= down_changes());
        r
    }
}

/// Where going up creates `reaction` in a schema whose keys resolve and that had no `reaction`
/// table, going down gives that schema back. (Where the table exists already, going up
/// changes nothing and going down drops it.)
pub proof fn down_undoes_up(s: Seq<TableState>)
    requires
        keys_resolved(s),
        table_index(s, "reaction"@) < 0,
    ensures
        goes_up(s, up_changes()) ==> down_restores(s, up_changes(), down_changes()),
{
    lemma_single_change(s, up_changes()[0]);
    if goes_up(s, up_changes()) {
        lemma_create_then_drop(s, table_view("reaction"@, table_columns(), table_foreign_keys()));
    }
}


/// Going up creates `reaction` if it does not exist, with the columns id UUID NOT NULL PRIMARY KEY, icon_path VARCHAR NOT NULL
/// and the foreign keys listed below, in this order; going down drops `reaction`.
pub proof fn declares_the_table()
    ensures
        up_changes() == seq![ChangeView::CreateTable(TableView {
            name: "reaction"@,
            if_not_exists: true,
            columns: seq![
                ColumnView { name: "id"@, ty: ColumnType::Uuid, not_null: true, primary_key: true, unique: false, default: None },
                ColumnView { name: "icon_path"@, ty: ColumnType::VarChar, not_null: true, primary_key: false, unique: false, default: None },
            ],
            foreign_keys: Seq::empty(),
        })],
        down_changes() == seq![ChangeView::DropTable("reaction"@)],
{
}

} // verus!
