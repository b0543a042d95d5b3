//! Creates `event`.

use vstd::prelude::*;
use crate::migration::model::{
    down_restores, goes_up, keys_resolved, lemma_create_then_drop, lemma_single_change, table_index,
    TableState,
};
use crate::migration::schema::{
    changes_view, column_view, create_table, create_table_view, drop_table, foreign_key_view, not_null, primary_key, table_view,
    ChangeView, ColumnSpec, ColumnType, ColumnView, ForeignKeySpec, ForeignKeyView, SchemaChange,
    TableView,
};
use crate::text::owned;

verus! {

pub struct Migration;

/// The columns of `event`.
pub open spec fn table_columns() -> Seq<ColumnView> {
    seq![
        primary_key(not_null(column_view("id"@, ColumnType::Uuid))),
        not_null(column_view("description"@, ColumnType::VarChar)),
        not_null(column_view("event_date"@, ColumnType::Date)),
        column_view("author_id"@, ColumnType::Uuid),
    ]
}

/// The foreign keys of `event`.
pub open spec fn table_foreign_keys() -> Seq<ForeignKeyView> {
    seq![
        foreign_key_view("fk_event_author_id"@, "event"@, "author_id"@, "user"@, "id"@),
    ]
}

/// The statements going up: create `event` if it does not exist.
pub open spec fn up_changes() -> Seq<ChangeView> {
    seq![create_table_view("event"@, table_columns(), table_foreign_keys())]
}

/// The statements going down: drop `event`.
pub open spec fn down_changes() -> Seq<ChangeView> {
    seq![ChangeView::DropTable("event"@)]
}

impl Migration {
    pub fn name(&self) -> (n: String)
        ensures
            n@ == "m20240914_174810_create_event"@,
    {
        owned("m20240914_174810_create_event")
    }

    pub fn up(&self) -> (r: Vec<SchemaChange>)
        ensures
            changes_view(r@) == up_changes(),
    {
        let columns = vec![
            ColumnSpec::new("id", ColumnType::Uuid).not_null().primary_key(),
            ColumnSpec::new("description", ColumnType::VarChar).not_null(),
            ColumnSpec::new("event_date", ColumnType::Date).not_null(),
            ColumnSpec::new("author_id", ColumnType::Uuid),
        ];
        let keys: Vec<ForeignKeySpec> = vec![
            ForeignKeySpec::new("fk_event_author_id", "event", "author_id", "user", "id"),
        ];
        assert(columns@.map_values(|c: ColumnSpec| c@) =~= table_columns());
        assert(keys@.map_values(|k: ForeignKeySpec| k@) =~= table_foreign_keys());
        let r = vec![create_table("event", columns, keys)];
        assert(changes_view(r@) =~= up_changes());
        r
    }

    pub fn down(&self) -> (r: Vec<SchemaChange>)
        ensures
            changes_view(r@) == down_changes(),
    {
        let r = vec![drop_table("event")];
        assert(changes_view(r@) =~= down_changes());
        r
    }
}

/// Where going up creates `event` in a schema whose keys resolve and that had no `event`
/// table, going down gives that schema back. (Where the table exists already, going up
/// changes nothing and going down drops it.)
pub proof fn down_undoes_up(s: Seq<TableState>)
    requires
        keys_resolved(s),
        table_index(s, "event"@) < 0,
    ensures
        goes_up(s, up_changes()) ==> down_restores(s, up_changes(), down_changes()),
{
    lemma_single_change(s, up_changes()[0]);
    if goes_up(s, up_changes()) {
        lemma_create_then_drop(s, table_view("event"@, table_columns(), table_foreign_keys()));
    }
}


/// Going up creates `event` if it does not exist, with the columns id UUID NOT NULL PRIMARY KEY, description VARCHAR NOT NULL, event_date DATE NOT NULL, author_id UUID
/// and the foreign keys listed below, in this order; going down drops `event`.
pub proof fn declares_the_table()
    ensures
        up_changes() == seq![ChangeView::CreateTable(TableView {
            name: "event"@,
            if_not_exists: true,
            columns: seq![
                ColumnView { name: "id"@, ty: ColumnType::Uuid, not_null: true, primary_key: true, unique: false, default: None },
                ColumnView { name: "description"@, ty: ColumnType::VarChar, not_null: true, primary_key: false, unique: false, default: None },
                ColumnView { name: "event_date"@, ty: ColumnType::Date, not_null: true, primary_key: false, unique: false, default: None },
                ColumnView { name: "author_id"@, ty: ColumnType::Uuid, not_null: false, primary_key: false, unique: false, default: None },
            ],
            foreign_keys: seq![
                ForeignKeyView { name: "fk_event_author_id"@, from_table: "event"@, from_column: "author_id"@, to_table: "user"@, to_column: "id"@ },
            ],
        })],
        down_changes() == seq![ChangeView::DropTable("event"@)],
{
}

} // verus!
