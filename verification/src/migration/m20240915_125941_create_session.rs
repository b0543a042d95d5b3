//! Creates `session`: which user a browser session key belongs to.

use vstd::prelude::*;
use crate::migration::model::{
    down_restores, goes_up, keys_resolved, lemma_create_then_drop, lemma_single_change, table_index,
    TableState,
};
use crate::migration::schema::{
    changes_view, column_view, create_table, create_table_view, drop_table, foreign_key_view, not_null, primary_key, unique_key, table_view,
    ChangeView, ColumnSpec, ColumnType, ColumnView, ForeignKeySpec, ForeignKeyView, SchemaChange,
    TableView,
};
use crate::text::owned;

verus! {

pub struct Migration;

/// The columns of `session`.
pub open spec fn table_columns() -> Seq<ColumnView> {
    seq![
        not_null(primary_key(column_view("id"@, ColumnType::Uuid))),
        not_null(unique_key(column_view("session_id"@, ColumnType::VarChar))),
        not_null(column_view("user_id"@, ColumnType::Uuid)),
    ]
}

/// The foreign keys of `session`.
pub open spec fn table_foreign_keys() -> Seq<ForeignKeyView> {
    seq![
        foreign_key_view("fk_user_id"@, "session"@, "user_id"@, "user"@, "id"@),
    ]
}

/// The statements going up: create `session` if it does not exist.
pub open spec fn up_changes() -> Seq<ChangeView> {
    seq![create_table_view("session"@, table_columns(), table_foreign_keys())]
}

/// The statements going down: drop `session`.
pub open spec fn down_changes() -> Seq<ChangeView> {
    seq![ChangeView::DropTable("session"@)]
}

impl Migration {
    pub fn name(&self) -> (n: String)
        ensures
            n@ == "m20240915_125941_create_session"@,
    {
        owned("m20240915_125941_create_session")
    }

    pub fn up(&self) -> (r: Vec<SchemaChange>)
        ensures
            changes_view(r@) == up_changes(),
    {
        let columns = vec![
            ColumnSpec::new("id", ColumnType::Uuid).primary_key().not_null(),
            ColumnSpec::new("session_id", ColumnType::VarChar).unique_key().not_null(),
            ColumnSpec::new("user_id", ColumnType::Uuid).not_null(),
        ];
        let keys: Vec<ForeignKeySpec> = vec![
            ForeignKeySpec::new("fk_user_id", "session", "user_id", "user", "id"),
        ];
        assert(columns@.map_values(|c: ColumnSpec| c@) =~= table_columns());
        assert(keys@.map_values(|k: ForeignKeySpec| k@) =~= table_foreign_keys());
        let r = vec![create_table("session", columns, keys)];
        assert(changes_view(r@) =~= up_changes());
        r
    }

    pub fn down(&self) -> (r: Vec<SchemaChange>)
        ensures
            changes_view(r@) == down_changes(),
    {
        let r = vec![drop_table("session")];
        assert(changes_view(r@) =~= down_changes());
        r
    }
}

/// Where going up creates `session` in a schema whose keys resolve and that had no `session`
/// table, going down gives that schema back. (Where the table exists already, going up
/// changes nothing and going down drops it.)
pub proof fn down_undoes_up(s: Seq<TableState>)
    requires
        keys_resolved(s),
        table_index(s, "session"@) < 0,
    ensures
        goes_up(s, up_changes()) ==> down_restores(s, up_changes(), down_changes()),
{
    lemma_single_change(s, up_changes()[0]);
    if goes_up(s, up_changes()) {
        lemma_create_then_drop(s, table_view("session"@, table_columns(), table_foreign_keys()));
    }
}


/// Going up creates `session` if it does not exist, with the columns id UUID NOT NULL PRIMARY KEY, session_id VARCHAR NOT NULL UNIQUE, user_id UUID NOT NULL
/// and the foreign keys listed below, in this order; going down drops `session`.
pub proof fn declares_the_table()
    ensures
        up_changes() == seq![ChangeView::CreateTable(TableView {
            name: "session"@,
            if_not_exists: true,
            columns: seq![
                ColumnView { name: "id"@, ty: ColumnType::Uuid, not_null: true, primary_key: true, unique: false, default: None },
                ColumnView { name: "session_id"@, ty: ColumnType::VarChar, not_null: true, primary_key: false, unique: true, default: None },
                ColumnView { name: "user_id"@, ty: ColumnType::Uuid, not_null: true, primary_key: false, unique: false, default: None },
            ],
            foreign_keys: seq![
                ForeignKeyView { name: "fk_user_id"@, from_table: "session"@, from_column: "user_id"@, to_table: "user"@, to_column: "id"@ },
            ],
        })],
        down_changes() == seq![ChangeView::DropTable("session"@)],
{
}

} // verus!
