//! Creates `member`: which user belongs to which group, and whether as administrator.

use vstd::prelude::*;
use crate::migration::model::{column_index, goes_up, lemma_single_change, new_key_resolves, table_index, TableState};
use crate::migration::schema::{
    changes_view, column_view, create_table, create_table_view, drop_table, foreign_key_view, not_null, primary_key, table_view,
    ChangeView, ColumnSpec, ColumnType, ColumnView, ForeignKeySpec, ForeignKeyView, SchemaChange,
    TableView,
};
use crate::text::owned;

verus! {

pub struct Migration;

/// The columns of `member`.
pub open spec fn table_columns() -> Seq<ColumnView> {
    seq![
        primary_key(not_null(column_view("id"@, ColumnType::Uuid))),
        not_null(column_view("user_id"@, ColumnType::Uuid)),
        not_null(column_view("is_admin"@, ColumnType::Boolean)),
    ]
}

/// The foreign keys of `member`.
pub open spec fn table_foreign_keys() -> Seq<ForeignKeyView> {
    seq![
        foreign_key_view("fk_group_id"@, "member"@, "group_id"@, "group"@, "id"@),
        foreign_key_view("fk_user_id"@, "member"@, "user_id"@, "user"@, "id"@),
    ]
}

/// The statements going up: create `member` if it does not exist.
pub open spec fn up_changes() -> Seq<ChangeView> {
    seq![create_table_view("member"@, table_columns(), table_foreign_keys())]
}

/// The statements going down: drop `member`.
pub open spec fn down_changes() -> Seq<ChangeView> {
    seq![ChangeView::DropTable("member"@)]
}

impl Migration {
    pub fn name(&self) -> (n: String)
        ensures
            n@ == "m20240914_135509_create_member"@,
    {
        owned("m20240914_135509_create_member")
    }

    pub fn up(&self) -> (r: Vec<SchemaChange>)
        ensures
            changes_view(r@) == up_changes(),
    {
        let columns = vec![
            ColumnSpec::new("id", ColumnType::Uuid).not_null().primary_key(),
            ColumnSpec::new("user_id", ColumnType::Uuid).not_null(),
            ColumnSpec::new("is_admin", ColumnType::Boolean).not_null(),
        ];
        let keys: Vec<ForeignKeySpec> = vec![
            ForeignKeySpec::new("fk_group_id", "member", "group_id", "group", "id"),
            ForeignKeySpec::new("fk_user_id", "member", "user_id", "user", "id"),
        ];
        assert(columns@.map_values(|c: ColumnSpec| c@) =~= table_columns());
        assert(keys@.map_values(|k: ForeignKeySpec| k@) =~= table_foreign_keys());
        let r = vec![create_table("member", columns, keys)];
        assert(changes_view(r@) =~= up_changes());
        r
    }

    pub fn down(&self) -> (r: Vec<SchemaChange>)
        ensures
            changes_view(r@) == down_changes(),
    {
        let r = vec![drop_table("member")];
        assert(changes_view(r@) =~= down_changes());
        r
    }
}

/// Going up is refused on every schema without a `member` table: the key `fk_group_id`
/// is on a column `group_id` that the new table does not have. (Where the table exists
/// already, going up changes nothing.)
pub proof fn up_is_refused(s: Seq<TableState>)
    requires
        table_index(s, "member"@) < 0,
    ensures
        !goes_up(s, up_changes()),
{
    lemma_single_change(s, up_changes()[0]);
    let t = table_view("member"@, table_columns(), table_foreign_keys());
    reveal_strlit("id");
    reveal_strlit("user_id");
    reveal_strlit("is_admin");
    reveal_strlit("group_id");
    let cs = t.columns;
    assert(cs.last().name[0] != "group_id"@[0]);
    assert(cs.drop_last().last().name[0] != "group_id"@[0]);
    assert(cs.drop_last().drop_last().last().name[0] != "group_id"@[0]);
    assert(cs.drop_last().drop_last().drop_last().len() == 0);
    assert(column_index(cs.drop_last().drop_last().drop_last(), "group_id"@) == -1);
    assert(cs.drop_last().drop_last().last().name != "group_id"@);
    assert(column_index(cs.drop_last().drop_last(), "group_id"@) < 0);
    assert(column_index(cs.drop_last(), "group_id"@) < 0);
    assert(column_index(t.columns, "group_id"@) < 0);
    assert(!new_key_resolves(s, t, t.foreign_keys[0]));
}


/// Going up creates `member` if it does not exist, with the columns id UUID NOT NULL PRIMARY KEY, user_id UUID NOT NULL, is_admin BOOLEAN NOT NULL
/// and the foreign keys listed below, in this order; going down drops `member`.
pub proof fn declares_the_table()
    ensures
        up_changes() == seq![ChangeView::CreateTable(TableView {
            name: "member"@,
            if_not_exists: true,
            columns: seq![
                ColumnView { name: "id"@, ty: ColumnType::Uuid, not_null: true, primary_key: true, unique: false, default: None },
                ColumnView { name: "user_id"@, ty: ColumnType::Uuid, not_null: true, primary_key: false, unique: false, default: None },
                ColumnView { name: "is_admin"@, ty: ColumnType::Boolean, not_null: true, primary_key: false, unique: false, default: None },
            ],
            foreign_keys: seq![
                ForeignKeyView { name: "fk_group_id"@, from_table: "member"@, from_column: "group_id"@, to_table: "group"@, to_column: "id"@ },
                ForeignKeyView { name: "fk_user_id"@, from_table: "member"@, from_column: "user_id"@, to_table: "user"@, to_column: "id"@ },
            ],
        })],
        down_changes() == seq![ChangeView::DropTable("member"@)],
{
}

} // verus!
