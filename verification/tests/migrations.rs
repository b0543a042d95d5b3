use unei::migration::m20240914_135509_create_member as create_member;
use unei::migration::m20240914_140343_create_group as create_group;
use unei::migration::m20240915_113446_add_theme_to_group as add_theme;
use unei::migration::m20240915_125941_create_session as create_session;
use unei::migration::m20240915_134829_remove_member_id_from_group as remove_member_id;
use unei::migration::m20240915_145308_add_group_id_to_member as add_group_id;
use unei::migration::m20240915_231848_create_reaction as create_reaction;
use unei::migration::schema::{AlterOp, ColumnSpec, ColumnType, ForeignKeySpec, SchemaChange, TableSpec};
use unei::migration::Migrator;

fn column(name: &str, ty: ColumnType, not_null: bool, primary_key: bool) -> ColumnSpec {
    ColumnSpec { name: name.to_string(), ty, not_null, primary_key, unique: false, default: None }
}

fn key(name: &str, from_table: &str, from_column: &str, to_table: &str) -> ForeignKeySpec {
    ForeignKeySpec {
        name: name.to_string(),
        from_table: from_table.to_string(),
        from_column: from_column.to_string(),
        to_table: to_table.to_string(),
        to_column: "id".to_string(),
    }
}

#[test]
fn migrator_applies_five_migrations_in_order() {
    assert_eq!(
        Migrator::migrations(),
        vec![
            "m20240914_134946_create_user",
            "m20240914_135509_create_member",
            "m20240914_140343_create_group",
            "m20240914_145822_create_tag",
            "m20240914_153249_create_reaction",
        ]
    );
}

#[test]
fn member_table_columns_and_keys() {
    let m = create_member::Migration;
    assert_eq!(m.name(), "m20240914_135509_create_member");
    assert_eq!(
        m.up(),
        vec![SchemaChange::CreateTable(TableSpec {
            name: "member".to_string(),
            if_not_exists: true,
            columns: vec![
                column("id", ColumnType::Uuid, true, true),
                column("user_id", ColumnType::Uuid, true, false),
                column("is_admin", ColumnType::Boolean, true, false),
            ],
            foreign_keys: vec![key("fk_group_id", "member", "group_id", "group"), key("fk_user_id", "member", "user_id", "user")],
        })]
    );
    assert_eq!(m.down(), vec![SchemaChange::DropTable("member".to_string())]);
}

#[test]
fn group_table_starts_with_a_nullable_icon() {
    let up = create_group::Migration.up();
    match &up[0] {
        SchemaChange::CreateTable(t) => {
            assert_eq!(t.name, "group");
            assert_eq!(t.columns.len(), 4);
            assert_eq!(t.columns[3], column("icon_path", ColumnType::VarChar, false, false));
            assert_eq!(t.foreign_keys, vec![key("fk_member_id", "group", "member_id", "member")]);
        }
        other => panic!("expected a table creation, got {other:?}"),
    }
}

#[test]
fn session_keys_are_unique() {
    match &create_session::Migration.up()[0] {
        SchemaChange::CreateTable(t) => {
            let mut expected = column("session_id", ColumnType::VarChar, true, false);
            expected.unique = true;
            assert_eq!(t.columns[1], expected);
        }
        other => panic!("expected a table creation, got {other:?}"),
    }
}

#[test]
fn second_reaction_table_has_no_foreign_key() {
    match &create_reaction::Migration.up()[0] {
        SchemaChange::CreateTable(t) => {
            assert_eq!(t.columns.len(), 2);
            assert!(t.foreign_keys.is_empty());
        }
        other => panic!("expected a table creation, got {other:?}"),
    }
}

#[test]
fn theme_defaults_to_white() {
    let mut theme = column("theme", ColumnType::VarChar, true, false);
    theme.default = Some("#ffffff".to_string());
    assert_eq!(
        add_theme::Migration.up(),
        vec![SchemaChange::AlterTable { table: "group".to_string(), ops: vec![AlterOp::AddColumn(theme)] }]
    );
    assert_eq!(
        add_theme::Migration.down(),
        vec![SchemaChange::AlterTable { table: "group".to_string(), ops: vec![AlterOp::DropColumn("theme".to_string())] }]
    );
}

#[test]
fn member_id_moves_out_of_group() {
    assert_eq!(
        remove_member_id::Migration.up(),
        vec![SchemaChange::AlterTable { table: "group".to_string(), ops: vec![AlterOp::DropColumn("member_id".to_string())] }]
    );
    assert_eq!(
        remove_member_id::Migration.down(),
        vec![SchemaChange::AlterTable {
            table: "group".to_string(),
            ops: vec![AlterOp::AddColumn(column("member_id", ColumnType::Uuid, true, false))],
        }]
    );
}

#[test]
fn members_get_their_group() {
    assert_eq!(
        add_group_id::Migration.up(),
        vec![SchemaChange::AlterTable {
            table: "member".to_string(),
            ops: vec![
                AlterOp::AddColumn(column("group_id", ColumnType::Uuid, true, false)),
                AlterOp::AddForeignKey(key("fk_group_id", "member", "group_id", "group")),
            ],
        }]
    );
    assert_eq!(
        add_group_id::Migration.down(),
        vec![SchemaChange::AlterTable {
            table: "member".to_string(),
            ops: vec![AlterOp::DropColumn("group_id".to_string()), AlterOp::DropForeignKey("fk_group_id".to_string())],
        }]
    );
}
