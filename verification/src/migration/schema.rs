//! The schema changes that migrations make, as values. `model` gives them a meaning.

use vstd::prelude::*;
use crate::text::owned;

verus! {

/// The type of a column.
#[derive(Debug, Clone, PartialEq, Eq)]
pub enum ColumnType {
    Uuid,
    /// A variable-length character string.
    VarChar,
    Boolean,
    Date,
}

/// The definition of a column.
#[derive(Debug, Clone, PartialEq, Eq)]
pub struct ColumnSpec {
    pub name: String,
    pub ty: ColumnType,
    pub not_null: bool,
    pub primary_key: bool,
    pub unique: bool,
    pub default: Option<String>,
}

/// A named foreign key from a column of one table to a column of another.
#[derive(Debug, Clone, PartialEq, Eq)]
pub struct ForeignKeySpec {
    pub name: String,
    pub from_table: String,
    pub from_column: String,
    pub to_table: String,
    pub to_column: String,
}

/// A table to create.
#[derive(Debug, Clone, PartialEq, Eq)]
pub struct TableSpec {
    pub name: String,
    /// Creating a table that exists already is then no error and changes nothing.
    pub if_not_exists: bool,
    pub columns: Vec<ColumnSpec>,
    pub foreign_keys: Vec<ForeignKeySpec>,
}

/// One change inside an `ALTER TABLE`.
#[derive(Debug, Clone, PartialEq, Eq)]
pub enum AlterOp {
    AddColumn(ColumnSpec),
    DropColumn(String),
    AddForeignKey(ForeignKeySpec),
    DropForeignKey(String),
}

/// One schema statement.
#[derive(Debug, Clone, PartialEq, Eq)]
pub enum SchemaChange {
    CreateTable(TableSpec),
    DropTable(String),
    AlterTable { table: String, ops: Vec<AlterOp> },
}

pub struct ColumnView {
    pub name: Seq<char>,
    pub ty: ColumnType,
    pub not_null: bool,
    pub primary_key: bool,
    pub unique: bool,
    pub default: Option<Seq<char>>,
}

pub struct ForeignKeyView {
    pub name: Seq<char>,
    pub from_table: Seq<char>,
    pub from_column: Seq<char>,
    pub to_table: Seq<char>,
    pub to_column: Seq<char>,
}

pub struct TableView {
    pub name: Seq<char>,
    pub if_not_exists: bool,
    pub columns: Seq<ColumnView>,
    pub foreign_keys: Seq<ForeignKeyView>,
}

pub enum AlterOpView {
    AddColumn(ColumnView),
    DropColumn(Seq<char>),
    AddForeignKey(ForeignKeyView),
    DropForeignKey(Seq<char>),
}

pub enum ChangeView {
    CreateTable(TableView),
    DropTable(Seq<char>),
    AlterTable { table: Seq<char>, ops: Seq<AlterOpView> },
}

impl View for ColumnSpec {
    type V = ColumnView;

    open spec fn view(&self) -> ColumnView {
        ColumnView {
            name: self.name@,
            ty: self.ty,
            not_null: self.not_null,
            primary_key: self.primary_key,
            unique: self.unique,
            default: match self.default {
                Some(d) => Some(d@),
                None => None,
            },
        }
    }
}

impl View for ForeignKeySpec {
    type V = ForeignKeyView;

    open spec fn view(&self) -> ForeignKeyView {
        ForeignKeyView {
            name: self.name@,
            from_table: self.from_table@,
            from_column: self.from_column@,
            to_table: self.to_table@,
            to_column: self.to_column@,
        }
    }
}

impl View for TableSpec {
    type V = TableView;

    open spec fn view(&self) -> TableView {
        TableView {
            name: self.name@,
            if_not_exists: self.if_not_exists,
            columns: self.columns@.map_values(|c: ColumnSpec| c@),
            foreign_keys: self.foreign_keys@.map_values(|k: ForeignKeySpec| k@),
        }
    }
}

impl View for AlterOp {
    type V = AlterOpView;

    open spec fn view(&self) -> AlterOpView {
        match self {
            AlterOp::AddColumn(c) => AlterOpView::AddColumn(c@),
            AlterOp::DropColumn(n) => AlterOpView::DropColumn(n@),
            AlterOp::AddForeignKey(k) => AlterOpView::AddForeignKey(k@),
            AlterOp::DropForeignKey(n) => AlterOpView::DropForeignKey(n@),
        }
    }
}

impl View for SchemaChange {
    type V = ChangeView;

    open spec fn view(&self) -> ChangeView {
        match self {
            SchemaChange::CreateTable(t) => ChangeView::CreateTable(t@),
            SchemaChange::DropTable(n) => ChangeView::DropTable(n@),
            SchemaChange::AlterTable { table, ops } => ChangeView::AlterTable {
                table: table@,
                ops: ops@.map_values(|o: AlterOp| o@),
            },
        }
    }
}

/// The statements of a migration step, as values.
pub open spec fn changes_view(changes: Seq<SchemaChange>) -> Seq<ChangeView> {
    changes.map_values(|c: SchemaChange| c@)
}

// Building blocks, named after the statement builder calls they stand for.

pub open spec fn column_view(name: Seq<char>, ty: ColumnType) -> ColumnView {
    ColumnView { name, ty, not_null: false, primary_key: false, unique: false, default: None }
}

pub open spec fn not_null(c: ColumnView) -> ColumnView {
    ColumnView { not_null: true, ..c }
}

pub open spec fn primary_key(c: ColumnView) -> ColumnView {
    ColumnView { primary_key: true, ..c }
}

pub open spec fn unique_key(c: ColumnView) -> ColumnView {
    ColumnView { unique: true, ..c }
}

pub open spec fn with_default(c: ColumnView, value: Seq<char>) -> ColumnView {
    ColumnView { default: Some(value), ..c }
}

pub open spec fn foreign_key_view(
    name: Seq<char>,
    from_table: Seq<char>,
    from_column: Seq<char>,
    to_table: Seq<char>,
    to_column: Seq<char>,
) -> ForeignKeyView {
    ForeignKeyView { name, from_table, from_column, to_table, to_column }
}

/// A table to create if it does not exist.
pub open spec fn table_view(
    name: Seq<char>,
    columns: Seq<ColumnView>,
    foreign_keys: Seq<ForeignKeyView>,
) -> TableView {
    TableView { name, if_not_exists: true, columns, foreign_keys }
}

/// `CREATE TABLE IF NOT EXISTS`.
pub open spec fn create_table_view(
    name: Seq<char>,
    columns: Seq<ColumnView>,
    foreign_keys: Seq<ForeignKeyView>,
) -> ChangeView {
    ChangeView::CreateTable(table_view(name, columns, foreign_keys))
}

impl ColumnSpec {
    /// A nullable column with no key and no default.
    pub fn new(name: &str, ty: ColumnType) -> (c: ColumnSpec)
        ensures
            c@ == column_view(name@, ty),
    {
        ColumnSpec { name: owned(name), ty, not_null: false, primary_key: false, unique: false, default: None }
    }

    pub fn not_null(self) -> (c: ColumnSpec)
        ensures
            c@ == not_null(self@),
    {
        ColumnSpec { not_null: true, ..self }
    }

    pub fn primary_key(self) -> (c: ColumnSpec)
        ensures
            c@ == primary_key(self@),
    {
        ColumnSpec { primary_key: true, ..self }
    }

    pub fn unique_key(self) -> (c: ColumnSpec)
        ensures
            c@ == unique_key(self@),
    {
        ColumnSpec { unique: true, ..self }
    }

    pub fn default(self, value: &str) -> (c: ColumnSpec)
        ensures
            c@ == with_default(self@, value@),
    {
        ColumnSpec { default: Some(owned(value)), ..self }
    }
}

impl ForeignKeySpec {
    pub fn new(name: &str, from_table: &str, from_column: &str, to_table: &str, to_column: &str) -> (k: ForeignKeySpec)
        ensures
            k@ == foreign_key_view(name@, from_table@, from_column@, to_table@, to_column@),
    {
        ForeignKeySpec {
            name: owned(name),
            from_table: owned(from_table),
            from_column: owned(from_column),
            to_table: owned(to_table),
            to_column: owned(to_column),
        }
    }
}

/// `CREATE TABLE IF NOT EXISTS name (columns, foreign keys)`.
pub fn create_table(name: &str, columns: Vec<ColumnSpec>, foreign_keys: Vec<ForeignKeySpec>) -> (c: SchemaChange)
    ensures
        c@ == create_table_view(
            name@,
            columns@.map_values(|c: ColumnSpec| c@),
            foreign_keys@.map_values(|k: ForeignKeySpec| k@),
        ),
{
    SchemaChange::CreateTable(TableSpec { name: owned(name), if_not_exists: true, columns, foreign_keys })
}

/// `DROP TABLE name`.
pub fn drop_table(name: &str) -> (c: SchemaChange)
    ensures
        c@ == ChangeView::DropTable(name@),
{
    SchemaChange::DropTable(owned(name))
}

/// `ALTER TABLE table ops`.
pub fn alter_table(table: &str, ops: Vec<AlterOp>) -> (c: SchemaChange)
    ensures
        c@ == (ChangeView::AlterTable { table: table@, ops: ops@.map_values(|o: AlterOp| o@) }),
{
    SchemaChange::AlterTable { table: owned(table), ops }
}

} // verus!
