//! What a sequence of schema statements does to a schema, in the model of `schema`:
//! a list of tables in creation order, each with its columns, its named foreign keys, and
//! whether it holds rows. The model follows PostgreSQL where these statements meet:
//! a foreign key must go from a column of its table to a column of an existing table;
//! dropping a column drops the keys on it; a column or table that another table's key
//! refers to cannot be dropped; a `NOT NULL` column without a default cannot be added to a
//! table that holds rows.

use vstd::prelude::*;
use crate::migration::schema::{AlterOpView, ChangeView, ColumnView, ForeignKeyView, TableView};

verus! {

/// A table as it stands in a schema.
pub struct TableState {
    pub name: Seq<char>,
    pub columns: Seq<ColumnView>,
    pub foreign_keys: Seq<ForeignKeyView>,
    pub has_rows: bool,
}

/// The table `CREATE TABLE` makes: empty.
pub open spec fn created(t: TableView) -> TableState {
    TableState { name: t.name, columns: t.columns, foreign_keys: t.foreign_keys, has_rows: false }
}

/// The position of the last table called `name`, or -1.
pub open spec fn table_index(s: Seq<TableState>, name: Seq<char>) -> int
    decreases s.len(),
{
    if s.len() == 0 {
        -1
    } else if s.last().name == name {
        s.len() - 1
    } else {
        table_index(s.drop_last(), name)
    }
}

/// The position of the last column called `name`, or -1.
pub open spec fn column_index(cs: Seq<ColumnView>, name: Seq<char>) -> int
    decreases cs.len(),
{
    if cs.len() == 0 {
        -1
    } else if cs.last().name == name {
        cs.len() - 1
    } else {
        column_index(cs.drop_last(), name)
    }
}

/// The position of the last foreign key called `name`, or -1.
pub open spec fn key_index(ks: Seq<ForeignKeyView>, name: Seq<char>) -> int
    decreases ks.len(),
{
    if ks.len() == 0 {
        -1
    } else if ks.last().name == name {
        ks.len() - 1
    } else {
        key_index(ks.drop_last(), name)
    }
}

/// The keys that remain when the column `column` is dropped: those not on it.
pub open spec fn keys_without_column(ks: Seq<ForeignKeyView>, column: Seq<char>) -> Seq<ForeignKeyView>
    decreases ks.len(),
{
    if ks.len() == 0 {
        ks
    } else {
        let rest = keys_without_column(ks.drop_last(), column);
        if ks.last().from_column == column { rest } else { rest.push(ks.last()) }
    }
}

/// The table `table` exists in `s` and has a column `column`.
pub open spec fn column_exists(s: Seq<TableState>, table: Seq<char>, column: Seq<char>) -> bool {
    table_index(s, table) >= 0 && column_index(s[table_index(s, table)].columns, column) >= 0
}

/// A table other than `table` has a foreign key to `table`.
pub open spec fn referred_by_other(s: Seq<TableState>, table: Seq<char>) -> bool {
    exists|i: int, j: int|
        0 <= i < s.len() && s[i].name != table && 0 <= j < s[i].foreign_keys.len()
            && (#[trigger] s[i].foreign_keys[j]).to_table == table
}

/// A table other than `table` has a foreign key to the column `column` of `table`.
pub open spec fn column_referred_by_other(s: Seq<TableState>, table: Seq<char>, column: Seq<char>) -> bool {
    exists|i: int, j: int|
        0 <= i < s.len() && s[i].name != table && 0 <= j < s[i].foreign_keys.len()
            && (#[trigger] s[i].foreign_keys[j]).to_table == table
            && s[i].foreign_keys[j].to_column == column
}

/// Every foreign key of `s` goes from a column of its own table to a column of an
/// existing table: the state every successful statement leaves behind.
pub open spec fn keys_resolved(s: Seq<TableState>) -> bool {
    forall|i: int, j: int|
        0 <= i < s.len() && 0 <= j < s[i].foreign_keys.len() ==> {
            let k = #[trigger] s[i].foreign_keys[j];
            &&& column_index(s[i].columns, k.from_column) >= 0
            &&& column_exists(s, k.to_table, k.to_column)
        }
}

/// A key of the new table `t` goes from one of its columns to one of its own columns or
/// to a column of an existing table.
pub open spec fn new_key_resolves(s: Seq<TableState>, t: TableView, k: ForeignKeyView) -> bool {
    &&& column_index(t.columns, k.from_column) >= 0
    &&& (k.to_table == t.name && column_index(t.columns, k.to_column) >= 0)
        || column_exists(s, k.to_table, k.to_column)
}

/// One `ALTER TABLE` change to the table `t` of the schema `s`; `None` where PostgreSQL
/// refuses it.
pub open spec fn apply_op(s: Seq<TableState>, t: TableState, op: AlterOpView) -> Option<TableState> {
    match op {
        AlterOpView::AddColumn(c) => if column_index(t.columns, c.name) >= 0
            || (c.not_null && c.default is None && t.has_rows) {
            None
        } else {
            Some(TableState { columns: t.columns.push(c), ..t })
        },
        AlterOpView::DropColumn(n) => {
            let i = column_index(t.columns, n);
            if i < 0 || column_referred_by_other(s, t.name, n) {
                None
            } else {
                Some(TableState {
                    columns: t.columns.remove(i),
                    foreign_keys: keys_without_column(t.foreign_keys, n),
                    ..t
                })
            }
        },
        AlterOpView::AddForeignKey(k) => if key_index(t.foreign_keys, k.name) >= 0
            || column_index(t.columns, k.from_column) < 0
            || !column_exists(s, k.to_table, k.to_column) {
            None
        } else {
            Some(TableState { foreign_keys: t.foreign_keys.push(k), ..t })
        },
        AlterOpView::DropForeignKey(n) => {
            let i = key_index(t.foreign_keys, n);
            if i < 0 { None } else { Some(TableState { foreign_keys: t.foreign_keys.remove(i), ..t }) }
        },
    }
}

/// The changes of one `ALTER TABLE`, in order.
pub open spec fn apply_ops(s: Seq<TableState>, t: TableState, ops: Seq<AlterOpView>) -> Option<TableState>
    decreases ops.len(),
{
    if ops.len() == 0 {
        Some(t)
    } else {
        match apply_op(s, t, ops[0]) {
            Some(t2) => apply_ops(s, t2, ops.drop_first()),
            None => None,
        }
    }
}

/// One statement. Creating a table that exists is an error unless `IF NOT EXISTS` is
/// given, in which case nothing changes; a new table's keys must resolve; dropping or
/// altering a missing table is an error, and so is dropping a table another table refers to.
pub open spec fn apply_change(s: Seq<TableState>, c: ChangeView) -> Option<Seq<TableState>> {
    match c {
        ChangeView::CreateTable(t) => if table_index(s, t.name) >= 0 {
            if t.if_not_exists { Some(s) } else { None }
        } else if forall|j: int| 0 <= j < t.foreign_keys.len() ==> new_key_resolves(s, t, #[trigger] t.foreign_keys[j]) {
            Some(s.push(created(t)))
        } else {
            None
        },
        ChangeView::DropTable(n) => {
            let i = table_index(s, n);
            if i < 0 || referred_by_other(s, n) { None } else { Some(s.remove(i)) }
        },
        ChangeView::AlterTable { table, ops } => {
            let i = table_index(s, table);
            if i < 0 {
                None
            } else {
                match apply_ops(s, s[i], ops) {
                    Some(t) => Some(s.update(i, t)),
                    None => None,
                }
            }
        },
    }
}

/// A sequence of statements, in order; the first error stops it.
pub open spec fn apply_changes(s: Seq<TableState>, cs: Seq<ChangeView>) -> Option<Seq<TableState>>
    decreases cs.len(),
{
    if cs.len() == 0 {
        Some(s)
    } else {
        match apply_change(s, cs[0]) {
            Some(s2) => apply_changes(s2, cs.drop_first()),
            None => None,
        }
    }
}

/// Going up from `s` succeeds, and going down again gives `s` back.
pub open spec fn down_restores(s: Seq<TableState>, up: Seq<ChangeView>, down: Seq<ChangeView>) -> bool {
    &&& apply_changes(s, up) is Some
    &&& apply_changes(apply_changes(s, up).unwrap(), down) == Some(s)
}

/// Going up from `s` succeeds.
pub open spec fn goes_up(s: Seq<TableState>, up: Seq<ChangeView>) -> bool {
    apply_changes(s, up) is Some
}

/// A single statement does what `apply_change` says.
pub proof fn lemma_single_change(s: Seq<TableState>, c: ChangeView)
    ensures
        apply_changes(s, seq![c]) == apply_change(s, c),
{
    assert(seq![c].drop_first() =~= Seq::<ChangeView>::empty());
    reveal_with_fuel(apply_changes, 2);
}

/// A single table change does what `apply_op` says.
pub proof fn lemma_single_op(s: Seq<TableState>, t: TableState, op: AlterOpView)
    ensures
        apply_ops(s, t, seq![op]) == apply_op(s, t, op),
{
    assert(seq![op].drop_first() =~= Seq::<AlterOpView>::empty());
    reveal_with_fuel(apply_ops, 2);
}

/// Two table changes, one after the other.
pub proof fn lemma_two_ops(s: Seq<TableState>, t: TableState, a: AlterOpView, b: AlterOpView)
    ensures
        apply_ops(s, t, seq![a, b]) == match apply_op(s, t, a) {
            Some(t2) => apply_op(s, t2, b),
            None => None,
        },
{
    assert(seq![a, b].drop_first() =~= seq![b]);
    assert(seq![b].drop_first() =~= Seq::<AlterOpView>::empty());
    reveal_with_fuel(apply_ops, 3);
}

/// `table_index` is -1 or the position of a table called `n`.
pub proof fn lemma_table_index_bounds(s: Seq<TableState>, n: Seq<char>)
    ensures
        -1 <= table_index(s, n) < s.len(),
        table_index(s, n) >= 0 ==> s[table_index(s, n)].name == n,
        table_index(s, n) < 0 ==> forall|i: int| 0 <= i < s.len() ==> (#[trigger] s[i]).name != n,
    decreases s.len(),
{
    if s.len() > 0 {
        lemma_table_index_bounds(s.drop_last(), n);
        if table_index(s, n) < 0 {
            assert forall|i: int| 0 <= i < s.len() implies (#[trigger] s[i]).name != n by {
                if i < s.len() - 1 {
                    assert(s[i] == s.drop_last()[i]);
                }
            }
        }
    }
}

/// `column_index` is -1 or the position of a column called `n`.
pub proof fn lemma_column_index_bounds(cs: Seq<ColumnView>, n: Seq<char>)
    ensures
        -1 <= column_index(cs, n) < cs.len(),
        column_index(cs, n) >= 0 ==> cs[column_index(cs, n)].name == n,
        column_index(cs, n) < 0 ==> forall|i: int| 0 <= i < cs.len() ==> (#[trigger] cs[i]).name != n,
    decreases cs.len(),
{
    if cs.len() > 0 {
        lemma_column_index_bounds(cs.drop_last(), n);
        if column_index(cs, n) < 0 {
            assert forall|i: int| 0 <= i < cs.len() implies (#[trigger] cs[i]).name != n by {
                if i < cs.len() - 1 {
                    assert(cs[i] == cs.drop_last()[i]);
                }
            }
        }
    }
}

/// Replacing the last table called `n` by another table called `n` keeps its position.
pub proof fn lemma_table_index_update(s: Seq<TableState>, n: Seq<char>, t: TableState)
    requires
        table_index(s, n) >= 0,
        t.name == n,
    ensures
        table_index(s.update(table_index(s, n), t), n) == table_index(s, n),
    decreases s.len(),
{
    let i = table_index(s, n);
    lemma_table_index_bounds(s, n);
    let s1 = s.update(i, t);
    if s.last().name != n {
        assert(s1.drop_last() =~= s.drop_last().update(i, t));
        lemma_table_index_update(s.drop_last(), n, t);
    }
}

/// An `ALTER TABLE` going down that turns the table back into what it was before the one
/// going up gives the schema back.
pub proof fn lemma_alter_then_alter(
    s: Seq<TableState>,
    table: Seq<char>,
    up: Seq<AlterOpView>,
    down: Seq<AlterOpView>,
    altered: TableState,
)
    requires
        table_index(s, table) >= 0,
        apply_ops(s, s[table_index(s, table)], up) == Some(altered),
        altered.name == table,
        apply_ops(s.update(table_index(s, table), altered), altered, down) == Some(s[table_index(s, table)]),
    ensures
        down_restores(
            s,
            seq![ChangeView::AlterTable { table, ops: up }],
            seq![ChangeView::AlterTable { table, ops: down }],
        ),
{
    let i = table_index(s, table);
    lemma_table_index_bounds(s, table);
    let s1 = s.update(i, altered);
    lemma_single_change(s, ChangeView::AlterTable { table, ops: up });
    lemma_single_change(s1, ChangeView::AlterTable { table, ops: down });
    lemma_table_index_update(s, table, altered);
    assert(s1.update(i, s[i]) =~= s);
}

/// The last column of a list, after the list is extended by a column, is that column.
pub proof fn lemma_column_pushed(cs: Seq<ColumnView>, c: ColumnView)
    ensures
        column_index(cs.push(c), c.name) == cs.len(),
        cs.push(c).remove(cs.len() as int) =~= cs,
{
    assert(cs.push(c).drop_last() =~= cs);
}

/// The last key of a list, after the list is extended by a key, is that key.
pub proof fn lemma_key_pushed(ks: Seq<ForeignKeyView>, k: ForeignKeyView)
    ensures
        key_index(ks.push(k), k.name) == ks.len(),
        ks.push(k).remove(ks.len() as int) =~= ks,
{
    assert(ks.push(k).drop_last() =~= ks);
}

/// Dropping a column keeps every key that is not on it, in order, and no key that is.
pub proof fn lemma_keys_without_column(ks: Seq<ForeignKeyView>, c: Seq<char>)
    ensures
        (forall|j: int| 0 <= j < ks.len() ==> (#[trigger] ks[j]).from_column != c)
            ==> keys_without_column(ks, c) == ks,
        forall|j: int| 0 <= j < keys_without_column(ks, c).len()
            ==> (#[trigger] keys_without_column(ks, c)[j]).from_column != c,
        forall|n: Seq<char>| key_index(ks, n) < 0 ==> #[trigger] key_index(keys_without_column(ks, c), n) < 0,
        keys_without_column(ks, c).len() <= ks.len(),
    decreases ks.len(),
{
    if ks.len() > 0 {
        let init = ks.drop_last();
        lemma_keys_without_column(init, c);
        let rest = keys_without_column(init, c);
        if forall|j: int| 0 <= j < ks.len() ==> (#[trigger] ks[j]).from_column != c {
            assert forall|j: int| 0 <= j < init.len() implies (#[trigger] init[j]).from_column != c by {
                assert(init[j] == ks[j]);
            }
            assert(ks.last() == ks[ks.len() - 1]);
            assert(rest.push(ks.last()) =~= ks);
        }
        assert forall|n: Seq<char>| key_index(ks, n) < 0 implies #[trigger] key_index(keys_without_column(ks, c), n) < 0 by {
            assert(key_index(init, n) < 0);
            assert(key_index(keys_without_column(init, c), n) < 0);
            if ks.last().from_column != c {
                assert(keys_without_column(ks, c) == rest.push(ks.last()));
                assert(rest.push(ks.last()).drop_last() =~= rest);
                assert(rest.push(ks.last()).last() == ks.last());
            } else {
                assert(keys_without_column(ks, c) == rest);
            }
        }
        if ks.last().from_column != c {
            assert forall|j: int| 0 <= j < rest.push(ks.last()).len()
                implies (#[trigger] rest.push(ks.last())[j]).from_column != c by {
                if j < rest.len() {
                    assert(rest.push(ks.last())[j] == rest[j]);
                }
            }
        }
    }
}

/// Creating a table that is not there, then dropping it, gives back a schema whose keys
/// resolve: no other table can refer to the new one.
pub proof fn lemma_create_then_drop(s: Seq<TableState>, t: TableView)
    requires
        keys_resolved(s),
        table_index(s, t.name) < 0,
        apply_change(s, ChangeView::CreateTable(t)) is Some,
    ensures
        down_restores(s, seq![ChangeView::CreateTable(t)], seq![ChangeView::DropTable(t.name)]),
{
    let s1 = s.push(created(t));
    lemma_single_change(s, ChangeView::CreateTable(t));
    lemma_single_change(s1, ChangeView::DropTable(t.name));
    assert(s1.drop_last() =~= s);
    assert(table_index(s1, t.name) == s.len());
    assert(s1.remove(s.len() as int) =~= s);
    assert(!referred_by_other(s1, t.name)) by {
        if referred_by_other(s1, t.name) {
            let (i, j) = choose|i: int, j: int|
                0 <= i < s1.len() && s1[i].name != t.name && 0 <= j < s1[i].foreign_keys.len()
                    && (#[trigger] s1[i].foreign_keys[j]).to_table == t.name;
            assert(i < s.len());
            assert(s1[i] == s[i]);
            assert(s[i].foreign_keys[j].to_table == t.name);
            assert(column_exists(s, s[i].foreign_keys[j].to_table, s[i].foreign_keys[j].to_column));
        }
    }
}

} // verus!
