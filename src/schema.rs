use vstd::prelude::*;

verus! {

/// One row of the schema query's answer. A column's type and default value
/// are carried through as given (`V`); `notnull` and `pk` are the integer
/// values of those fields, when they are integers.
pub struct SchemaRow<V> {
    pub table_name: String,
    pub name: String,
    pub col_type: V,
    pub notnull: Option<i64>,
    pub pk: Option<i64>,
    pub dflt_value: V,
}

/// One column of the grouped schema.
#[derive(Debug, PartialEq, Eq)]
pub struct ColumnEntry<V> {
    pub table: String,
    pub column: String,
    pub col_type: V,
    pub nullable: bool,
    pub primary_key: bool,
    pub default: V,
}

/// The entry a row makes: nullable where `notnull` is 0, a primary key
/// where `pk` is 1.
pub open spec fn entry_of<V>(r: SchemaRow<V>) -> ColumnEntry<V> {
    ColumnEntry {
        table: r.table_name,
        column: r.name,
        col_type: r.col_type,
        nullable: r.notnull == Some(0i64),
        primary_key: r.pk == Some(1i64),
        default: r.dflt_value,
    }
}

pub open spec fn same_column<V>(e: ColumnEntry<V>, r: SchemaRow<V>) -> bool {
    e.table@ == r.table_name@ && e.column@ == r.name@
}

/// No two entries name the same column of the same table.
pub open spec fn keys_distinct<V>(es: Seq<ColumnEntry<V>>) -> bool {
    forall|i: int, j: int|
        0 <= i < j < es.len() ==> !(es[i].table@ == es[j].table@ && es[i].column@ == es[j].column@)
}

/// Adds a row: it replaces the entry of its (table, column), or else comes
/// last.
pub open spec fn add_row<V>(es: Seq<ColumnEntry<V>>, r: SchemaRow<V>) -> Seq<ColumnEntry<V>> {
    if exists|i: int| 0 <= i < es.len() && same_column(es[i], r) {
        let i = choose|i: int| 0 <= i < es.len() && same_column(es[i], r);
        es.update(i, entry_of(r))
    } else {
        es.push(entry_of(r))
    }
}

/// The grouped schema of `rows`: one entry per distinct (table, column), in
/// order of first appearance, each from the last row that names it.
pub open spec fn schema_of<V>(rows: Seq<SchemaRow<V>>) -> Seq<ColumnEntry<V>>
    decreases rows.len(),
{
    if rows.len() == 0 {
        Seq::empty()
    } else {
        add_row(schema_of(rows.drop_last()), rows.last())
    }
}

/// Groups the schema query's rows by table and column.
pub fn build_schema<V>(rows: Vec<SchemaRow<V>>) -> (s: Vec<ColumnEntry<V>>)
    ensures
        s@ == schema_of(rows@),
        keys_distinct(s@),
{
    let ghost all = rows@;
    let mut rest = rows;
    let mut entries: Vec<ColumnEntry<V>> = Vec::new();
    let ghost mut done: int = 0;
    while rest.len() > 0
        invariant
            0 <= done <= all.len(),
            rest@ == all.skip(done),
            entries@ == schema_of(all.take(done)),
            keys_distinct(entries@),
        decreases rest@.len(),
    {
        let row = rest.remove(0);
        assert(row == all[done]);
        assert(all.take(done + 1).drop_last() =~= all.take(done));
        let ghost es0 = entries@;
        let mut i: usize = 0;
        let mut found = false;
        while i < entries.len() && !found
            invariant
                entries@ == es0,
                i <= es0.len(),
                forall|j: int| 0 <= j < i ==> !same_column(#[trigger] es0[j], row),
                found ==> i < es0.len() && same_column(es0[i as int], row),
            decreases es0.len() - i + (if found { 0int } else { 1int }),
        {
            if entries[i].table == row.table_name && entries[i].column == row.name {
                found = true;
            } else {
                i = i + 1;
            }
        }
        let entry = ColumnEntry {
            table: row.table_name,
            column: row.name,
            col_type: row.col_type,
            nullable: row.notnull == Some(0i64),
            primary_key: row.pk == Some(1i64),
            default: row.dflt_value,
        };
        assert(entry == entry_of(all[done]));
        if found {
            entries[i] = entry;
            proof {
                let k = choose|k: int| 0 <= k < es0.len() && same_column(es0[k], all[done]);
                assert(k == i);
                assert(keys_distinct(entries@));
            }
        } else {
            entries.push(entry);
            proof {
                assert(!exists|k: int| 0 <= k < es0.len() && same_column(es0[k], all[done]));
                assert(keys_distinct(entries@));
            }
        }
        proof {
            done = done + 1;
        }
        assert(rest@ =~= all.skip(done));
    }
    assert(all.take(done) =~= all);
    entries
}

} // verus!
