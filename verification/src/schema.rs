//! Assembly of a table's schema from the rows describing its columns and
//! the rows describing its foreign keys.
//!
//! Columns are keyed by name: a later row with a name already seen replaces
//! the earlier one, and a foreign-key row attaches to the column of its name
//! (a later row for the same column replacing an earlier one). A foreign-key
//! row naming no column is ignored.

use vstd::prelude::*;
use crate::text::{unicode_uppercase, str_to_uppercase, str_eq};

verus! {

/// One column of a table schema: its name, its description and, when the
/// table declares one on it, its foreign key.
pub struct SchemaColumn<C, F> {
    /// The column's name.
    pub name: String,
    /// The column's description.
    pub column: C,
    /// The column's foreign key, if any.
    pub foreign_key: Option<F>,
}

/// The name-keyed map of `(name, value)` rows taken in order: a later row
/// with the same name replaces the earlier one.
pub open spec fn keyed<V>(rows: Seq<(String, V)>) -> Map<Seq<char>, V>
    decreases rows.len(),
{
    if rows.len() == 0 {
        Map::empty()
    } else {
        keyed(rows.drop_last()).insert(rows.last().0@, rows.last().1)
    }
}

/// The names of `cols` are pairwise distinct.
pub open spec fn distinct_names<C, F>(cols: Seq<SchemaColumn<C, F>>) -> bool {
    forall|i: int, j: int| 0 <= i < j < cols.len() ==> cols[i].name@ != cols[j].name@
}

/// `cols` has `k` among its names.
pub open spec fn has_name<C, F>(cols: Seq<SchemaColumn<C, F>>, k: Seq<char>) -> bool {
    exists|i: int| 0 <= i < cols.len() && #[trigger] cols[i].name@ == k
}

/// `cols` names each key of `m` exactly once, and nothing else.
pub open spec fn lists_keys<C, F, V>(cols: Seq<SchemaColumn<C, F>>, m: Map<Seq<char>, V>) -> bool {
    &&& distinct_names(cols)
    &&& forall|i: int| 0 <= i < cols.len() ==> m.contains_key(#[trigger] cols[i].name@)
    &&& forall|k: Seq<char>| #[trigger] m.contains_key(k) ==> has_name(cols, k)
}

/// The foreign key that the rows `fks` give the column named `k`: that of
/// the last row naming it, or `None`.
pub open spec fn foreign_key_of<F>(fks: Seq<(String, F)>, k: Seq<char>) -> Option<F> {
    if keyed(fks).contains_key(k) {
        Some(keyed(fks)[k])
    } else {
        None
    }
}

/// `cols` is the schema assembled from `rows` and `fks`: one entry per
/// column name, holding the last row of that name and its foreign key.
pub open spec fn assembled<C, F>(
    cols: Seq<SchemaColumn<C, F>>,
    rows: Seq<(String, C)>,
    fks: Seq<(String, F)>,
) -> bool {
    &&& lists_keys(cols, keyed(rows))
    &&& forall|i: int|
        0 <= i < cols.len() ==> {
            &&& #[trigger] cols[i].column == keyed(rows)[cols[i].name@]
            &&& cols[i].foreign_key == foreign_key_of(fks, cols[i].name@)
        }
}

/// Row `j` is the last of `rows` named `k`.
pub open spec fn last_named<V>(rows: Seq<(String, V)>, j: int, k: Seq<char>) -> bool {
    &&& 0 <= j < rows.len()
    &&& rows[j].0@ == k
    &&& forall|m: int| j < m < rows.len() ==> (#[trigger] rows[m]).0@ != k
}

/// The name-keyed map of rows holds, under each name it has, the value of
/// the last row of that name; and it has the name of every row.
pub proof fn lemma_keyed_holds_last_row<V>(rows: Seq<(String, V)>, k: Seq<char>)
    ensures
        keyed(rows).contains_key(k) <==> exists|j: int| 0 <= j < rows.len() && #[trigger] rows[j].0@ == k,
        keyed(rows).contains_key(k) ==> exists|j: int| #[trigger] last_named(rows, j, k) && keyed(rows)[k]
            == rows[j].1,
    decreases rows.len(),
{
    if rows.len() > 0 {
        let prefix = rows.drop_last();
        lemma_keyed_holds_last_row(prefix, k);
        let n = rows.len() - 1;
        if rows[n].0@ == k {
            assert(last_named(rows, n, k));
        } else {
            if keyed(prefix).contains_key(k) {
                let j = choose|j: int| #[trigger] last_named(prefix, j, k) && keyed(prefix)[k] == prefix[j].1;
                assert(prefix[j] == rows[j]);
                assert forall|m: int| j < m < rows.len() implies (#[trigger] rows[m]).0@ != k by {
                    if m < n {
                        assert(prefix[m] == rows[m]);
                    }
                }
                assert(last_named(rows, j, k));
            }
            if exists|j: int| 0 <= j < rows.len() && #[trigger] rows[j].0@ == k {
                let j = choose|j: int| 0 <= j < rows.len() && #[trigger] rows[j].0@ == k;
                assert(prefix[j] == rows[j]);
            }
            if exists|j: int| 0 <= j < prefix.len() && #[trigger] prefix[j].0@ == k {
                let j = choose|j: int| 0 <= j < prefix.len() && #[trigger] prefix[j].0@ == k;
                assert(prefix[j] == rows[j]);
            }
        }
    }
}

proof fn lemma_keyed_push<V>(rows: Seq<(String, V)>, e: (String, V))
    ensures
        keyed(rows.push(e)) == keyed(rows).insert(e.0@, e.1),
{
    assert(rows.push(e).drop_last() =~= rows);
}

/// The index of the entry of `cols` named `name`, if there is one.
fn find_name<C, F>(cols: &Vec<SchemaColumn<C, F>>, name: &String) -> (r: Option<usize>)
    ensures
        r matches Some(j) ==> j < cols.len() && cols@[j as int].name@ == name@,
        r is None ==> !has_name(cols@, name@),
{
    let mut j: usize = 0;
    while j < cols.len()
        invariant
            j <= cols.len(),
            forall|i: int| 0 <= i < j ==> cols@[i].name@ != name@,
        decreases cols.len() - j,
    {
        if cols[j].name == *name {
            return Some(j);
        }
        j = j + 1;
    }
    None
}

/// Collects `(name, column)` rows into one entry per name, a later row
/// replacing an earlier one of the same name; no entry has a foreign key.
fn collect_columns<C, F>(rows: Vec<(String, C)>) -> (cols: Vec<SchemaColumn<C, F>>)
    ensures
        assembled(cols@, rows@, Seq::empty()),
{
    let mut rows = rows;
    let ghost all = rows@;
    let ghost mut done: Seq<(String, C)> = Seq::empty();
    let mut cols: Vec<SchemaColumn<C, F>> = Vec::new();
    while rows.len() > 0
        invariant
            all == done + rows@,
            assembled(cols@, done, Seq::empty()),
            forall|i: int| 0 <= i < cols.len() ==> (#[trigger] cols@[i]).foreign_key is None,
        decreases rows.len(),
    {
        let ghost e = rows@[0];
        let ghost before = cols@;
        let (name, column) = rows.remove(0);
        proof {
            lemma_keyed_push(done, e);
            done = done.push(e);
            assert(all == done + rows@);
        }
        match find_name(&cols, &name) {
            Some(j) => {
                cols.set(j, SchemaColumn { name, column, foreign_key: None });
                assert forall|i: int| 0 <= i < cols.len() && i != j implies cols@[i] == before[i]
                    && before[i].name@ != e.0@ by {
                    if i < j {
                        assert(before[i].name@ != before[j as int].name@);
                    } else {
                        assert(before[j as int].name@ != before[i].name@);
                    }
                }
                assert forall|k: Seq<char>| #[trigger] keyed(done).contains_key(k) implies has_name(
                    cols@,
                    k,
                ) by {
                    if k != e.0@ {
                        let i = choose|i: int| 0 <= i < before.len() && #[trigger] before[i].name@ == k;
                        assert(cols@[i].name@ == k);
                    } else {
                        assert(cols@[j as int].name@ == k);
                    }
                }
            },
            None => {
                cols.push(SchemaColumn { name, column, foreign_key: None });
                assert forall|i: int| 0 <= i < before.len() implies cols@[i] == before[i]
                    && before[i].name@ != e.0@ by {}
                assert forall|k: Seq<char>| #[trigger] keyed(done).contains_key(k) implies has_name(
                    cols@,
                    k,
                ) by {
                    if k != e.0@ {
                        let i = choose|i: int| 0 <= i < before.len() && #[trigger] before[i].name@ == k;
                        assert(cols@[i].name@ == k);
                    } else {
                        assert(cols@[before.len() as int].name@ == k);
                    }
                }
            },
        }
        assert(keyed(Seq::<(String, F)>::empty()) =~= Map::empty());
    }
    proof {
        assert(done =~= all);
    }
    cols
}

/// Attaches each `(name, foreign key)` row to the entry of that name, a
/// later row replacing an earlier one; rows naming no entry are ignored.
fn attach_foreign_keys<C, F>(cols: &mut Vec<SchemaColumn<C, F>>, fks: Vec<(String, F)>)
    requires
        distinct_names(old(cols)@),
        forall|i: int| 0 <= i < old(cols).len() ==> (#[trigger] old(cols)@[i]).foreign_key is None,
    ensures
        final(cols).len() == old(cols).len(),
        forall|i: int|
            0 <= i < final(cols).len() ==> {
                &&& (#[trigger] final(cols)@[i]).name == old(cols)@[i].name
                &&& final(cols)@[i].column == old(cols)@[i].column
                &&& final(cols)@[i].foreign_key == foreign_key_of(fks@, final(cols)@[i].name@)
            },
{
    let mut fks = fks;
    let ghost all = fks@;
    let ghost start = cols@;
    let ghost mut done: Seq<(String, F)> = Seq::empty();
    while fks.len() > 0
        invariant
            all == done + fks@,
            cols.len() == start.len(),
            distinct_names(start),
            forall|i: int| 0 <= i < start.len() ==> (#[trigger] start[i]).foreign_key is None,
            forall|i: int|
                0 <= i < cols.len() ==> {
                    &&& (#[trigger] cols@[i]).name == start[i].name
                    &&& cols@[i].column == start[i].column
                    &&& cols@[i].foreign_key == foreign_key_of(done, cols@[i].name@)
                },
        decreases fks.len(),
    {
        let ghost e = fks@[0];
        let ghost before = cols@;
        let (name, fk) = fks.remove(0);
        proof {
            lemma_keyed_push(done, e);
            done = done.push(e);
            assert(all == done + fks@);
        }
        match find_name(cols, &name) {
            Some(j) => {
                let entry = cols.remove(j);
                cols.insert(
                    j,
                    SchemaColumn { name: entry.name, column: entry.column, foreign_key: Some(fk) },
                );
                assert forall|i: int| 0 <= i < cols.len() implies {
                    &&& (#[trigger] cols@[i]).name == start[i].name
                    &&& cols@[i].column == start[i].column
                    &&& cols@[i].foreign_key == foreign_key_of(done, cols@[i].name@)
                } by {
                    if i != j {
                        assert(cols@[i] == before[i]);
                        if i < j {
                            assert(start[i].name@ != start[j as int].name@);
                        } else {
                            assert(start[j as int].name@ != start[i].name@);
                        }
                    }
                }
            },
            None => {
                assert forall|i: int| 0 <= i < cols.len() implies {
                    &&& (#[trigger] cols@[i]).name == start[i].name
                    &&& cols@[i].column == start[i].column
                    &&& cols@[i].foreign_key == foreign_key_of(done, cols@[i].name@)
                } by {
                    assert(cols@[i] == before[i]);
                    assert(before[i].name@ != name@);
                    assert(keyed(done).contains_key(before[i].name@) == keyed(
                        done.drop_last(),
                    ).contains_key(before[i].name@));
                }
            },
        }
    }
    proof {
        assert(done =~= all);
    }
}

/// Assembles a schema: one entry per column name (the last row of that
/// name), each with the foreign key of the last foreign-key row naming it.
pub fn assemble_columns<C, F>(rows: Vec<(String, C)>, fks: Vec<(String, F)>) -> (cols: Vec<
    SchemaColumn<C, F>,
>)
    ensures
        assembled(cols@, rows@, fks@),
{
    let ghost r = rows@;
    let mut cols: Vec<SchemaColumn<C, F>> = collect_columns(rows);
    let ghost start = cols@;
    assert forall|i: int| 0 <= i < cols.len() implies (#[trigger] cols@[i]).foreign_key is None by {
        assert(cols@[i].column == keyed(r)[cols@[i].name@]);
    }
    attach_foreign_keys(&mut cols, fks);
    assert forall|i: int| 0 <= i < cols.len() implies cols@[i].name@ == start[i].name@ by {}
    assert forall|k: Seq<char>| #[trigger] keyed(r).contains_key(k) implies has_name(cols@, k) by {
        let i = choose|i: int| 0 <= i < start.len() && #[trigger] start[i].name@ == k;
        assert(cols@[i].name@ == k);
    }
    cols
}

} // verus!

verus! {

/// A foreign key as the catalog reports it: the constraint, the referenced
/// table and column, and the update and delete rules.
pub struct ForeignKeyRef<V> {
    /// The constraint's name.
    pub constraint_name: V,
    /// The referenced table.
    pub referenced_table: V,
    /// The referenced column.
    pub referenced_column: V,
    /// The `ON UPDATE` rule.
    pub on_update: V,
    /// The `ON DELETE` rule.
    pub on_delete: V,
}

/// The schema of one table: its name and its columns.
pub struct TableSchema<C, F> {
    /// The table's name.
    pub table: String,
    /// One entry per column name.
    pub columns: Vec<SchemaColumn<C, F>>,
}

/// A catalog `YES`/`NO` flag reads as set: its upper-case form is `YES`.
pub open spec fn is_yes(s: Seq<char>) -> bool {
    unicode_uppercase(s) == "YES"@
}

/// Whether a catalog flag is set: its upper-case form is `YES`.
pub fn flag_is_yes(s: &str) -> (b: bool)
    ensures
        b == is_yes(s@),
{
    let upper = str_to_uppercase(s);
    proof {
        reveal_strlit("YES");
    }
    str_eq(upper.as_str(), "YES")
}

} // verus!
