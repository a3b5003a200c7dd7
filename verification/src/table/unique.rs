//! The `UNIQUE` clauses of a table and its `CREATE TABLE` column list.
//!
//! Fields that share an explicit index name form one clause, opened by the
//! first of them; a field that is unique under a derived name forms a clause
//! of its own.

use vstd::prelude::*;
use vstd::string::StringExecFns;
use crate::backend::Backend;
use crate::table::{Table, TableField, TableFieldView, TableView, create_items, lemma_filter_step};
use crate::text::{join, join_strings, quoted};

verus! {

/// Holds of the fields that are unique under the explicit index name `name`.
pub open spec fn in_group(name: Seq<char>) -> spec_fn(TableFieldView) -> bool {
    |f: TableFieldView| f.unique == Some(Some(name))
}

/// The field at `i` opens a `UNIQUE` clause: it is unique, and no earlier
/// field shares its explicit index name.
pub open spec fn leads(fields: Seq<TableFieldView>, i: int) -> bool {
    match fields[i].unique {
        None => false,
        Some(None) => true,
        Some(Some(name)) => forall|j: int|
            0 <= j < i ==> (#[trigger] fields[j]).unique != Some(Some(name)),
    }
}

/// The columns of the fields, each between the dialect's quote characters.
pub open spec fn quoted_columns<B: Backend>(fields: Seq<TableFieldView>) -> Seq<Seq<char>> {
    Seq::new(fields.len(), |k: int| quoted(B::quote_char(), fields[k].column_name))
}

/// The fields listed by the clause that the field at `i` opens.
pub open spec fn group_of(fields: Seq<TableFieldView>, i: int) -> Seq<TableFieldView> {
    match fields[i].unique {
        Some(Some(name)) => fields.filter(in_group(name)),
        _ => seq![fields[i]],
    }
}

/// The clause that the field at `i` opens.
pub open spec fn unique_clause<B: Backend>(fields: Seq<TableFieldView>, i: int) -> Seq<char> {
    "UNIQUE ("@ + join(quoted_columns::<B>(group_of(fields, i)), ", "@) + ")"@
}

/// The positions below `n` that open a clause, in increasing order.
pub open spec fn leaders(fields: Seq<TableFieldView>, n: int) -> Seq<int>
    decreases n,
{
    if n <= 0 {
        Seq::empty()
    } else if leads(fields, n - 1) {
        leaders(fields, n - 1).push(n - 1)
    } else {
        leaders(fields, n - 1)
    }
}

/// The `UNIQUE` clauses of the fields, in the order in which their index
/// names are first seen.
pub open spec fn unique_clauses<B: Backend>(fields: Seq<TableFieldView>) -> Seq<Seq<char>> {
    let opening = leaders(fields, fields.len() as int);
    Seq::new(opening.len(), |k: int| unique_clause::<B>(fields, opening[k]))
}

impl TableFieldView {
    /// The name of the index that makes the field unique: the explicit name,
    /// or `<member>_uniq` where none was given.
    pub open spec fn index_name(self) -> Option<Seq<char>> {
        match self.unique {
            None => None,
            Some(None) => Some(self.field + "_uniq"@),
            Some(Some(name)) => Some(name),
        }
    }
}

impl TableView {
    /// The body of `CREATE TABLE`: the column clauses, then the `UNIQUE`
    /// clauses, one per line.
    pub open spec fn create_column_list<B: Backend>(self) -> Seq<char> {
        join(create_items::<B>(self.fields) + unique_clauses::<B>(self.fields), ",\n"@)
    }
}

/// The explicit index name of the field, if it has one.
fn explicit_name<B: Backend>(field: &TableField<B>) -> (name: Option<&String>)
    ensures
        match name {
            Some(n) => field@.unique == Some(Some(n@)),
            None => field@.unique is None || field@.unique == Some(None::<Seq<char>>),
        },
{
    match &field.unique {
        Some(Some(n)) => Some(n),
        _ => None,
    }
}

impl<B: Backend> TableField<B> {
    /// The name of the index that makes the field unique, if it is unique:
    /// the explicit name, or `<member>_uniq` where none was given.
    pub fn index_name(&self) -> (out: Option<String>)
        ensures
            out.deep_view() == self@.index_name(),
    {
        match &self.unique {
            None => None,
            Some(None) => {
                let mut name = self.field.clone();
                name.append("_uniq");
                Some(name)
            },
            Some(Some(name)) => Some(name.clone()),
        }
    }
}

impl<B: Backend> Table<B> {
    /// Whether the field at `i` opens a `UNIQUE` clause.
    pub fn opens_unique_clause(&self, i: usize) -> (b: bool)
        requires
            i < self.fields.len(),
        ensures
            b == leads(self@.fields, i as int),
    {
        let ghost all = self@.fields;
        match &self.fields[i].unique {
            None => false,
            Some(None) => true,
            Some(Some(name)) => {
                let mut j: usize = 0;
                assert(all[i as int] == self.fields[i as int]@);
                while j < i
                    invariant
                        j <= i,
                        i < self.fields.len(),
                        all == self@.fields,
                        all[i as int].unique == Some(Some(name@)),
                        forall|k: int| 0 <= k < j ==> (#[trigger] all[k]).unique != Some(Some(name@)),
                    decreases i - j,
                {
                    match explicit_name(&self.fields[j]) {
                        Some(other) => {
                            if *other == *name {
                                assert(all[j as int] == self.fields[j as int]@);
                                assert(all[j as int].unique == Some(Some(name@)));
                                return false;
                            }
                        },
                        None => {},
                    }
                    assert(all[j as int] == self.fields[j as int]@);
                    j += 1;
                }
                true
            },
        }
    }

    /// The fields listed by the clause that the field at `i` opens.
    fn unique_group(&self, i: usize) -> (out: Vec<&TableField<B>>)
        requires
            i < self.fields.len(),
        ensures
            out.deep_view() == group_of(self@.fields, i as int),
    {
        let ghost all = self@.fields;
        let mut out: Vec<&TableField<B>> = Vec::new();
        match explicit_name(&self.fields[i]) {
            None => {
                out.push(&self.fields[i]);
                assert(out.deep_view() =~= seq![all[i as int]]);
            },
            Some(name) => {
                let ghost pred = in_group(name@);
                let mut k: usize = 0;
                proof {
                    reveal(Seq::filter);
                    assert(out.deep_view() =~= all.take(0).filter(pred));
                }
                while k < self.fields.len()
                    invariant
                        k <= self.fields.len(),
                        all == self@.fields,
                        pred == in_group(name@),
                        out.deep_view() == all.take(k as int).filter(pred),
                    decreases self.fields.len() - k,
                {
                    let ghost before = out.deep_view();
                    proof {
                        lemma_filter_step(all, pred, k as int);
                    }
                    let same = match explicit_name(&self.fields[k]) {
                        Some(other) => *other == *name,
                        None => false,
                    };
                    if same {
                        out.push(&self.fields[k]);
                        assert(out.deep_view() =~= before.push(self.fields[k as int]@));
                    }
                    k += 1;
                }
                assert(all.take(k as int) =~= all);
            },
        }
        out
    }

    /// The clause that the field at `i` opens.
    fn unique_clause(&self, i: usize) -> (out: String)
        requires
            i < self.fields.len(),
        ensures
            out@ == unique_clause::<B>(self@.fields, i as int),
    {
        let group = self.unique_group(i);
        let mut columns: Vec<String> = Vec::new();
        let mut k: usize = 0;
        while k < group.len()
            invariant
                k <= group.len(),
                columns.len() == k,
                forall|m: int|
                    0 <= m < k ==> columns[m]@ == quoted(B::quote_char(), group[m]@.column_name),
            decreases group.len() - k,
        {
            let mut column = String::from_str(B::quote());
            column.append(group[k].column_name.as_str());
            column.append(B::quote());
            columns.push(column);
            k += 1;
        }
        assert(columns.deep_view() =~= quoted_columns::<B>(group.deep_view()));
        proof {
            reveal_strlit(", ");
        }
        let mut out = String::from_str("UNIQUE (");
        out.append(join_strings(&columns, ", ").as_str());
        out.append(")");
        out
    }

    /// The body of `CREATE TABLE`: one column clause per field in declared
    /// order, then one `UNIQUE` clause per index in first-seen order, one
    /// clause per line.
    pub fn create_column_list(&self) -> (out: String)
        requires
            self@.column_types_known(),
        ensures
            out@ == self@.create_column_list::<B>(),
    {
        let ghost all = self@.fields;
        let mut clauses: Vec<String> = Vec::new();
        let mut i: usize = 0;
        while i < self.fields.len()
            invariant
                i <= self.fields.len(),
                all == self@.fields,
                self@.column_types_known(),
                clauses.len() == i,
                forall|k: int| 0 <= k < i ==> clauses[k]@ == all[k].create_text::<B>(),
            decreases self.fields.len() - i,
        {
            assert(all[i as int] == self.fields[i as int]@);
            clauses.push(self.fields[i].fmt_for_create());
            i += 1;
        }
        let ghost columns = clauses.deep_view();
        assert(columns =~= create_items::<B>(all));
        let mut i: usize = 0;
        let ghost mut opening: Seq<int> = Seq::empty();
        while i < self.fields.len()
            invariant
                i <= self.fields.len(),
                all == self@.fields,
                columns.len() == all.len(),
                opening == leaders(all, i as int),
                forall|k: int| 0 <= k < opening.len() ==> 0 <= #[trigger] opening[k] < all.len(),
                clauses.deep_view() == columns + Seq::new(
                    opening.len(),
                    |k: int| unique_clause::<B>(all, opening[k]),
                ),
            decreases self.fields.len() - i,
        {
            let ghost before = clauses.deep_view();
            if self.opens_unique_clause(i) {
                clauses.push(self.unique_clause(i));
                proof {
                    let grown = opening.push(i as int);
                    assert(clauses.deep_view() =~= before.push(unique_clause::<B>(all, i as int)));
                    assert(clauses.deep_view() =~= columns + Seq::new(
                        grown.len(),
                        |k: int| unique_clause::<B>(all, grown[k]),
                    ));
                    opening = grown;
                }
            }
            i += 1;
        }
        proof {
            reveal_strlit(",\n");
        }
        join_strings(&clauses, ",\n")
    }
}

} // verus!
