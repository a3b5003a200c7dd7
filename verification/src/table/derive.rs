//! Everything that is generated for one mapped structure.

use vstd::prelude::*;
use crate::backend::Backend;
use crate::backend::common::accessors::{GetterFn, GetterFnView, SetterFn, SetterFnView, getters, setters};
use crate::backend::common::insert::{
    InsertImpl, InsertImplView, InsertStruct, InsertStructView, impl_insert, insert_struct,
};
use crate::backend::common::table::{TableImpl, TableImplView, impl_table};
use crate::error::SchemaError;
use crate::input::StructInput;
use crate::table::{Table, TableFieldView, TableView};
use crate::table::parse::{built, table_from};

verus! {

/// What is generated for a mapped structure.
pub struct Derived {
    pub impl_table: TableImpl,
    pub insert_struct: Option<InsertStruct>,
    pub impl_insert: Option<InsertImpl>,
    pub getters: Vec<GetterFn>,
    pub setters: Vec<SetterFn>,
    /// The members whose column is a reserved word: each deserves a warning.
    pub reserved: Vec<String>,
}

pub struct DerivedView {
    pub impl_table: TableImplView,
    pub insert_struct: Option<InsertStructView>,
    pub impl_insert: Option<InsertImplView>,
    pub getters: Seq<GetterFnView>,
    pub setters: Seq<SetterFnView>,
    pub reserved: Seq<Seq<char>>,
}

impl DeepView for Derived {
    type V = DerivedView;

    open spec fn deep_view(&self) -> DerivedView {
        DerivedView {
            impl_table: self.impl_table@,
            insert_struct: self.insert_struct.deep_view(),
            impl_insert: self.impl_insert.deep_view(),
            getters: self.getters.deep_view(),
            setters: self.setters.deep_view(),
            reserved: self.reserved.deep_view(),
        }
    }
}

impl View for Derived {
    type V = DerivedView;

    open spec fn view(&self) -> DerivedView {
        self.deep_view()
    }
}

/// The members among the first `n` fields whose column is reserved.
pub open spec fn reserved_members(fields: Seq<TableFieldView>, n: int) -> Seq<Seq<char>>
    decreases n,
{
    if n <= 0 {
        Seq::empty()
    } else if fields[n - 1].reserved_ident {
        reserved_members(fields, n - 1).push(fields[n - 1].field)
    } else {
        reserved_members(fields, n - 1)
    }
}

impl TableView {
    /// What is generated for the table.
    pub open spec fn derive<B: Backend>(self) -> DerivedView {
        DerivedView {
            impl_table: self.impl_table::<B>(),
            insert_struct: self.insert_struct(),
            impl_insert: self.impl_insert::<B>(),
            getters: self.getters::<B>(),
            setters: self.setters::<B>(),
            reserved: reserved_members(self.fields, self.fields.len() as int),
        }
    }
}

impl<B: Backend> Table<B> {
    /// The members whose column is a reserved word of the dialect, in
    /// declared order.
    pub fn reserved_fields(&self) -> (out: Vec<String>)
        ensures
            out.deep_view() == reserved_members(self@.fields, self@.fields.len() as int),
    {
        let ghost all = self@.fields;
        let mut out: Vec<String> = Vec::new();
        let mut i: usize = 0;
        assert(out.deep_view() =~= reserved_members(all, 0));
        while i < self.fields.len()
            invariant
                i <= self.fields.len(),
                all == self@.fields,
                out.deep_view() == reserved_members(all, i as int),
            decreases self.fields.len() - i,
        {
            let ghost before = out.deep_view();
            assert(all[i as int] == self.fields[i as int]@);
            if self.fields[i].reserved_ident {
                out.push(self.fields[i].field.clone());
                assert(out.deep_view() =~= before.push(all[i as int].field));
            }
            i += 1;
        }
        out
    }
}

/// Validates the declaration and generates everything for it: the table's
/// operations, the insert structure and operation, the lookups and the
/// setters. A declaration that is no schema fails as `Table::try_from` does,
/// and nothing is generated.
pub fn derive<B: Backend>(input: &StructInput) -> (r: Result<Derived, SchemaError>)
    ensures
        built(r) == match table_from::<B>(input@) {
            Ok(table) => Ok(table.derive::<B>()),
            Err(e) => Err(e),
        },
{
    let parsed = match Table::<B>::try_from(input) {
        Ok(table) => table,
        Err(e) => {
            return Err(e);
        },
    };
    Ok(
        Derived {
            impl_table: impl_table(&parsed),
            insert_struct: insert_struct(&parsed),
            impl_insert: impl_insert(&parsed),
            getters: getters(&parsed),
            setters: setters(&parsed),
            reserved: parsed.reserved_fields(),
        },
    )
}

} // verus!
