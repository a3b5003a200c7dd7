//! The schema: a table and its fields, and the column lists rendered from it.

use vstd::prelude::*;
use vstd::string::StringExecFns;
use std::marker::PhantomData;
use crate::attrs::{Getter, GetterView, Insertable, InsertableView};
use crate::backend::Backend;
use crate::text::{join, join_strings, quoted};


pub mod derive;
pub mod parse;
pub mod unique;

verus! {

/// One mapped structure.
pub struct Table<B: Backend> {
    pub ident: String,
    pub vis: String,
    pub table: String,
    pub id: TableField<B>,
    pub fields: Vec<TableField<B>>,
    pub insertable: Option<Insertable>,
    pub engine: Option<String>,
    pub charset: Option<String>,
    pub collation: Option<String>,
    pub syncable: bool,
}

/// One member of a mapped structure.
pub struct TableField<B: Backend> {
    pub field: String,
    pub ty: String,
    pub column_name: String,
    pub column_type: Option<String>,
    pub primary: bool,
    pub auto_increment: bool,
    pub allow_null: bool,
    pub unique: Option<Option<String>>,
    pub custom_type: bool,
    pub reserved_ident: bool,
    pub default: Option<String>,
    pub get_one: Option<Getter>,
    pub get_optional: Option<Getter>,
    pub get_many: Option<Getter>,
    pub set: Option<String>,
    pub _phantom: PhantomData<B>,
}

pub struct TableFieldView {
    pub field: Seq<char>,
    pub ty: Seq<char>,
    pub column_name: Seq<char>,
    pub column_type: Option<Seq<char>>,
    pub primary: bool,
    pub auto_increment: bool,
    pub allow_null: bool,
    pub unique: Option<Option<Seq<char>>>,
    pub custom_type: bool,
    pub reserved_ident: bool,
    pub default: Option<Seq<char>>,
    pub get_one: Option<GetterView>,
    pub get_optional: Option<GetterView>,
    pub get_many: Option<GetterView>,
    pub set: Option<Seq<char>>,
}

pub struct TableView {
    pub ident: Seq<char>,
    pub vis: Seq<char>,
    pub table: Seq<char>,
    pub id: TableFieldView,
    pub fields: Seq<TableFieldView>,
    pub insertable: Option<InsertableView>,
    pub engine: Option<Seq<char>>,
    pub charset: Option<Seq<char>>,
    pub collation: Option<Seq<char>>,
    pub syncable: bool,
}

impl<B: Backend> DeepView for TableField<B> {
    type V = TableFieldView;

    open spec fn deep_view(&self) -> TableFieldView {
        TableFieldView {
            field: self.field@,
            ty: self.ty@,
            column_name: self.column_name@,
            column_type: self.column_type.deep_view(),
            primary: self.primary,
            auto_increment: self.auto_increment,
            allow_null: self.allow_null,
            unique: self.unique.deep_view(),
            custom_type: self.custom_type,
            reserved_ident: self.reserved_ident,
            default: self.default.deep_view(),
            get_one: self.get_one.deep_view(),
            get_optional: self.get_optional.deep_view(),
            get_many: self.get_many.deep_view(),
            set: self.set.deep_view(),
        }
    }
}

impl<B: Backend> View for TableField<B> {
    type V = TableFieldView;

    open spec fn view(&self) -> TableFieldView {
        self.deep_view()
    }
}

impl<B: Backend> DeepView for Table<B> {
    type V = TableView;

    open spec fn deep_view(&self) -> TableView {
        TableView {
            ident: self.ident@,
            vis: self.vis@,
            table: self.table@,
            id: self.id@,
            fields: self.fields.deep_view(),
            insertable: self.insertable.deep_view(),
            engine: self.engine.deep_view(),
            charset: self.charset.deep_view(),
            collation: self.collation.deep_view(),
            syncable: self.syncable,
        }
    }
}

impl<B: Backend> View for Table<B> {
    type V = TableView;

    open spec fn view(&self) -> TableView {
        self.deep_view()
    }
}

/// Holds of the fields that are not called `id`.
pub open spec fn not_named(id: Seq<char>) -> spec_fn(TableFieldView) -> bool {
    |f: TableFieldView| f.field != id
}

/// Holds of the fields that the caller supplies on insert.
pub open spec fn supplied(id: Seq<char>) -> spec_fn(TableFieldView) -> bool {
    |f: TableFieldView| f.field != id && f.default is None
}

/// Holds of the fields that carry a default value.
pub open spec fn defaulted() -> spec_fn(TableFieldView) -> bool {
    |f: TableFieldView| f.default is Some
}

impl TableFieldView {
    /// The column as it is written in a statement: quoted if it is reserved.
    pub open spec fn column_text<B: Backend>(self) -> Seq<char> {
        if self.reserved_ident {
            quoted(B::quote_char(), self.column_name)
        } else {
            self.column_name
        }
    }

    /// The field's entry in a `SELECT` list.
    pub open spec fn select_text<B: Backend>(self) -> Seq<char> {
        if self.custom_type {
            self.column_text::<B>() + " AS \""@ + self.field + ": _\""@
        } else if self.field == self.column_name {
            self.column_text::<B>()
        } else {
            self.column_text::<B>() + " AS \""@ + self.field + "\""@
        }
    }

    /// `PRIMARY KEY`, with `AUTO_INCREMENT` where the key counts itself up.
    pub open spec fn key_text(self) -> Seq<char> {
        if !self.primary {
            Seq::empty()
        } else if self.auto_increment {
            " PRIMARY KEY"@ + " AUTO_INCREMENT"@
        } else {
            " PRIMARY KEY"@
        }
    }

    /// The field's column clause in `CREATE TABLE`.
    pub open spec fn create_text<B: Backend>(self) -> Seq<char>
        recommends
            self.column_type is Some,
    {
        quoted(B::quote_char(), self.column_name) + " "@ + self.column_type->0 + (if self.allow_null {
            Seq::empty()
        } else {
            " NOT NULL"@
        }) + self.key_text() + (match self.default {
            Some(d) => " DEFAULT "@ + d,
            None => Seq::empty(),
        })
    }
}

/// The `SELECT` entries of the fields, in order.
pub open spec fn select_items<B: Backend>(fields: Seq<TableFieldView>) -> Seq<Seq<char>> {
    Seq::new(fields.len(), |i: int| fields[i].select_text::<B>())
}

/// The columns of the fields as written in a statement, in order.
pub open spec fn column_items<B: Backend>(fields: Seq<TableFieldView>) -> Seq<Seq<char>> {
    Seq::new(fields.len(), |i: int| fields[i].column_text::<B>())
}

/// The column clauses of the fields, in order.
pub open spec fn create_items<B: Backend>(fields: Seq<TableFieldView>) -> Seq<Seq<char>> {
    Seq::new(fields.len(), |i: int| fields[i].create_text::<B>())
}

impl TableView {
    /// The fields in declared order, without the id.
    pub open spec fn fields_except_id(self) -> Seq<TableFieldView> {
        self.fields.filter(not_named(self.id.field))
    }

    /// The fields whose values the caller supplies on insert.
    pub open spec fn insertable_fields(self) -> Seq<TableFieldView> {
        self.fields.filter(supplied(self.id.field))
    }

    /// The fields whose values the database supplies on insert.
    pub open spec fn default_fields(self) -> Seq<TableFieldView> {
        self.fields.filter(defaulted())
    }

    /// The column list shared by every `SELECT`.
    pub open spec fn select_column_list<B: Backend>(self) -> Seq<char> {
        join(select_items::<B>(self.fields), ", "@)
    }

    /// Every field has a column type: the table can be created.
    pub open spec fn column_types_known(self) -> bool {
        forall|i: int| 0 <= i < self.fields.len() ==> (#[trigger] self.fields[i]).column_type is Some
    }

    /// What validation establishes of a schema.
    pub open spec fn valid(self) -> bool {
        &&& exists|k: int| 0 <= k < self.fields.len() && self.fields[k] == self.id
        &&& self.id.default is None
        &&& self.insertable is None ==> forall|i: int|
            0 <= i < self.fields.len() ==> (#[trigger] self.fields[i]).default is None
        &&& self.syncable ==> self.column_types_known()
    }
}

/// Filtering one more item keeps it or not, and leaves the rest as it was.
pub proof fn lemma_filter_step<T>(s: Seq<T>, pred: spec_fn(T) -> bool, i: int)
    requires
        0 <= i < s.len(),
    ensures
        s.take(i + 1).filter(pred) == if pred(s[i]) {
            s.take(i).filter(pred).push(s[i])
        } else {
            s.take(i).filter(pred)
        },
{
    reveal(Seq::filter);
    assert(s.take(i + 1).drop_last() =~= s.take(i));
}

impl<B: Backend> TableField<B> {
    /// The column as it is written in a statement: between the dialect's
    /// quote characters if the name is reserved, bare otherwise.
    pub fn column(&self) -> (out: String)
        ensures
            out@ == self@.column_text::<B>(),
    {
        if self.reserved_ident {
            let mut out = String::from_str(B::quote());
            out.append(self.column_name.as_str());
            out.append(B::quote());
            out
        } else {
            self.column_name.clone()
        }
    }

    /// The field's entry in a `SELECT` list: the column, with the member as
    /// its alias where they differ, and the alias marked `: _` for a custom
    /// type.
    pub fn fmt_for_select(&self) -> (out: String)
        ensures
            out@ == self@.select_text::<B>(),
    {
        let mut out = self.column();
        if self.custom_type {
            out.append(" AS \"");
            out.append(self.field.as_str());
            out.append(": _\"");
        } else if self.field == self.column_name {
        } else {
            out.append(" AS \"");
            out.append(self.field.as_str());
            out.append("\"");
        }
        out
    }

    /// The field's column clause in `CREATE TABLE`.
    pub fn fmt_for_create(&self) -> (out: String)
        requires
            self@.column_type is Some,
        ensures
            out@ == self@.create_text::<B>(),
    {
        let mut out = String::from_str(B::quote());
        out.append(self.column_name.as_str());
        out.append(B::quote());
        out.append(" ");
        match &self.column_type {
            Some(ty) => {
                out.append(ty.as_str());
            },
            None => {},
        }
        if !self.allow_null {
            out.append(" NOT NULL");
        }
        if self.primary {
            out.append(" PRIMARY KEY");
            if self.auto_increment {
                out.append(" AUTO_INCREMENT");
            }
        }
        match &self.default {
            Some(d) => {
                out.append(" DEFAULT ");
                out.append(d.as_str());
            },
            None => {},
        }
        assert(out@ =~= self@.create_text::<B>());
        out
    }
}

impl GetterView {
    /// The name of the lookup function: the one asked for, or `by_<member>`.
    pub open spec fn name_for(self, field: TableFieldView) -> Seq<char> {
        match self.func {
            Some(f) => f,
            None => "by_"@ + field.field,
        }
    }

    /// The type of its argument: the one asked for, or a reference to the
    /// member's type.
    pub open spec fn argument_for(self, field: TableFieldView) -> Seq<char> {
        match self.arg_ty {
            Some(t) => t,
            None => "&"@ + field.ty,
        }
    }
}

impl Getter {
    /// The name and the argument type of the lookup function, with the
    /// defaults filled in.
    pub fn or_fallback<B: Backend>(&self, field: &TableField<B>) -> (out: (String, String))
        ensures
            out.0@ == self@.name_for(field@),
            out.1@ == self@.argument_for(field@),
    {
        let ident = match &self.func {
            Some(f) => f.clone(),
            None => {
                let mut name = String::from_str("by_");
                name.append(field.field.as_str());
                name
            },
        };
        let arg = match &self.arg_ty {
            Some(t) => t.clone(),
            None => {
                let mut ty = String::from_str("&");
                ty.append(field.ty.as_str());
                ty
            },
        };
        (ident, arg)
    }
}

/// The `SELECT` entries of the fields, one string each.
pub fn render_select_items<B: Backend>(fields: &Vec<&TableField<B>>) -> (out: Vec<String>)
    ensures
        out.deep_view() == select_items::<B>(fields.deep_view()),
{
    let mut out: Vec<String> = Vec::new();
    let mut i: usize = 0;
    while i < fields.len()
        invariant
            i <= fields.len(),
            out.len() == i,
            forall|k: int| 0 <= k < i ==> out[k]@ == fields[k]@.select_text::<B>(),
        decreases fields.len() - i,
    {
        out.push(fields[i].fmt_for_select());
        i += 1;
    }
    assert(out.deep_view() =~= select_items::<B>(fields.deep_view()));
    out
}

/// The columns of the fields as written in a statement, one string each.
pub fn render_column_items<B: Backend>(fields: &Vec<&TableField<B>>) -> (out: Vec<String>)
    ensures
        out.deep_view() == column_items::<B>(fields.deep_view()),
{
    let mut out: Vec<String> = Vec::new();
    let mut i: usize = 0;
    while i < fields.len()
        invariant
            i <= fields.len(),
            out.len() == i,
            forall|k: int| 0 <= k < i ==> out[k]@ == fields[k]@.column_text::<B>(),
        decreases fields.len() - i,
    {
        out.push(fields[i].column());
        i += 1;
    }
    assert(out.deep_view() =~= column_items::<B>(fields.deep_view()));
    out
}

impl<B: Backend> Table<B> {
    /// Every field, in declared order.
    pub fn all_fields(&self) -> (out: Vec<&TableField<B>>)
        ensures
            out.deep_view() == self@.fields,
    {
        let mut out: Vec<&TableField<B>> = Vec::new();
        let mut i: usize = 0;
        while i < self.fields.len()
            invariant
                i <= self.fields.len(),
                out.len() == i,
                forall|k: int| 0 <= k < i ==> out[k]@ == self.fields[k]@,
            decreases self.fields.len() - i,
        {
            out.push(&self.fields[i]);
            i += 1;
        }
        assert(out.deep_view() =~= self@.fields);
        out
    }

    /// The fields in declared order, without the id.
    pub fn fields_except_id(&self) -> (out: Vec<&TableField<B>>)
        ensures
            out.deep_view() == self@.fields_except_id(),
    {
        let mut out: Vec<&TableField<B>> = Vec::new();
        let ghost all = self@.fields;
        let ghost pred = not_named(self@.id.field);
        let mut i: usize = 0;
        proof {
            reveal(Seq::filter);
            assert(out.deep_view() =~= all.take(0).filter(pred));
        }
        while i < self.fields.len()
            invariant
                i <= self.fields.len(),
                all == self@.fields,
                pred == not_named(self@.id.field),
                out.deep_view() == all.take(i as int).filter(pred),
            decreases self.fields.len() - i,
        {
            let ghost before = out.deep_view();
            proof {
                lemma_filter_step(all, pred, i as int);
            }
            if !(self.fields[i].field == self.id.field) {
                out.push(&self.fields[i]);
                assert(out.deep_view() =~= before.push(self.fields[i as int]@));
            }
            i += 1;
        }
        assert(all.take(i as int) =~= all);
        out
    }

    /// The fields whose values the caller supplies on insert: those that are
    /// not the id and carry no default.
    pub fn insertable_fields(&self) -> (out: Vec<&TableField<B>>)
        ensures
            out.deep_view() == self@.insertable_fields(),
    {
        let mut out: Vec<&TableField<B>> = Vec::new();
        let ghost all = self@.fields;
        let ghost pred = supplied(self@.id.field);
        let mut i: usize = 0;
        proof {
            reveal(Seq::filter);
            assert(out.deep_view() =~= all.take(0).filter(pred));
        }
        while i < self.fields.len()
            invariant
                i <= self.fields.len(),
                all == self@.fields,
                pred == supplied(self@.id.field),
                out.deep_view() == all.take(i as int).filter(pred),
            decreases self.fields.len() - i,
        {
            let ghost before = out.deep_view();
            proof {
                lemma_filter_step(all, pred, i as int);
            }
            if !(self.fields[i].field == self.id.field) && self.fields[i].default.is_none() {
                out.push(&self.fields[i]);
                assert(out.deep_view() =~= before.push(self.fields[i as int]@));
            }
            i += 1;
        }
        assert(all.take(i as int) =~= all);
        out
    }

    /// The fields that carry a default value.
    pub fn default_fields(&self) -> (out: Vec<&TableField<B>>)
        ensures
            out.deep_view() == self@.default_fields(),
    {
        let mut out: Vec<&TableField<B>> = Vec::new();
        let ghost all = self@.fields;
        let ghost pred = defaulted();
        let mut i: usize = 0;
        proof {
            reveal(Seq::filter);
            assert(out.deep_view() =~= all.take(0).filter(pred));
        }
        while i < self.fields.len()
            invariant
                i <= self.fields.len(),
                all == self@.fields,
                pred == defaulted(),
                out.deep_view() == all.take(i as int).filter(pred),
            decreases self.fields.len() - i,
        {
            let ghost before = out.deep_view();
            proof {
                lemma_filter_step(all, pred, i as int);
            }
            if self.fields[i].default.is_some() {
                out.push(&self.fields[i]);
                assert(out.deep_view() =~= before.push(self.fields[i as int]@));
            }
            i += 1;
        }
        assert(all.take(i as int) =~= all);
        out
    }

    /// The column list shared by every `SELECT`: one entry per field, in
    /// declared order, separated by `, `.
    pub fn select_column_list(&self) -> (out: String)
        ensures
            out@ == self@.select_column_list::<B>(),
    {
        let fields = self.all_fields();
        let items = render_select_items(&fields);
        proof {
            reveal_strlit(", ");
        }
        join_strings(&items, ", ")
    }
}

} // verus!
