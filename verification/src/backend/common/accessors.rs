//! The lookup and setter functions that fields ask for.

use vstd::prelude::*;
use vstd::string::StringExecFns;
use crate::attrs::{Getter, GetterView};
use crate::backend::{Backend, Bindings, marker};
use crate::backend::common::table::{bind_field, field_argument, next_marker};
use crate::statement::{Argument, ArgumentView, Origin, Statement, StatementView, member, parameter};
use crate::table::{Table, TableField, TableFieldView, TableView};
use crate::text::quoted;

verus! {

/// How many rows a lookup gives.
#[derive(Clone, Copy, Debug, PartialEq, Eq, Structural)]
pub enum Cardinality {
    /// Exactly one row; no row is an error.
    One,
    /// At most one row.
    Optional,
    /// Any number of rows, as a stream.
    Many,
}

/// A lookup function keyed by one field.
pub struct GetterFn {
    pub name: String,
    pub arg_ty: String,
    pub cardinality: Cardinality,
    pub statement: Statement,
}

pub struct GetterFnView {
    pub name: Seq<char>,
    pub arg_ty: Seq<char>,
    pub cardinality: Cardinality,
    pub statement: StatementView,
}

/// A function that writes one field of a row, then sets it in memory.
pub struct SetterFn {
    pub name: String,
    pub field: String,
    pub ty: String,
    pub statement: Statement,
}

pub struct SetterFnView {
    pub name: Seq<char>,
    pub field: Seq<char>,
    pub ty: Seq<char>,
    pub statement: StatementView,
}

impl DeepView for GetterFn {
    type V = GetterFnView;

    open spec fn deep_view(&self) -> GetterFnView {
        GetterFnView {
            name: self.name@,
            arg_ty: self.arg_ty@,
            cardinality: self.cardinality,
            statement: self.statement@,
        }
    }
}

impl View for GetterFn {
    type V = GetterFnView;

    open spec fn view(&self) -> GetterFnView {
        self.deep_view()
    }
}

impl DeepView for SetterFn {
    type V = SetterFnView;

    open spec fn deep_view(&self) -> SetterFnView {
        SetterFnView {
            name: self.name@,
            field: self.field@,
            ty: self.ty@,
            statement: self.statement@,
        }
    }
}

impl View for SetterFn {
    type V = SetterFnView;

    open spec fn view(&self) -> SetterFnView {
        self.deep_view()
    }
}

impl TableView {
    /// The statement of a lookup by `field`: select-by-id, with the field's
    /// column in place of the id's.
    pub open spec fn getter_statement<B: Backend>(
        self,
        field: TableFieldView,
        column_list: Seq<char>,
    ) -> StatementView {
        StatementView {
            sql: "SELECT "@ + column_list + " FROM "@ + quoted(
                B::quote_char(),
                self.table,
            ) + " WHERE "@ + field.column_text::<B>() + " = "@ + marker::<B>(0),
            args: seq![parameter("by"@)],
        }
    }

    /// The lookup that `getter` asks for on `field`.
    pub open spec fn getter_fn<B: Backend>(
        self,
        field: TableFieldView,
        getter: GetterView,
        cardinality: Cardinality,
    ) -> GetterFnView {
        GetterFnView {
            name: getter.name_for(field),
            arg_ty: getter.argument_for(field),
            cardinality,
            statement: self.getter_statement::<B>(field, self.select_column_list::<B>()),
        }
    }

    /// The lookups of one field: one row, at most one row, many rows.
    pub open spec fn field_getters<B: Backend>(self, field: TableFieldView) -> Seq<GetterFnView> {
        (match field.get_one {
            Some(g) => seq![self.getter_fn::<B>(field, g, Cardinality::One)],
            None => Seq::empty(),
        }) + (match field.get_optional {
            Some(g) => seq![self.getter_fn::<B>(field, g, Cardinality::Optional)],
            None => Seq::empty(),
        }) + (match field.get_many {
            Some(g) => seq![self.getter_fn::<B>(field, g, Cardinality::Many)],
            None => Seq::empty(),
        })
    }

    /// The lookups of the first `n` fields.
    pub open spec fn getters_upto<B: Backend>(self, n: int) -> Seq<GetterFnView>
        decreases n,
    {
        if n <= 0 {
            Seq::empty()
        } else {
            self.getters_upto::<B>(n - 1) + self.field_getters::<B>(self.fields[n - 1])
        }
    }

    /// The lookups of the table, field by field in declared order.
    pub open spec fn getters<B: Backend>(self) -> Seq<GetterFnView> {
        self.getters_upto::<B>(self.fields.len() as int)
    }

    /// The setter of `field` under the name `name`: the new value is bound
    /// first, the id of the receiver second.
    pub open spec fn setter_fn<B: Backend>(self, field: TableFieldView, name: Seq<char>) -> SetterFnView {
        SetterFnView {
            name,
            field: field.field,
            ty: field.ty,
            statement: StatementView {
                sql: "UPDATE "@ + self.table + " SET "@ + field.column_text::<B>() + "="@
                    + marker::<B>(0) + " WHERE "@ + self.id.column_text::<B>() + " = "@
                    + marker::<B>(1),
                args: seq![
                    field_argument(Origin::Parameter, "value"@, field),
                    member(self.id.field),
                ],
            },
        }
    }

    /// The setters of the first `n` fields.
    pub open spec fn setters_upto<B: Backend>(self, n: int) -> Seq<SetterFnView>
        decreases n,
    {
        if n <= 0 {
            Seq::empty()
        } else {
            match self.fields[n - 1].set {
                Some(name) => self.setters_upto::<B>(n - 1).push(
                    self.setter_fn::<B>(self.fields[n - 1], name),
                ),
                None => self.setters_upto::<B>(n - 1),
            }
        }
    }

    /// The setters of the table, in the declared order of their fields.
    pub open spec fn setters<B: Backend>(self) -> Seq<SetterFnView> {
        self.setters_upto::<B>(self.fields.len() as int)
    }
}

fn getter_statement<B: Backend>(table: &Table<B>, field: &TableField<B>, column_list: &str) -> (out:
    Statement)
    ensures
        out@ == table@.getter_statement::<B>(field@, column_list@),
{
    let mut bindings = B::Bindings::start();
    let mut sql = String::from_str("SELECT ");
    sql.append(column_list);
    sql.append(" FROM ");
    sql.append(B::quote());
    sql.append(table.table.as_str());
    sql.append(B::quote());
    sql.append(" WHERE ");
    sql.append(field.column().as_str());
    sql.append(" = ");
    sql.append(next_marker(&mut bindings).as_str());
    let mut args: Vec<Argument> = Vec::new();
    args.push(Argument::parameter("by"));
    assert(sql@ =~= table@.getter_statement::<B>(field@, column_list@).sql);
    assert(args.deep_view() =~= table@.getter_statement::<B>(field@, column_list@).args);
    Statement { sql, args }
}

fn getter_fn<B: Backend>(
    table: &Table<B>,
    field: &TableField<B>,
    getter: &Getter,
    cardinality: Cardinality,
    column_list: &str,
) -> (out: GetterFn)
    requires
        column_list@ == table@.select_column_list::<B>(),
    ensures
        out@ == table@.getter_fn::<B>(field@, getter@, cardinality),
{
    let (name, arg_ty) = getter.or_fallback(field);
    GetterFn { name, arg_ty, cardinality, statement: getter_statement(table, field, column_list) }
}

/// The lookup functions that the fields of the table ask for: field by field
/// in declared order, and for one field the lookup of one row, of at most
/// one row, of many rows.
pub fn getters<B: Backend>(table: &Table<B>) -> (out: Vec<GetterFn>)
    ensures
        out.deep_view() == table@.getters::<B>(),
{
    let column_list = table.select_column_list();
    let mut out: Vec<GetterFn> = Vec::new();
    let mut i: usize = 0;
    assert(out.deep_view() =~= table@.getters_upto::<B>(0));
    while i < table.fields.len()
        invariant
            i <= table.fields.len(),
            column_list@ == table@.select_column_list::<B>(),
            out.deep_view() == table@.getters_upto::<B>(i as int),
        decreases table.fields.len() - i,
    {
        let field = &table.fields[i];
        let ghost before = out.deep_view();
        assert(table@.fields[i as int] == field@);
        match &field.get_one {
            Some(g) => {
                out.push(getter_fn(table, field, g, Cardinality::One, column_list.as_str()));
            },
            None => {},
        }
        match &field.get_optional {
            Some(g) => {
                out.push(getter_fn(table, field, g, Cardinality::Optional, column_list.as_str()));
            },
            None => {},
        }
        match &field.get_many {
            Some(g) => {
                out.push(getter_fn(table, field, g, Cardinality::Many, column_list.as_str()));
            },
            None => {},
        }
        assert(out.deep_view() =~= before + table@.field_getters::<B>(field@));
        i += 1;
    }
    out
}

/// The setter functions that the fields of the table ask for, in the
/// declared order of the fields.
pub fn setters<B: Backend>(table: &Table<B>) -> (out: Vec<SetterFn>)
    ensures
        out.deep_view() == table@.setters::<B>(),
{
    let mut out: Vec<SetterFn> = Vec::new();
    let mut i: usize = 0;
    assert(out.deep_view() =~= table@.setters_upto::<B>(0));
    while i < table.fields.len()
        invariant
            i <= table.fields.len(),
            out.deep_view() == table@.setters_upto::<B>(i as int),
        decreases table.fields.len() - i,
    {
        let field = &table.fields[i];
        let ghost before = out.deep_view();
        assert(table@.fields[i as int] == field@);
        match &field.set {
            Some(name) => {
                let mut bindings = B::Bindings::start();
                let mut sql = String::from_str("UPDATE ");
                sql.append(table.table.as_str());
                sql.append(" SET ");
                sql.append(field.column().as_str());
                sql.append("=");
                sql.append(next_marker(&mut bindings).as_str());
                sql.append(" WHERE ");
                sql.append(table.id.column().as_str());
                sql.append(" = ");
                sql.append(next_marker(&mut bindings).as_str());
                let value = String::from_str("value");
                let mut args: Vec<Argument> = Vec::new();
                args.push(bind_field(Origin::Parameter, &value, field));
                args.push(Argument::member(table.id.field.as_str()));
                assert(sql@ =~= table@.setter_fn::<B>(field@, name@).statement.sql);
                assert(args.deep_view() =~= table@.setter_fn::<B>(field@, name@).statement.args);
                out.push(
                    SetterFn {
                        name: name.clone(),
                        field: field.field.clone(),
                        ty: field.ty.clone(),
                        statement: Statement { sql, args },
                    },
                );
                assert(out.deep_view() =~= before.push(table@.setter_fn::<B>(field@, name@)));
            },
            None => {},
        }
        i += 1;
    }
    out
}

} // verus!
