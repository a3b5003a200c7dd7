//! The statements of the operations that every mapped table has.

use vstd::prelude::*;
use vstd::string::StringExecFns;
use crate::backend::{Backend, Bindings, marker};
use crate::statement::{Argument, ArgumentView, Origin, Statement, StatementView, member, parameter};
use crate::table::{Table, TableField, TableFieldView, TableView};
use crate::text::{join, join_strings, quoted};

verus! {

/// The operations of a mapped table.
pub struct TableImpl {
    pub table_ident: String,
    pub id_ident: String,
    pub id_ty: String,
    pub get: Statement,
    pub stream_all: Statement,
    pub stream_all_paginated: Statement,
    pub update: Statement,
    pub delete: Statement,
    pub sync_safe: Option<Statement>,
}

pub struct TableImplView {
    pub table_ident: Seq<char>,
    pub id_ident: Seq<char>,
    pub id_ty: Seq<char>,
    pub get: StatementView,
    pub stream_all: StatementView,
    pub stream_all_paginated: StatementView,
    pub update: StatementView,
    pub delete: StatementView,
    pub sync_safe: Option<StatementView>,
}

impl DeepView for TableImpl {
    type V = TableImplView;

    open spec fn deep_view(&self) -> TableImplView {
        TableImplView {
            table_ident: self.table_ident@,
            id_ident: self.id_ident@,
            id_ty: self.id_ty@,
            get: self.get@,
            stream_all: self.stream_all@,
            stream_all_paginated: self.stream_all_paginated@,
            update: self.update@,
            delete: self.delete@,
            sync_safe: self.sync_safe.deep_view(),
        }
    }
}

impl View for TableImpl {
    type V = TableImplView;

    open spec fn view(&self) -> TableImplView {
        self.deep_view()
    }
}

/// The member of the receiver that holds the field, cast to the field's type
/// if that is a custom type.
pub open spec fn field_argument(origin: Origin, name: Seq<char>, field: TableFieldView) -> ArgumentView {
    ArgumentView {
        origin,
        name,
        cast_to: if field.custom_type {
            Some(field.ty)
        } else {
            None
        },
    }
}

/// The members of the receiver that hold the fields, in order.
pub open spec fn field_arguments(fields: Seq<TableFieldView>) -> Seq<ArgumentView> {
    Seq::new(
        fields.len(),
        |k: int| field_argument(Origin::Receiver, fields[k].field, fields[k]),
    )
}

/// `column=marker` for every field, the marker of position `k` for the
/// field at `k`.
pub open spec fn assignments<B: Backend>(fields: Seq<TableFieldView>) -> Seq<Seq<char>> {
    Seq::new(
        fields.len(),
        |k: int| fields[k].column_text::<B>() + "="@ + marker::<B>(k as nat),
    )
}

/// The options that follow the body of `CREATE TABLE`.
pub open spec fn table_options<B: Backend>(table: TableView) -> Seq<char> {
    if B::table_options() {
        (match table.engine {
            Some(e) => " ENGINE="@ + e,
            None => Seq::empty(),
        }) + (match table.charset {
            Some(c) => " DEFAULT CHARSET="@ + c,
            None => Seq::empty(),
        }) + (match table.collation {
            Some(c) => " DEFAULT COLLATE="@ + c,
            None => Seq::empty(),
        })
    } else {
        Seq::empty()
    }
}

impl TableView {
    /// Select-by-id, of the columns in `column_list`.
    pub open spec fn get<B: Backend>(self, column_list: Seq<char>) -> StatementView {
        StatementView {
            sql: "SELECT "@ + column_list + " FROM "@ + quoted(
                B::quote_char(),
                self.table,
            ) + " WHERE "@ + self.id.column_text::<B>() + " = "@ + marker::<B>(0),
            args: seq![parameter("id"@)],
        }
    }

    /// Select-all, of the columns in `column_list`.
    pub open spec fn stream_all(self, column_list: Seq<char>) -> StatementView {
        StatementView {
            sql: "SELECT "@ + column_list + " FROM "@ + self.table,
            args: Seq::empty(),
        }
    }

    /// Select-paginated: the limit is bound first, the offset second.
    pub open spec fn stream_all_paginated<B: Backend>(self, column_list: Seq<char>) -> StatementView {
        StatementView {
            sql: "SELECT "@ + column_list + " FROM "@ + self.table + " LIMIT "@
                + marker::<B>(0) + " OFFSET "@ + marker::<B>(1),
            args: seq![parameter("limit"@), parameter("offset"@)],
        }
    }

    /// Update: every field but the id is assigned, in declared order, and
    /// the id is bound last.
    pub open spec fn update<B: Backend>(self) -> StatementView {
        let fields = self.fields_except_id();
        StatementView {
            sql: "UPDATE "@ + self.table + " SET "@ + join(assignments::<B>(fields), ", "@)
                + " WHERE "@ + self.id.column_text::<B>() + " = "@ + marker::<B>(fields.len()),
            args: field_arguments(fields).push(member(self.id.field)),
        }
    }

    /// Delete.
    pub open spec fn delete<B: Backend>(self) -> StatementView {
        StatementView {
            sql: "DELETE FROM "@ + self.table + " WHERE "@ + self.id.column_text::<B>() + " = "@
                + marker::<B>(0),
            args: seq![parameter("id"@)],
        }
    }

    /// Create-table, for a syncable table.
    pub open spec fn sync_safe<B: Backend>(self) -> Option<StatementView> {
        if self.syncable {
            Some(
                StatementView {
                    sql: "CREATE TABLE IF NOT EXISTS "@ + quoted(B::quote_char(), self.table)
                        + " (\n"@ + self.create_column_list::<B>() + "\n)"@ + table_options::<B>(
                        self,
                    ),
                    args: Seq::empty(),
                },
            )
        } else {
            None
        }
    }

    /// The operations of the table.
    pub open spec fn impl_table<B: Backend>(self) -> TableImplView {
        TableImplView {
            table_ident: self.ident,
            id_ident: self.id.field,
            id_ty: self.id.ty,
            get: self.get::<B>(self.select_column_list::<B>()),
            stream_all: self.stream_all(self.select_column_list::<B>()),
            stream_all_paginated: self.stream_all_paginated::<B>(self.select_column_list::<B>()),
            update: self.update::<B>(),
            delete: self.delete::<B>(),
            sync_safe: self.sync_safe::<B>(),
        }
    }
}

/// The next marker of a sequence that has handed out fewer than all it can.
pub(crate) fn next_marker<M: Bindings>(bindings: &mut M) -> (out: String)
    requires
        old(bindings).issued() < u128::MAX,
    ensures
        out@ == M::marker(old(bindings).issued()),
        final(bindings).issued() == old(bindings).issued() + 1,
{
    match bindings.next() {
        Some(m) => m,
        None => String::new(),
    }
}

/// The value bound for a field: the member or parameter `name`, cast to the
/// field's type if that is a custom type.
pub fn bind_field<B: Backend>(origin: Origin, name: &String, field: &TableField<B>) -> (out:
    Argument)
    ensures
        out@ == field_argument(origin, name@, field@),
{
    Argument {
        origin,
        name: name.clone(),
        cast_to: if field.custom_type {
            Some(field.ty.clone())
        } else {
            None
        },
    }
}

/// The statement that selects a row by its id.
pub fn get<B: Backend>(table: &Table<B>, column_list: &str) -> (out: Statement)
    ensures
        out@ == table@.get::<B>(column_list@),
{
    let mut bindings = B::Bindings::start();
    let mut sql = String::from_str("SELECT ");
    sql.append(column_list);
    sql.append(" FROM ");
    sql.append(B::quote());
    sql.append(table.table.as_str());
    sql.append(B::quote());
    sql.append(" WHERE ");
    sql.append(table.id.column().as_str());
    sql.append(" = ");
    sql.append(next_marker(&mut bindings).as_str());
    let mut args: Vec<Argument> = Vec::new();
    args.push(Argument::parameter("id"));
    assert(sql@ =~= table@.get::<B>(column_list@).sql);
    assert(args.deep_view() =~= table@.get::<B>(column_list@).args);
    Statement { sql, args }
}

/// The statement that selects every row.
pub fn stream_all<B: Backend>(table: &Table<B>, column_list: &str) -> (out: Statement)
    ensures
        out@ == table@.stream_all(column_list@),
{
    let mut sql = String::from_str("SELECT ");
    sql.append(column_list);
    sql.append(" FROM ");
    sql.append(table.table.as_str());
    let args: Vec<Argument> = Vec::new();
    assert(args.deep_view() =~= table@.stream_all(column_list@).args);
    Statement { sql, args }
}

/// The statement that selects one page of rows.
pub fn stream_all_paginated<B: Backend>(table: &Table<B>, column_list: &str) -> (out: Statement)
    ensures
        out@ == table@.stream_all_paginated::<B>(column_list@),
{
    let mut bindings = B::Bindings::start();
    let mut sql = String::from_str("SELECT ");
    sql.append(column_list);
    sql.append(" FROM ");
    sql.append(table.table.as_str());
    sql.append(" LIMIT ");
    sql.append(next_marker(&mut bindings).as_str());
    sql.append(" OFFSET ");
    sql.append(next_marker(&mut bindings).as_str());
    let mut args: Vec<Argument> = Vec::new();
    args.push(Argument::parameter("limit"));
    args.push(Argument::parameter("offset"));
    assert(sql@ =~= table@.stream_all_paginated::<B>(column_list@).sql);
    assert(args.deep_view() =~= table@.stream_all_paginated::<B>(column_list@).args);
    Statement { sql, args }
}

/// The statement that writes every field of a row but its id.
pub fn update<B: Backend>(table: &Table<B>) -> (out: Statement)
    ensures
        out@ == table@.update::<B>(),
{
    let fields = table.fields_except_id();
    let ghost views = fields.deep_view();
    let mut bindings = B::Bindings::start();
    let mut fragments: Vec<String> = Vec::new();
    let mut args: Vec<Argument> = Vec::new();
    let mut k: usize = 0;
    while k < fields.len()
        invariant
            k <= fields.len(),
            views == fields.deep_view(),
            bindings.issued() == k,
            fragments.len() == k,
            args.len() == k,
            forall|j: int|
                0 <= j < k ==> fragments[j]@ == views[j].column_text::<B>() + "="@ + marker::<B>(
                    j as nat,
                ),
            forall|j: int|
                0 <= j < k ==> args[j]@ == field_argument(
                    Origin::Receiver,
                    views[j].field,
                    views[j],
                ),
        decreases fields.len() - k,
    {
        assert(views[k as int] == fields[k as int]@);
        let mut fragment = fields[k].column();
        fragment.append("=");
        fragment.append(next_marker(&mut bindings).as_str());
        fragments.push(fragment);
        args.push(bind_field(Origin::Receiver, &fields[k].field, fields[k]));
        k += 1;
    }
    assert(fragments.deep_view() =~= assignments::<B>(views));
    let ghost bound = args.deep_view();
    assert(bound =~= field_arguments(views));
    proof {
        reveal_strlit(", ");
    }
    let mut sql = String::from_str("UPDATE ");
    sql.append(table.table.as_str());
    sql.append(" SET ");
    sql.append(join_strings(&fragments, ", ").as_str());
    sql.append(" WHERE ");
    sql.append(table.id.column().as_str());
    sql.append(" = ");
    sql.append(next_marker(&mut bindings).as_str());
    args.push(Argument::member(table.id.field.as_str()));
    assert(args.deep_view() =~= bound.push(member(table@.id.field)));
    assert(sql@ =~= table@.update::<B>().sql);
    Statement { sql, args }
}

/// The statement that deletes a row by its id.
pub fn delete<B: Backend>(table: &Table<B>) -> (out: Statement)
    ensures
        out@ == table@.delete::<B>(),
{
    let mut bindings = B::Bindings::start();
    let mut sql = String::from_str("DELETE FROM ");
    sql.append(table.table.as_str());
    sql.append(" WHERE ");
    sql.append(table.id.column().as_str());
    sql.append(" = ");
    sql.append(next_marker(&mut bindings).as_str());
    let mut args: Vec<Argument> = Vec::new();
    args.push(Argument::parameter("id"));
    assert(sql@ =~= table@.delete::<B>().sql);
    assert(args.deep_view() =~= table@.delete::<B>().args);
    Statement { sql, args }
}

/// The statement that creates the table unless it exists; `None` for a
/// table that is not syncable.
pub fn sync_safe<B: Backend>(table: &Table<B>) -> (out: Option<Statement>)
    requires
        table@.syncable ==> table@.column_types_known(),
    ensures
        out.deep_view() == table@.sync_safe::<B>(),
{
    if !table.syncable {
        return None;
    }
    let mut sql = String::from_str("CREATE TABLE IF NOT EXISTS ");
    sql.append(B::quote());
    sql.append(table.table.as_str());
    sql.append(B::quote());
    sql.append(" (\n");
    sql.append(table.create_column_list().as_str());
    sql.append("\n)");
    let ghost head = sql@;
    if B::supports_table_options() {
        match &table.engine {
            Some(e) => {
                sql.append(" ENGINE=");
                sql.append(e.as_str());
            },
            None => {},
        }
        match &table.charset {
            Some(c) => {
                sql.append(" DEFAULT CHARSET=");
                sql.append(c.as_str());
            },
            None => {},
        }
        match &table.collation {
            Some(c) => {
                sql.append(" DEFAULT COLLATE=");
                sql.append(c.as_str());
            },
            None => {},
        }
    }
    assert(sql@ =~= head + table_options::<B>(table@));
    assert(sql@ =~= table@.sync_safe::<B>()->0.sql);
    let args: Vec<Argument> = Vec::new();
    assert(args.deep_view() =~= Seq::<ArgumentView>::empty());
    Some(Statement { sql, args })
}

/// The operations that every mapped table has, each with its statement.
pub fn impl_table<B: Backend>(table: &Table<B>) -> (out: TableImpl)
    requires
        table@.syncable ==> table@.column_types_known(),
    ensures
        out@ == table@.impl_table::<B>(),
{
    let column_list = table.select_column_list();
    TableImpl {
        table_ident: table.ident.clone(),
        id_ident: table.id.field.clone(),
        id_ty: table.id.ty.clone(),
        get: get(table, column_list.as_str()),
        stream_all: stream_all(table, column_list.as_str()),
        stream_all_paginated: stream_all_paginated(table, column_list.as_str()),
        update: update(table),
        delete: delete(table),
        sync_safe: sync_safe(table),
    }
}

} // verus!
