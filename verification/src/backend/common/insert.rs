//! The insert operation: the statement that writes the caller's values, how
//! the values the database supplied are read back, and where each field of
//! the new row's entity comes from.

use vstd::prelude::*;
use vstd::string::StringExecFns;
use crate::backend::{Backend, Bindings, marker, markers};
use crate::backend::common::table::{bind_field, field_arguments, next_marker};
use crate::statement::{Argument, ArgumentView, Origin, Statement, StatementView, parameter};
use crate::table::{
    Table, TableField, TableFieldView, TableView, column_items, render_column_items,
    render_select_items, select_items,
};
use crate::text::{join, join_strings};

verus! {

/// Where the entity built after an insert takes a field from.
#[derive(Clone, Copy, Debug, PartialEq, Eq, Structural)]
pub enum FieldSource {
    /// The id that the insert made known.
    Id,
    /// The value that the caller supplied, as it was supplied.
    Supplied,
    /// The value that the database holds, read back after the insert.
    Stored,
}

/// One member of a generated structure.
pub struct StructField {
    pub name: String,
    pub ty: String,
}

pub struct StructFieldView {
    pub name: Seq<char>,
    pub ty: Seq<char>,
}

/// The structure whose values are inserted.
pub struct InsertStruct {
    pub attrs: Vec<String>,
    pub vis: String,
    pub ident: String,
    pub fields: Vec<StructField>,
}

pub struct InsertStructView {
    pub attrs: Seq<Seq<char>>,
    pub vis: Seq<char>,
    pub ident: Seq<char>,
    pub fields: Seq<StructFieldView>,
}

/// The insert operation of a table.
pub struct InsertImpl {
    /// The structure the operation is called on.
    pub insert_ident: String,
    /// The entity it returns.
    pub table_ident: String,
    /// The statement that writes the row.
    pub insert: Statement,
    /// Whether that statement itself returns the id and the defaulted
    /// columns.
    pub returning: bool,
    /// The statement that reads the defaulted columns back by id, where a
    /// second statement is needed.
    pub query_default: Option<Statement>,
    /// For every field of the table, in declared order, where its value
    /// comes from.
    pub sources: Vec<FieldSource>,
}

pub struct InsertImplView {
    pub insert_ident: Seq<char>,
    pub table_ident: Seq<char>,
    pub insert: StatementView,
    pub returning: bool,
    pub query_default: Option<StatementView>,
    pub sources: Seq<FieldSource>,
}

impl DeepView for StructField {
    type V = StructFieldView;

    open spec fn deep_view(&self) -> StructFieldView {
        StructFieldView { name: self.name@, ty: self.ty@ }
    }
}

impl View for StructField {
    type V = StructFieldView;

    open spec fn view(&self) -> StructFieldView {
        self.deep_view()
    }
}

impl DeepView for InsertStruct {
    type V = InsertStructView;

    open spec fn deep_view(&self) -> InsertStructView {
        InsertStructView {
            attrs: self.attrs.deep_view(),
            vis: self.vis@,
            ident: self.ident@,
            fields: self.fields.deep_view(),
        }
    }
}

impl View for InsertStruct {
    type V = InsertStructView;

    open spec fn view(&self) -> InsertStructView {
        self.deep_view()
    }
}

impl DeepView for InsertImpl {
    type V = InsertImplView;

    open spec fn deep_view(&self) -> InsertImplView {
        InsertImplView {
            insert_ident: self.insert_ident@,
            table_ident: self.table_ident@,
            insert: self.insert@,
            returning: self.returning,
            query_default: self.query_default.deep_view(),
            sources: self.sources@,
        }
    }
}

impl View for InsertImpl {
    type V = InsertImplView;

    open spec fn view(&self) -> InsertImplView {
        self.deep_view()
    }
}

/// The members of the insert structure: the fields as they are declared.
pub open spec fn struct_fields(fields: Seq<TableFieldView>) -> Seq<StructFieldView> {
    Seq::new(fields.len(), |k: int| StructFieldView { name: fields[k].field, ty: fields[k].ty })
}

impl TableView {
    /// Where the entity built after an insert takes the field from.
    pub open spec fn source_of(self, field: TableFieldView) -> FieldSource {
        if field.field == self.id.field {
            FieldSource::Id
        } else if field.default is None {
            FieldSource::Supplied
        } else {
            FieldSource::Stored
        }
    }

    /// The source of every field, in declared order.
    pub open spec fn sources(self) -> Seq<FieldSource> {
        Seq::new(self.fields.len(), |i: int| self.source_of(self.fields[i]))
    }

    /// What the insert statement returns where the dialect can return: the
    /// id, then the defaulted fields.
    pub open spec fn returned_items<B: Backend>(self) -> Seq<Seq<char>> {
        seq![self.id.select_text::<B>()] + select_items::<B>(self.default_fields())
    }

    /// The text of the statement that inserts the values of `fields`.
    pub open spec fn insert_sql<B: Backend>(self, fields: Seq<TableFieldView>) -> Seq<char> {
        "INSERT INTO "@ + self.table + " ("@ + join(column_items::<B>(fields), ", "@)
            + ") VALUES ("@ + join(markers::<B>(fields.len()), ", "@) + ")"@ + (if B::returning() {
            " RETURNING "@ + join(self.returned_items::<B>(), ", "@)
        } else {
            Seq::empty()
        })
    }

    /// The text of the statement that reads the values of `fields` of one
    /// row back.
    pub open spec fn query_default_sql<B: Backend>(self, fields: Seq<TableFieldView>) -> Seq<char> {
        "SELECT "@ + join(select_items::<B>(fields), ", "@) + " FROM "@ + self.table
            + " WHERE "@ + self.id.column_text::<B>() + " = "@ + marker::<B>(0)
    }

    /// The statement that reads the defaulted fields back: needed where the
    /// insert cannot return them and there are any.
    pub open spec fn query_default<B: Backend>(self) -> Option<StatementView> {
        if !B::returning() && self.default_fields().len() > 0 {
            Some(
                StatementView {
                    sql: self.query_default_sql::<B>(self.default_fields()),
                    args: seq![parameter("id"@)],
                },
            )
        } else {
            None
        }
    }

    /// The insert operation, for an insertable table.
    pub open spec fn impl_insert<B: Backend>(self) -> Option<InsertImplView> {
        match self.insertable {
            None => None,
            Some(insertable) => Some(
                InsertImplView {
                    insert_ident: insertable.ident,
                    table_ident: self.ident,
                    insert: StatementView {
                        sql: self.insert_sql::<B>(self.insertable_fields()),
                        args: field_arguments(self.insertable_fields()),
                    },
                    returning: B::returning(),
                    query_default: self.query_default::<B>(),
                    sources: self.sources(),
                },
            ),
        }
    }

    /// The insert structure, for an insertable table.
    pub open spec fn insert_struct(self) -> Option<InsertStructView> {
        match self.insertable {
            None => None,
            Some(insertable) => Some(
                InsertStructView {
                    attrs: insertable.attrs,
                    vis: self.vis,
                    ident: insertable.ident,
                    fields: struct_fields(self.insertable_fields()),
                },
            ),
        }
    }
}

/// The text of the statement that inserts the values of `insert_fields`:
/// their columns in order, one marker for each, and, where the dialect can
/// return columns, the id and the defaulted fields.
pub fn insert_sql<B: Backend>(table: &Table<B>, insert_fields: &Vec<&TableField<B>>) -> (out:
    String)
    ensures
        out@ == table@.insert_sql::<B>(insert_fields.deep_view()),
{
    let columns = render_column_items(insert_fields);
    let mut bindings = B::Bindings::start();
    let mut placeholders: Vec<String> = Vec::new();
    let mut k: usize = 0;
    while k < insert_fields.len()
        invariant
            k <= insert_fields.len(),
            bindings.issued() == k,
            placeholders.len() == k,
            forall|j: int| 0 <= j < k ==> placeholders[j]@ == marker::<B>(j as nat),
        decreases insert_fields.len() - k,
    {
        placeholders.push(next_marker(&mut bindings));
        k += 1;
    }
    assert(placeholders.deep_view() =~= markers::<B>(insert_fields.len() as nat));
    proof {
        reveal_strlit(", ");
    }
    let mut sql = String::from_str("INSERT INTO ");
    sql.append(table.table.as_str());
    sql.append(" (");
    sql.append(join_strings(&columns, ", ").as_str());
    sql.append(") VALUES (");
    sql.append(join_strings(&placeholders, ", ").as_str());
    sql.append(")");
    let ghost head = sql@;
    if B::supports_returning() {
        let defaults = table.default_fields();
        let mut items: Vec<String> = Vec::new();
        items.push(table.id.fmt_for_select());
        let mut rest = render_select_items(&defaults);
        let ghost tail = rest.deep_view();
        items.append(&mut rest);
        assert(items.deep_view() =~= table@.returned_items::<B>());
        sql.append(" RETURNING ");
        sql.append(join_strings(&items, ", ").as_str());
    }
    assert(sql@ =~= table@.insert_sql::<B>(insert_fields.deep_view()));
    sql
}

/// The text of the statement that reads the values of `default_fields` of
/// one row back.
pub fn query_default_sql<B: Backend>(table: &Table<B>, default_fields: &Vec<&TableField<B>>) -> (out:
    String)
    ensures
        out@ == table@.query_default_sql::<B>(default_fields.deep_view()),
{
    let items = render_select_items(default_fields);
    let mut bindings = B::Bindings::start();
    proof {
        reveal_strlit(", ");
    }
    let mut sql = String::from_str("SELECT ");
    sql.append(join_strings(&items, ", ").as_str());
    sql.append(" FROM ");
    sql.append(table.table.as_str());
    sql.append(" WHERE ");
    sql.append(table.id.column().as_str());
    sql.append(" = ");
    sql.append(next_marker(&mut bindings).as_str());
    assert(sql@ =~= table@.query_default_sql::<B>(default_fields.deep_view()));
    sql
}

/// The values bound to the insert statement: the caller's values, in the
/// order of their columns.
fn insert_arguments<B: Backend>(fields: &Vec<&TableField<B>>) -> (out: Vec<Argument>)
    ensures
        out.deep_view() == field_arguments(fields.deep_view()),
{
    let mut args: Vec<Argument> = Vec::new();
    let mut k: usize = 0;
    while k < fields.len()
        invariant
            k <= fields.len(),
            args.len() == k,
            forall|j: int|
                0 <= j < k ==> args[j]@ == field_arguments(fields.deep_view())[j],
        decreases fields.len() - k,
    {
        args.push(bind_field(Origin::Receiver, &fields[k].field, fields[k]));
        k += 1;
    }
    assert(args.deep_view() =~= field_arguments(fields.deep_view()));
    args
}

/// For every field, where the entity built after an insert takes it from.
fn field_sources<B: Backend>(table: &Table<B>) -> (out: Vec<FieldSource>)
    ensures
        out@ == table@.sources(),
{
    let mut sources: Vec<FieldSource> = Vec::new();
    let mut i: usize = 0;
    while i < table.fields.len()
        invariant
            i <= table.fields.len(),
            sources.len() == i,
            forall|j: int| 0 <= j < i ==> sources[j] == table@.source_of(table@.fields[j]),
        decreases table.fields.len() - i,
    {
        assert(table@.fields[i as int] == table.fields[i as int]@);
        let source = if table.fields[i].field == table.id.field {
            FieldSource::Id
        } else if table.fields[i].default.is_none() {
            FieldSource::Supplied
        } else {
            FieldSource::Stored
        };
        sources.push(source);
        i += 1;
    }
    assert(sources@ =~= table@.sources());
    sources
}

/// The insert operation of the table; `None` for a table that is not
/// insertable.
///
/// The insert statement binds the caller's values. Where the dialect can
/// return columns the statement returns the id and the defaulted fields;
/// where it cannot, and the table has defaulted fields, a second statement
/// reads them back by the new id.
pub fn impl_insert<B: Backend>(table: &Table<B>) -> (out: Option<InsertImpl>)
    ensures
        out.deep_view() == table@.impl_insert::<B>(),
{
    let insert_ident = match &table.insertable {
        Some(i) => i.ident.clone(),
        None => {
            return None;
        },
    };
    let insert_fields = table.insertable_fields();
    let default_fields = table.default_fields();
    let insert = Statement {
        sql: insert_sql(table, &insert_fields),
        args: insert_arguments(&insert_fields),
    };
    let returning = B::supports_returning();
    let query_default = if !returning && default_fields.len() > 0 {
        let mut args: Vec<Argument> = Vec::new();
        args.push(Argument::parameter("id"));
        assert(args.deep_view() =~= seq![parameter("id"@)]);
        Some(Statement { sql: query_default_sql(table, &default_fields), args })
    } else {
        None
    };
    Some(
        InsertImpl {
            insert_ident,
            table_ident: table.ident.clone(),
            insert,
            returning,
            query_default,
            sources: field_sources(table),
        },
    )
}

/// The structure whose values are inserted: one member for every field that
/// the caller supplies; `None` for a table that is not insertable.
pub fn insert_struct<B: Backend>(table: &Table<B>) -> (out: Option<InsertStruct>)
    ensures
        out.deep_view() == table@.insert_struct(),
{
    let insertable = match &table.insertable {
        Some(i) => i,
        None => {
            return None;
        },
    };
    let insert_fields = table.insertable_fields();
    let mut fields: Vec<StructField> = Vec::new();
    let mut k: usize = 0;
    while k < insert_fields.len()
        invariant
            k <= insert_fields.len(),
            fields.len() == k,
            forall|j: int|
                0 <= j < k ==> fields[j]@ == struct_fields(insert_fields.deep_view())[j],
        decreases insert_fields.len() - k,
    {
        fields.push(
            StructField { name: insert_fields[k].field.clone(), ty: insert_fields[k].ty.clone() },
        );
        k += 1;
    }
    assert(fields.deep_view() =~= struct_fields(insert_fields.deep_view()));
    Some(
        InsertStruct {
            attrs: insertable.attrs.clone(),
            vis: table.vis.clone(),
            ident: insertable.ident.clone(),
            fields,
        },
    )
}

} // verus!
