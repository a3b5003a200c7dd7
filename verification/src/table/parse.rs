//! From a declaration to a validated schema.
//!
//! The annotations of every member are parsed and folded into the member's
//! slots, each of which may be set once; the same is done for the table; then
//! the rules that relate the table to its fields are checked. The first
//! failure in that order is the result.

use vstd::prelude::*;
use vstd::string::StringExecFns;
use std::marker::PhantomData;
use crate::attrs::{
    Getter, GetterView, Insertable, InsertableView, TableAttr, TableAttrView, TableFieldAttr,
    TableFieldAttrView, parse_all, parse_attrs,
};
use crate::backend::Backend;
use crate::error::{RequiredAttr, SchemaError};
use crate::input::{FieldInput, FieldInputView, StructInput, StructInputView, collect};
use crate::sequence::{
    all_ok, lemma_all_ok_fails, lemma_all_ok_step, lemma_try_fold_fails, lemma_try_fold_step,
    try_fold,
};
use crate::table::{Table, TableField, TableFieldView, TableView};
use crate::text::{to_uppercase, uppercased};

verus! {

/// What the annotations of one member have set so far.
pub struct FieldSlots {
    pub column: Option<String>,
    pub column_type: Option<String>,
    pub custom_type: Option<bool>,
    pub primary: Option<bool>,
    pub allow_null: Option<bool>,
    pub auto_increment: Option<bool>,
    pub unique: Option<Option<String>>,
    pub get_one: Option<Getter>,
    pub get_optional: Option<Getter>,
    pub get_many: Option<Getter>,
    pub set: Option<String>,
    pub default: Option<String>,
}

pub struct FieldSlotsView {
    pub column: Option<Seq<char>>,
    pub column_type: Option<Seq<char>>,
    pub custom_type: Option<bool>,
    pub primary: Option<bool>,
    pub allow_null: Option<bool>,
    pub auto_increment: Option<bool>,
    pub unique: Option<Option<Seq<char>>>,
    pub get_one: Option<GetterView>,
    pub get_optional: Option<GetterView>,
    pub get_many: Option<GetterView>,
    pub set: Option<Seq<char>>,
    pub default: Option<Seq<char>>,
}

/// What the annotations of a table have set so far.
pub struct TableSlots {
    pub table: Option<String>,
    pub id: Option<String>,
    pub insertable: Option<Insertable>,
    pub engine: Option<String>,
    pub charset: Option<String>,
    pub collation: Option<String>,
    pub syncable: Option<bool>,
}

pub struct TableSlotsView {
    pub table: Option<Seq<char>>,
    pub id: Option<Seq<char>>,
    pub insertable: Option<InsertableView>,
    pub engine: Option<Seq<char>>,
    pub charset: Option<Seq<char>>,
    pub collation: Option<Seq<char>>,
    pub syncable: Option<bool>,
}

impl DeepView for FieldSlots {
    type V = FieldSlotsView;

    open spec fn deep_view(&self) -> FieldSlotsView {
        FieldSlotsView {
            column: self.column.deep_view(),
            column_type: self.column_type.deep_view(),
            custom_type: self.custom_type,
            primary: self.primary,
            allow_null: self.allow_null,
            auto_increment: self.auto_increment,
            unique: self.unique.deep_view(),
            get_one: self.get_one.deep_view(),
            get_optional: self.get_optional.deep_view(),
            get_many: self.get_many.deep_view(),
            set: self.set.deep_view(),
            default: self.default.deep_view(),
        }
    }
}

impl View for FieldSlots {
    type V = FieldSlotsView;

    open spec fn view(&self) -> FieldSlotsView {
        self.deep_view()
    }
}

impl DeepView for TableSlots {
    type V = TableSlotsView;

    open spec fn deep_view(&self) -> TableSlotsView {
        TableSlotsView {
            table: self.table.deep_view(),
            id: self.id.deep_view(),
            insertable: self.insertable.deep_view(),
            engine: self.engine.deep_view(),
            charset: self.charset.deep_view(),
            collation: self.collation.deep_view(),
            syncable: self.syncable,
        }
    }
}

impl View for TableSlots {
    type V = TableSlotsView;

    open spec fn view(&self) -> TableSlotsView {
        self.deep_view()
    }
}

/// The value of a flag that may not have been set.
pub open spec fn flag(slot: Option<bool>) -> bool {
    match slot {
        Some(b) => b,
        None => false,
    }
}

impl FieldSlotsView {
    pub open spec fn empty() -> FieldSlotsView {
        FieldSlotsView {
            column: None,
            column_type: None,
            custom_type: None,
            primary: None,
            allow_null: None,
            auto_increment: None,
            unique: None,
            get_one: None,
            get_optional: None,
            get_many: None,
            set: None,
            default: None,
        }
    }

    /// The slots with one more attribute, or `None` if its slot is taken.
    /// A setter without a name is called `set_<member>`.
    pub open spec fn put(self, attr: TableFieldAttrView, ident: Seq<char>) -> Option<
        FieldSlotsView,
    > {
        match attr {
            TableFieldAttrView::Column(c) => if self.column is None {
                Some(FieldSlotsView { column: Some(c), ..self })
            } else {
                None
            },
            TableFieldAttrView::ColumnType(c) => if self.column_type is None {
                Some(FieldSlotsView { column_type: Some(c), ..self })
            } else {
                None
            },
            TableFieldAttrView::CustomType(_) => if self.custom_type is None {
                Some(FieldSlotsView { custom_type: Some(true), ..self })
            } else {
                None
            },
            TableFieldAttrView::PrimaryKey(_) => if self.primary is None {
                Some(FieldSlotsView { primary: Some(true), ..self })
            } else {
                None
            },
            TableFieldAttrView::AutoIncrement(_) => if self.auto_increment is None {
                Some(FieldSlotsView { auto_increment: Some(true), ..self })
            } else {
                None
            },
            TableFieldAttrView::AllowNull(b) => if self.allow_null is None {
                Some(FieldSlotsView { allow_null: Some(b), ..self })
            } else {
                None
            },
            TableFieldAttrView::Unique(u) => if self.unique is None {
                Some(FieldSlotsView { unique: Some(u), ..self })
            } else {
                None
            },
            TableFieldAttrView::Default(d) => if self.default is None {
                Some(FieldSlotsView { default: Some(d), ..self })
            } else {
                None
            },
            TableFieldAttrView::GetOne(g) => if self.get_one is None {
                Some(FieldSlotsView { get_one: Some(g), ..self })
            } else {
                None
            },
            TableFieldAttrView::GetOptional(g) => if self.get_optional is None {
                Some(FieldSlotsView { get_optional: Some(g), ..self })
            } else {
                None
            },
            TableFieldAttrView::GetMany(g) => if self.get_many is None {
                Some(FieldSlotsView { get_many: Some(g), ..self })
            } else {
                None
            },
            TableFieldAttrView::Setter(s) => if self.set is None {
                Some(
                    FieldSlotsView {
                        set: Some(
                            match s {
                                Some(name) => name,
                                None => "set_"@ + ident,
                            },
                        ),
                        ..self
                    },
                )
            } else {
                None
            },
        }
    }

    /// The name of the member's column: the one given, or the member's name.
    pub open spec fn column_name(self, ident: Seq<char>) -> Seq<char> {
        match self.column {
            Some(c) => c,
            None => ident,
        }
    }

    /// The field that the slots describe. A field may be null unless it is
    /// the primary key or says otherwise; its column is reserved if the
    /// upper-case form of the column's name is a reserved word of the dialect.
    pub open spec fn finish<B: Backend>(self, input: FieldInputView) -> TableFieldView {
        TableFieldView {
            field: input.ident,
            ty: input.ty,
            column_name: self.column_name(input.ident),
            column_type: self.column_type,
            primary: flag(self.primary),
            auto_increment: flag(self.auto_increment),
            allow_null: match self.allow_null {
                Some(b) => b,
                None => !flag(self.primary),
            },
            unique: self.unique,
            custom_type: flag(self.custom_type),
            reserved_ident: B::reserved_idents().contains(
                uppercased(self.column_name(input.ident)),
            ),
            default: self.default,
            get_one: self.get_one,
            get_optional: self.get_optional,
            get_many: self.get_many,
            set: self.set,
        }
    }
}

impl TableSlotsView {
    pub open spec fn empty() -> TableSlotsView {
        TableSlotsView {
            table: None,
            id: None,
            insertable: None,
            engine: None,
            charset: None,
            collation: None,
            syncable: None,
        }
    }

    /// The slots with one more attribute, or `None` if its slot is taken.
    /// An insert structure without a name is called `Insert<Structure>`.
    pub open spec fn put(self, attr: TableAttrView, ident: Seq<char>) -> Option<TableSlotsView> {
        match attr {
            TableAttrView::Table(t) => if self.table is None {
                Some(TableSlotsView { table: Some(t), ..self })
            } else {
                None
            },
            TableAttrView::Id(i) => if self.id is None {
                Some(TableSlotsView { id: Some(i), ..self })
            } else {
                None
            },
            TableAttrView::Insertable(i) => if self.insertable is None {
                Some(
                    TableSlotsView {
                        insertable: Some(
                            match i {
                                Some(given) => given,
                                None => InsertableView {
                                    attrs: Seq::empty(),
                                    ident: "Insert"@ + ident,
                                },
                            },
                        ),
                        ..self
                    },
                )
            } else {
                None
            },
            TableAttrView::Engine(e) => if self.engine is None {
                Some(TableSlotsView { engine: Some(e), ..self })
            } else {
                None
            },
            TableAttrView::Charset(c) => if self.charset is None {
                Some(TableSlotsView { charset: Some(c), ..self })
            } else {
                None
            },
            TableAttrView::Collation(c) => if self.collation is None {
                Some(TableSlotsView { collation: Some(c), ..self })
            } else {
                None
            },
            TableAttrView::Syncable(_) => if self.syncable is None {
                Some(TableSlotsView { syncable: Some(true), ..self })
            } else {
                None
            },
        }
    }
}

/// The step that folds the attributes of the member `ident`.
pub open spec fn field_step(ident: Seq<char>) -> spec_fn(
    FieldSlotsView,
    TableFieldAttrView,
) -> Option<FieldSlotsView> {
    |slots: FieldSlotsView, attr: TableFieldAttrView| slots.put(attr, ident)
}

/// The step that folds the attributes of the structure `ident`.
pub open spec fn table_step(ident: Seq<char>) -> spec_fn(TableSlotsView, TableAttrView) -> Option<
    TableSlotsView,
> {
    |slots: TableSlotsView, attr: TableAttrView| slots.put(attr, ident)
}

/// The field that a member's declaration describes, or why it describes none.
pub open spec fn field_from<B: Backend>(input: FieldInputView) -> Result<
    TableFieldView,
    SchemaError,
> {
    match parse_all::<TableFieldAttr>(collect(input.attrs)) {
        Err(e) => Err(SchemaError::Parse(e)),
        Ok(attrs) => match try_fold(attrs, FieldSlotsView::empty(), field_step(input.ident)) {
            None => Err(SchemaError::DuplicateAttribute),
            Some(slots) => Ok(slots.finish::<B>(input)),
        },
    }
}

/// The results of the members, one by one.
pub open spec fn field_results<B: Backend>(inputs: Seq<FieldInputView>) -> Seq<
    Result<TableFieldView, SchemaError>,
> {
    Seq::new(inputs.len(), |i: int| field_from::<B>(inputs[i]))
}

/// The position of the first field called `name`.
pub open spec fn position(fields: Seq<TableFieldView>, name: Seq<char>) -> Option<int>
    decreases fields.len(),
{
    if fields.len() == 0 {
        None
    } else {
        match position(fields.drop_last(), name) {
            Some(k) => Some(k),
            None => if fields.last().field == name {
                Some(fields.len() - 1)
            } else {
                None
            },
        }
    }
}

/// Some field carries a default value.
pub open spec fn any_default(fields: Seq<TableFieldView>) -> bool {
    exists|i: int| 0 <= i < fields.len() && (#[trigger] fields[i]).default is Some
}

/// Some field has no column type.
pub open spec fn any_untyped(fields: Seq<TableFieldView>) -> bool {
    exists|i: int| 0 <= i < fields.len() && (#[trigger] fields[i]).column_type is None
}

/// The table that the slots and the fields describe, or the rule they break.
pub open spec fn assemble(
    input: StructInputView,
    slots: TableSlotsView,
    fields: Seq<TableFieldView>,
) -> Result<TableView, SchemaError> {
    match slots.id {
        None => Err(SchemaError::MissingAttribute(RequiredAttr::Id)),
        Some(id) => match position(fields, id) {
            None => Err(SchemaError::UnknownIdField),
            Some(k) => if fields[k].default is Some {
                Err(SchemaError::InvalidIdDefault)
            } else if slots.insertable is None && any_default(fields) {
                Err(SchemaError::DefaultWithoutInsertable)
            } else {
                match slots.table {
                    None => Err(SchemaError::MissingAttribute(RequiredAttr::Table)),
                    Some(table) => if flag(slots.syncable) && any_untyped(fields) {
                        Err(SchemaError::MissingColumnType)
                    } else {
                        Ok(
                            TableView {
                                ident: input.ident,
                                vis: input.vis,
                                table: table,
                                id: fields[k],
                                fields: fields,
                                insertable: slots.insertable,
                                engine: slots.engine,
                                charset: slots.charset,
                                collation: slots.collation,
                                syncable: flag(slots.syncable),
                            },
                        )
                    },
                }
            },
        },
    }
}

/// The table that a declaration describes, or why it describes none: the
/// first failure among the members in declared order, then the failures of
/// the table's own annotations, then the rules that relate both.
pub open spec fn table_from<B: Backend>(input: StructInputView) -> Result<TableView, SchemaError> {
    match all_ok(field_results::<B>(input.fields)) {
        Err(e) => Err(e),
        Ok(fields) => match parse_all::<TableAttr>(collect(input.attrs)) {
            Err(e) => Err(SchemaError::Parse(e)),
            Ok(attrs) => match try_fold(attrs, TableSlotsView::empty(), table_step(input.ident)) {
                None => Err(SchemaError::DuplicateAttribute),
                Some(slots) => assemble(input, slots, fields),
            },
        },
    }
}

/// What a build gives, with the value taken by its view.
pub open spec fn built<T: DeepView>(r: Result<T, SchemaError>) -> Result<T::V, SchemaError> {
    match r {
        Ok(t) => Ok(t.deep_view()),
        Err(e) => Err(e),
    }
}

/// `position` finds the first field of that name, and only misses when none
/// has it.
pub proof fn lemma_position(fields: Seq<TableFieldView>, name: Seq<char>)
    ensures
        match position(fields, name) {
            Some(k) => 0 <= k < fields.len() && fields[k].field == name && forall|j: int|
                0 <= j < k ==> (#[trigger] fields[j]).field != name,
            None => forall|j: int| 0 <= j < fields.len() ==> (#[trigger] fields[j]).field != name,
        },
    decreases fields.len(),
{
    if fields.len() > 0 {
        lemma_position(fields.drop_last(), name);
        assert forall|j: int| 0 <= j < fields.len() - 1 implies fields.drop_last()[j]
            == fields[j] by {}
        match position(fields.drop_last(), name) {
            Some(k) => {
                assert(fields.drop_last()[k] == fields[k]);
                assert forall|j: int| 0 <= j < k implies (#[trigger] fields[j]).field != name by {
                    assert(fields.drop_last()[j] == fields[j]);
                }
            },
            None => {
                assert forall|j: int| 0 <= j < fields.len() - 1 implies (#[trigger] fields[j]).field
                    != name by {
                    assert(fields.drop_last()[j] == fields[j]);
                }
            },
        }
    }
}

impl Clone for Getter {
    fn clone(&self) -> (out: Self)
        ensures
            out@ == self@,
    {
        Getter { func: self.func.clone(), arg_ty: self.arg_ty.clone() }
    }
}

impl Clone for Insertable {
    fn clone(&self) -> (out: Self)
        ensures
            out@ == self@,
    {
        Insertable { attrs: self.attrs.clone(), ident: self.ident.clone() }
    }
}

fn clone_getter(slot: &Option<Getter>) -> (out: Option<Getter>)
    ensures
        out.deep_view() == slot.deep_view(),
{
    match slot {
        Some(g) => Some(g.clone()),
        None => None,
    }
}

fn clone_unique(slot: &Option<Option<String>>) -> (out: Option<Option<String>>)
    ensures
        out.deep_view() == slot.deep_view(),
{
    match slot {
        Some(inner) => Some(inner.clone()),
        None => None,
    }
}

impl<B: Backend> Clone for TableField<B> {
    fn clone(&self) -> (out: Self)
        ensures
            out@ == self@,
    {
        TableField {
            field: self.field.clone(),
            ty: self.ty.clone(),
            column_name: self.column_name.clone(),
            column_type: self.column_type.clone(),
            primary: self.primary,
            auto_increment: self.auto_increment,
            allow_null: self.allow_null,
            unique: clone_unique(&self.unique),
            custom_type: self.custom_type,
            reserved_ident: self.reserved_ident,
            default: self.default.clone(),
            get_one: clone_getter(&self.get_one),
            get_optional: clone_getter(&self.get_optional),
            get_many: clone_getter(&self.get_many),
            set: self.set.clone(),
            _phantom: PhantomData,
        }
    }
}

impl FieldSlots {
    fn empty() -> (out: Self)
        ensures
            out@ == FieldSlotsView::empty(),
    {
        FieldSlots {
            column: None,
            column_type: None,
            custom_type: None,
            primary: None,
            allow_null: None,
            auto_increment: None,
            unique: None,
            get_one: None,
            get_optional: None,
            get_many: None,
            set: None,
            default: None,
        }
    }

    /// Sets the slot of `attr`, or gives `None` if it is taken.
    fn put(self, attr: &TableFieldAttr, ident: &String) -> (out: Option<FieldSlots>)
        ensures
            out.deep_view() == self@.put(attr@, ident@),
    {
        let mut slots = self;
        match attr {
            TableFieldAttr::Column(c) => {
                if slots.column.is_some() {
                    return None;
                }
                slots.column = Some(c.clone());
            },
            TableFieldAttr::ColumnType(c) => {
                if slots.column_type.is_some() {
                    return None;
                }
                slots.column_type = Some(c.clone());
            },
            TableFieldAttr::CustomType(_) => {
                if slots.custom_type.is_some() {
                    return None;
                }
                slots.custom_type = Some(true);
            },
            TableFieldAttr::PrimaryKey(_) => {
                if slots.primary.is_some() {
                    return None;
                }
                slots.primary = Some(true);
            },
            TableFieldAttr::AutoIncrement(_) => {
                if slots.auto_increment.is_some() {
                    return None;
                }
                slots.auto_increment = Some(true);
            },
            TableFieldAttr::AllowNull(b) => {
                if slots.allow_null.is_some() {
                    return None;
                }
                slots.allow_null = Some(*b);
            },
            TableFieldAttr::Unique(u) => {
                if slots.unique.is_some() {
                    return None;
                }
                slots.unique = Some(u.clone());
            },
            TableFieldAttr::Default(d) => {
                if slots.default.is_some() {
                    return None;
                }
                slots.default = Some(d.clone());
            },
            TableFieldAttr::GetOne(g) => {
                if slots.get_one.is_some() {
                    return None;
                }
                slots.get_one = Some(g.clone());
            },
            TableFieldAttr::GetOptional(g) => {
                if slots.get_optional.is_some() {
                    return None;
                }
                slots.get_optional = Some(g.clone());
            },
            TableFieldAttr::GetMany(g) => {
                if slots.get_many.is_some() {
                    return None;
                }
                slots.get_many = Some(g.clone());
            },
            TableFieldAttr::Setter(s) => {
                if slots.set.is_some() {
                    return None;
                }
                let name = match s {
                    Some(given) => given.clone(),
                    None => {
                        let mut name = String::from_str("set_");
                        name.append(ident.as_str());
                        name
                    },
                };
                slots.set = Some(name);
            },
        }
        Some(slots)
    }
}

impl TableSlots {
    fn empty() -> (out: Self)
        ensures
            out@ == TableSlotsView::empty(),
    {
        TableSlots {
            table: None,
            id: None,
            insertable: None,
            engine: None,
            charset: None,
            collation: None,
            syncable: None,
        }
    }

    /// Sets the slot of `attr`, or gives `None` if it is taken.
    fn put(self, attr: &TableAttr, ident: &String) -> (out: Option<TableSlots>)
        ensures
            out.deep_view() == self@.put(attr@, ident@),
    {
        let mut slots = self;
        match attr {
            TableAttr::Table(t) => {
                if slots.table.is_some() {
                    return None;
                }
                slots.table = Some(t.clone());
            },
            TableAttr::Id(i) => {
                if slots.id.is_some() {
                    return None;
                }
                slots.id = Some(i.clone());
            },
            TableAttr::Insertable(i) => {
                if slots.insertable.is_some() {
                    return None;
                }
                let insertable = match i {
                    Some(given) => given.clone(),
                    None => {
                        let mut name = String::from_str("Insert");
                        name.append(ident.as_str());
                        let attrs: Vec<String> = Vec::new();
                        assert(attrs.deep_view() =~= Seq::<Seq<char>>::empty());
                        Insertable { attrs, ident: name }
                    },
                };
                slots.insertable = Some(insertable);
            },
            TableAttr::Engine(e) => {
                if slots.engine.is_some() {
                    return None;
                }
                slots.engine = Some(e.clone());
            },
            TableAttr::Charset(c) => {
                if slots.charset.is_some() {
                    return None;
                }
                slots.charset = Some(c.clone());
            },
            TableAttr::Collation(c) => {
                if slots.collation.is_some() {
                    return None;
                }
                slots.collation = Some(c.clone());
            },
            TableAttr::Syncable(_) => {
                if slots.syncable.is_some() {
                    return None;
                }
                slots.syncable = Some(true);
            },
        }
        Some(slots)
    }
}

fn fold_field_attrs(attrs: &Vec<TableFieldAttr>, ident: &String) -> (out: Option<FieldSlots>)
    ensures
        out.deep_view() == try_fold(
            attrs.deep_view(),
            FieldSlotsView::empty(),
            field_step(ident@),
        ),
{
    let ghost all = attrs.deep_view();
    let ghost step = field_step(ident@);
    let mut slots = FieldSlots::empty();
    let mut i: usize = 0;
    while i < attrs.len()
        invariant
            i <= attrs.len(),
            all == attrs.deep_view(),
            step == field_step(ident@),
            try_fold(all.take(i as int), FieldSlotsView::empty(), step) == Some(slots@),
        decreases attrs.len() - i,
    {
        proof {
            lemma_try_fold_step(all, FieldSlotsView::empty(), step, i as int);
            assert(all[i as int] == attrs[i as int]@);
        }
        match slots.put(&attrs[i], ident) {
            Some(next) => {
                slots = next;
            },
            None => {
                proof {
                    lemma_try_fold_fails(all, FieldSlotsView::empty(), step, i + 1);
                }
                return None;
            },
        }
        i += 1;
    }
    proof {
        assert(all.take(i as int) =~= all);
    }
    Some(slots)
}

fn fold_table_attrs(attrs: &Vec<TableAttr>, ident: &String) -> (out: Option<TableSlots>)
    ensures
        out.deep_view() == try_fold(
            attrs.deep_view(),
            TableSlotsView::empty(),
            table_step(ident@),
        ),
{
    let ghost all = attrs.deep_view();
    let ghost step = table_step(ident@);
    let mut slots = TableSlots::empty();
    let mut i: usize = 0;
    while i < attrs.len()
        invariant
            i <= attrs.len(),
            all == attrs.deep_view(),
            step == table_step(ident@),
            try_fold(all.take(i as int), TableSlotsView::empty(), step) == Some(slots@),
        decreases attrs.len() - i,
    {
        proof {
            lemma_try_fold_step(all, TableSlotsView::empty(), step, i as int);
            assert(all[i as int] == attrs[i as int]@);
        }
        match slots.put(&attrs[i], ident) {
            Some(next) => {
                slots = next;
            },
            None => {
                proof {
                    lemma_try_fold_fails(all, TableSlotsView::empty(), step, i + 1);
                }
                return None;
            },
        }
        i += 1;
    }
    proof {
        assert(all.take(i as int) =~= all);
    }
    Some(slots)
}

impl<B: Backend> TableField<B> {
    /// Builds the field that a member's declaration describes.
    ///
    /// Fails with the first annotation that cannot be read, else with
    /// `DuplicateAttribute` if an attribute is given twice.
    pub fn try_from(value: &FieldInput) -> (r: Result<Self, SchemaError>)
        ensures
            built(r) == field_from::<B>(value@),
    {
        let attrs = match parse_attrs::<TableFieldAttr>(&value.attrs) {
            Ok(attrs) => attrs,
            Err(e) => {
                return Err(SchemaError::Parse(e));
            },
        };
        let slots = match fold_field_attrs(&attrs, &value.ident) {
            Some(slots) => slots,
            None => {
                return Err(SchemaError::DuplicateAttribute);
            },
        };
        let column_name = match slots.column {
            Some(c) => c,
            None => value.ident.clone(),
        };
        let upper = to_uppercase(column_name.as_str());
        let reserved_ident = B::is_reserved(upper.as_str());
        let primary = match slots.primary {
            Some(b) => b,
            None => false,
        };
        Ok(
            TableField {
                field: value.ident.clone(),
                ty: value.ty.clone(),
                column_name,
                column_type: slots.column_type,
                primary,
                auto_increment: match slots.auto_increment {
                    Some(b) => b,
                    None => false,
                },
                allow_null: match slots.allow_null {
                    Some(b) => b,
                    None => !primary,
                },
                unique: slots.unique,
                custom_type: match slots.custom_type {
                    Some(b) => b,
                    None => false,
                },
                reserved_ident,
                default: slots.default,
                get_one: slots.get_one,
                get_optional: slots.get_optional,
                get_many: slots.get_many,
                set: slots.set,
                _phantom: PhantomData,
            },
        )
    }
}

/// The position of the first field called `name`.
fn find_field<B: Backend>(fields: &Vec<TableField<B>>, name: &String) -> (out: Option<usize>)
    ensures
        match out {
            Some(k) => position(fields.deep_view(), name@) == Some(k as int) && k < fields.len(),
            None => position(fields.deep_view(), name@) is None,
        },
{
    let ghost all = fields.deep_view();
    let mut i: usize = 0;
    proof {
        lemma_position(all, name@);
    }
    while i < fields.len()
        invariant
            i <= fields.len(),
            all == fields.deep_view(),
            forall|j: int| 0 <= j < i ==> (#[trigger] all[j]).field != name@,
        decreases fields.len() - i,
    {
        assert(all[i as int] == fields[i as int]@);
        if fields[i].field == *name {
            proof {
                lemma_position(all, name@);
            }
            return Some(i);
        }
        i += 1;
    }
    proof {
        lemma_position(all, name@);
    }
    None
}

fn has_default<B: Backend>(fields: &Vec<TableField<B>>) -> (out: bool)
    ensures
        out == any_default(fields.deep_view()),
{
    let ghost all = fields.deep_view();
    let mut i: usize = 0;
    while i < fields.len()
        invariant
            i <= fields.len(),
            all == fields.deep_view(),
            forall|j: int| 0 <= j < i ==> (#[trigger] all[j]).default is None,
        decreases fields.len() - i,
    {
        assert(all[i as int] == fields[i as int]@);
        if fields[i].default.is_some() {
            return true;
        }
        i += 1;
    }
    false
}

fn has_untyped<B: Backend>(fields: &Vec<TableField<B>>) -> (out: bool)
    ensures
        out == any_untyped(fields.deep_view()),
{
    let ghost all = fields.deep_view();
    let mut i: usize = 0;
    while i < fields.len()
        invariant
            i <= fields.len(),
            all == fields.deep_view(),
            forall|j: int| 0 <= j < i ==> (#[trigger] all[j]).column_type is Some,
        decreases fields.len() - i,
    {
        assert(all[i as int] == fields[i as int]@);
        if fields[i].column_type.is_none() {
            return true;
        }
        i += 1;
    }
    false
}

impl<B: Backend> Table<B> {
    /// Builds the table that a declaration describes.
    ///
    /// Fails with the first failure of a member in declared order; else with
    /// the first annotation of the table that cannot be read; else with
    /// `DuplicateAttribute`; else, in this order, if `id` is missing, names
    /// no member, or names a member with a default; if a member has a default
    /// and the table is not insertable; if `table` is missing; if the table
    /// is syncable and a member has no column type.
    pub fn try_from(value: &StructInput) -> (r: Result<Self, SchemaError>)
        ensures
            built(r) == table_from::<B>(value@),
            r matches Ok(table) ==> table@.valid(),
    {
        let ghost inputs = value@.fields;
        let ghost results = field_results::<B>(inputs);
        let mut fields: Vec<TableField<B>> = Vec::new();
        let mut i: usize = 0;
        proof {
            assert(fields.deep_view() =~= Seq::<TableFieldView>::empty());
        }
        while i < value.fields.len()
            invariant
                i <= value.fields.len(),
                inputs == value@.fields,
                results == field_results::<B>(inputs),
                all_ok(results.take(i as int)) == Ok::<Seq<TableFieldView>, SchemaError>(
                    fields.deep_view(),
                ),
            decreases value.fields.len() - i,
        {
            let ghost done = fields.deep_view();
            proof {
                lemma_all_ok_step(results, i as int);
                assert(inputs[i as int] == value.fields[i as int]@);
            }
            match TableField::<B>::try_from(&value.fields[i]) {
                Ok(field) => {
                    fields.push(field);
                    proof {
                        assert(fields.deep_view() =~= done.push(field@));
                    }
                },
                Err(e) => {
                    proof {
                        lemma_all_ok_fails(results, i + 1);
                    }
                    return Err(e);
                },
            }
            i += 1;
        }
        proof {
            assert(results.take(i as int) =~= results);
        }
        let attrs = match parse_attrs::<TableAttr>(&value.attrs) {
            Ok(attrs) => attrs,
            Err(e) => {
                return Err(SchemaError::Parse(e));
            },
        };
        let slots = match fold_table_attrs(&attrs, &value.ident) {
            Some(slots) => slots,
            None => {
                return Err(SchemaError::DuplicateAttribute);
            },
        };
        let id_name = match slots.id {
            Some(id) => id,
            None => {
                return Err(SchemaError::MissingAttribute(RequiredAttr::Id));
            },
        };
        let k = match find_field(&fields, &id_name) {
            Some(k) => k,
            None => {
                return Err(SchemaError::UnknownIdField);
            },
        };
        let id = fields[k].clone();
        assert(fields.deep_view()[k as int] == fields[k as int]@);
        if id.default.is_some() {
            return Err(SchemaError::InvalidIdDefault);
        }
        if slots.insertable.is_none() && has_default(&fields) {
            return Err(SchemaError::DefaultWithoutInsertable);
        }
        let table = match slots.table {
            Some(table) => table,
            None => {
                return Err(SchemaError::MissingAttribute(RequiredAttr::Table));
            },
        };
        let syncable = match slots.syncable {
            Some(b) => b,
            None => false,
        };
        if syncable && has_untyped(&fields) {
            return Err(SchemaError::MissingColumnType);
        }
        Ok(
            Table {
                ident: value.ident.clone(),
                vis: value.vis.clone(),
                table,
                id,
                fields,
                insertable: slots.insertable,
                engine: slots.engine,
                charset: slots.charset,
                collation: slots.collation,
                syncable,
            },
        )
    }
}

} // verus!
