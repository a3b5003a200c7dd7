//! A patch: a structure that names some columns of a table, to be written
//! together.

use vstd::prelude::*;
use crate::backend::Backend;
use crate::backend::common::patch::{PatchImpl, impl_patch};
use crate::attrs::{
    PatchAttr, PatchAttrView, PatchFieldAttr, PatchFieldAttrView, parse_all, parse_attrs,
};
use crate::error::{RequiredAttr, SchemaError};
use crate::input::{FieldInput, FieldInputView, StructInput, StructInputView, collect};
use crate::sequence::{
    all_ok, lemma_all_ok_fails, lemma_all_ok_step, lemma_try_fold_fails, lemma_try_fold_step,
    try_fold,
};
use crate::table::parse::built;

verus! {

pub struct Patch {
    pub ident: String,
    pub table_name: String,
    pub table: String,
    pub id: String,
    pub fields: Vec<PatchField>,
}

pub struct PatchField {
    pub ident: String,
    pub column: String,
}

pub struct PatchView {
    pub ident: Seq<char>,
    pub table_name: Seq<char>,
    pub table: Seq<char>,
    pub id: Seq<char>,
    pub fields: Seq<PatchFieldView>,
}

pub struct PatchFieldView {
    pub ident: Seq<char>,
    pub column: Seq<char>,
}

/// What the annotations of a patch have set so far.
pub struct PatchSlots {
    pub table_name: Option<String>,
    pub table: Option<String>,
    pub id: Option<String>,
}

pub struct PatchSlotsView {
    pub table_name: Option<Seq<char>>,
    pub table: Option<Seq<char>>,
    pub id: Option<Seq<char>>,
}

impl DeepView for PatchField {
    type V = PatchFieldView;

    open spec fn deep_view(&self) -> PatchFieldView {
        PatchFieldView { ident: self.ident@, column: self.column@ }
    }
}

impl View for PatchField {
    type V = PatchFieldView;

    open spec fn view(&self) -> PatchFieldView {
        self.deep_view()
    }
}

impl DeepView for Patch {
    type V = PatchView;

    open spec fn deep_view(&self) -> PatchView {
        PatchView {
            ident: self.ident@,
            table_name: self.table_name@,
            table: self.table@,
            id: self.id@,
            fields: self.fields.deep_view(),
        }
    }
}

impl View for Patch {
    type V = PatchView;

    open spec fn view(&self) -> PatchView {
        self.deep_view()
    }
}

impl DeepView for PatchSlots {
    type V = PatchSlotsView;

    open spec fn deep_view(&self) -> PatchSlotsView {
        PatchSlotsView {
            table_name: self.table_name.deep_view(),
            table: self.table.deep_view(),
            id: self.id.deep_view(),
        }
    }
}

impl View for PatchSlots {
    type V = PatchSlotsView;

    open spec fn view(&self) -> PatchSlotsView {
        self.deep_view()
    }
}

impl PatchSlotsView {
    pub open spec fn empty() -> PatchSlotsView {
        PatchSlotsView { table_name: None, table: None, id: None }
    }

    /// The slots with one more attribute, or `None` if its slot is taken.
    pub open spec fn put(self, attr: PatchAttrView) -> Option<PatchSlotsView> {
        match attr {
            PatchAttrView::TableName(t) => if self.table_name is None {
                Some(PatchSlotsView { table_name: Some(t), ..self })
            } else {
                None
            },
            PatchAttrView::Table(t) => if self.table is None {
                Some(PatchSlotsView { table: Some(t), ..self })
            } else {
                None
            },
            PatchAttrView::Id(i) => if self.id is None {
                Some(PatchSlotsView { id: Some(i), ..self })
            } else {
                None
            },
        }
    }
}

/// The step that folds the attributes of a patch.
pub open spec fn patch_step() -> spec_fn(PatchSlotsView, PatchAttrView) -> Option<PatchSlotsView> {
    |slots: PatchSlotsView, attr: PatchAttrView| slots.put(attr)
}

/// The step that folds the attributes of a member of a patch: the column
/// may be set once.
pub open spec fn patch_field_step() -> spec_fn(Option<Seq<char>>, PatchFieldAttrView) -> Option<
    Option<Seq<char>>,
> {
    |column: Option<Seq<char>>, attr: PatchFieldAttrView|
        match attr {
            PatchFieldAttrView::Column(c) => if column is None {
                Some(Some(c))
            } else {
                None
            },
        }
}

/// The field that a member of a patch describes: its column is the one
/// given, or the member's name.
pub open spec fn patch_field_from(input: FieldInputView) -> Result<PatchFieldView, SchemaError> {
    match parse_all::<PatchFieldAttr>(collect(input.attrs)) {
        Err(e) => Err(SchemaError::Parse(e)),
        Ok(attrs) => match try_fold(attrs, None::<Seq<char>>, patch_field_step()) {
            None => Err(SchemaError::DuplicateAttribute),
            Some(column) => Ok(
                PatchFieldView {
                    ident: input.ident,
                    column: match column {
                        Some(c) => c,
                        None => input.ident,
                    },
                },
            ),
        },
    }
}

/// The results of the members, one by one.
pub open spec fn patch_field_results(inputs: Seq<FieldInputView>) -> Seq<
    Result<PatchFieldView, SchemaError>,
> {
    Seq::new(inputs.len(), |i: int| patch_field_from(inputs[i]))
}

/// The patch that a declaration describes, or why it describes none: the
/// first failure among the members, then the failures of the patch's own
/// annotations, then the first of `table_name`, `table` and `id` that is
/// missing.
pub open spec fn patch_from(input: StructInputView) -> Result<PatchView, SchemaError> {
    match all_ok(patch_field_results(input.fields)) {
        Err(e) => Err(e),
        Ok(fields) => match parse_all::<PatchAttr>(collect(input.attrs)) {
            Err(e) => Err(SchemaError::Parse(e)),
            Ok(attrs) => match try_fold(attrs, PatchSlotsView::empty(), patch_step()) {
                None => Err(SchemaError::DuplicateAttribute),
                Some(slots) => match slots.table_name {
                    None => Err(SchemaError::MissingAttribute(RequiredAttr::TableName)),
                    Some(table_name) => match slots.table {
                        None => Err(SchemaError::MissingAttribute(RequiredAttr::Table)),
                        Some(table) => match slots.id {
                            None => Err(SchemaError::MissingAttribute(RequiredAttr::Id)),
                            Some(id) => Ok(
                                PatchView { ident: input.ident, table_name, table, id, fields },
                            ),
                        },
                    },
                },
            },
        },
    }
}

impl PatchSlots {
    fn put(self, attr: &PatchAttr) -> (out: Option<PatchSlots>)
        ensures
            out.deep_view() == self@.put(attr@),
    {
        let mut slots = self;
        match attr {
            PatchAttr::TableName(t) => {
                if slots.table_name.is_some() {
                    return None;
                }
                slots.table_name = Some(t.clone());
            },
            PatchAttr::Table(t) => {
                if slots.table.is_some() {
                    return None;
                }
                slots.table = Some(t.clone());
            },
            PatchAttr::Id(i) => {
                if slots.id.is_some() {
                    return None;
                }
                slots.id = Some(i.clone());
            },
        }
        Some(slots)
    }
}

fn fold_patch_attrs(attrs: &Vec<PatchAttr>) -> (out: Option<PatchSlots>)
    ensures
        out.deep_view() == try_fold(attrs.deep_view(), PatchSlotsView::empty(), patch_step()),
{
    let ghost all = attrs.deep_view();
    let ghost step = patch_step();
    let mut slots = PatchSlots { table_name: None, table: None, id: None };
    let mut i: usize = 0;
    while i < attrs.len()
        invariant
            i <= attrs.len(),
            all == attrs.deep_view(),
            step == patch_step(),
            try_fold(all.take(i as int), PatchSlotsView::empty(), step) == Some(slots@),
        decreases attrs.len() - i,
    {
        proof {
            lemma_try_fold_step(all, PatchSlotsView::empty(), step, i as int);
            assert(all[i as int] == attrs[i as int]@);
        }
        match slots.put(&attrs[i]) {
            Some(next) => {
                slots = next;
            },
            None => {
                proof {
                    lemma_try_fold_fails(all, PatchSlotsView::empty(), step, i + 1);
                }
                return None;
            },
        }
        i += 1;
    }
    proof {
        assert(all.take(i as int) =~= all);
    }
    Some(slots)
}

fn fold_patch_field_attrs(attrs: &Vec<PatchFieldAttr>) -> (out: Option<Option<String>>)
    ensures
        out.deep_view() == try_fold(attrs.deep_view(), None::<Seq<char>>, patch_field_step()),
{
    let ghost all = attrs.deep_view();
    let ghost step = patch_field_step();
    let mut column: Option<String> = None;
    let mut i: usize = 0;
    while i < attrs.len()
        invariant
            i <= attrs.len(),
            all == attrs.deep_view(),
            step == patch_field_step(),
            try_fold(all.take(i as int), None::<Seq<char>>, step) == Some(column.deep_view()),
        decreases attrs.len() - i,
    {
        proof {
            lemma_try_fold_step(all, None::<Seq<char>>, step, i as int);
            assert(all[i as int] == attrs[i as int]@);
        }
        match &attrs[i] {
            PatchFieldAttr::Column(c) => {
                if column.is_some() {
                    proof {
                        lemma_try_fold_fails(all, None::<Seq<char>>, step, i + 1);
                    }
                    return None;
                }
                column = Some(c.clone());
            },
        }
        i += 1;
    }
    proof {
        assert(all.take(i as int) =~= all);
    }
    Some(column)
}

impl PatchField {
    /// Builds the field that a member of a patch describes.
    pub fn try_from(value: &FieldInput) -> (r: Result<Self, SchemaError>)
        ensures
            built(r) == patch_field_from(value@),
    {
        let attrs = match parse_attrs::<PatchFieldAttr>(&value.attrs) {
            Ok(attrs) => attrs,
            Err(e) => {
                return Err(SchemaError::Parse(e));
            },
        };
        let column = match fold_patch_field_attrs(&attrs) {
            Some(column) => column,
            None => {
                return Err(SchemaError::DuplicateAttribute);
            },
        };
        Ok(
            PatchField {
                ident: value.ident.clone(),
                column: match column {
                    Some(c) => c,
                    None => value.ident.clone(),
                },
            },
        )
    }
}

impl Patch {
    /// Builds the patch that a declaration describes.
    ///
    /// Fails with the first failure of a member in declared order; else with
    /// the first annotation of the patch that cannot be read; else with
    /// `DuplicateAttribute`; else with the first of `table_name`, `table`
    /// and `id` that is missing.
    pub fn try_from(value: &StructInput) -> (r: Result<Self, SchemaError>)
        ensures
            built(r) == patch_from(value@),
    {
        let ghost inputs = value@.fields;
        let ghost results = patch_field_results(inputs);
        let mut fields: Vec<PatchField> = Vec::new();
        let mut i: usize = 0;
        proof {
            assert(fields.deep_view() =~= Seq::<PatchFieldView>::empty());
        }
        while i < value.fields.len()
            invariant
                i <= value.fields.len(),
                inputs == value@.fields,
                results == patch_field_results(inputs),
                all_ok(results.take(i as int)) == Ok::<Seq<PatchFieldView>, SchemaError>(
                    fields.deep_view(),
                ),
            decreases value.fields.len() - i,
        {
            let ghost done = fields.deep_view();
            proof {
                lemma_all_ok_step(results, i as int);
                assert(inputs[i as int] == value.fields[i as int]@);
            }
            match PatchField::try_from(&value.fields[i]) {
                Ok(field) => {
                    fields.push(field);
                    proof {
                        assert(fields.deep_view() =~= done.push(field@));
                    }
                },
                Err(e) => {
                    proof {
                        lemma_all_ok_fails(results, i + 1);
                    }
                    return Err(e);
                },
            }
            i += 1;
        }
        proof {
            assert(results.take(i as int) =~= results);
        }
        let attrs = match parse_attrs::<PatchAttr>(&value.attrs) {
            Ok(attrs) => attrs,
            Err(e) => {
                return Err(SchemaError::Parse(e));
            },
        };
        let slots = match fold_patch_attrs(&attrs) {
            Some(slots) => slots,
            None => {
                return Err(SchemaError::DuplicateAttribute);
            },
        };
        let table_name = match slots.table_name {
            Some(t) => t,
            None => {
                return Err(SchemaError::MissingAttribute(RequiredAttr::TableName));
            },
        };
        let table = match slots.table {
            Some(t) => t,
            None => {
                return Err(SchemaError::MissingAttribute(RequiredAttr::Table));
            },
        };
        let id = match slots.id {
            Some(i) => i,
            None => {
                return Err(SchemaError::MissingAttribute(RequiredAttr::Id));
            },
        };
        Ok(Patch { ident: value.ident.clone(), table_name, table, id, fields })
    }
}

/// Validates the declaration of a patch and generates its operations. A
/// declaration that is no patch fails as `Patch::try_from` does.
pub fn derive<B: Backend>(input: &StructInput) -> (r: Result<PatchImpl, SchemaError>)
    ensures
        built(r) == match patch_from(input@) {
            Ok(patch) => Ok(patch.impl_patch::<B>()),
            Err(e) => Err(e),
        },
{
    match Patch::try_from(input) {
        Ok(patch) => Ok(impl_patch::<B>(&patch)),
        Err(e) => Err(e),
    }
}

} // verus!
