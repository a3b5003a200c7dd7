//! A declaration as the annotation front-end hands it over: names, type
//! texts, and the annotations as keys with their values.

use vstd::prelude::*;

verus! {

/// The value written after `=` in an annotation.
pub enum RawValue {
    /// A string literal.
    Str(String),
    /// A boolean literal.
    Bool(bool),
    /// A single identifier.
    Ident(String),
    /// A path of more than one segment.
    Path(String),
}

pub enum RawValueView {
    Str(Seq<char>),
    Bool(bool),
    Ident(Seq<char>),
    Path(Seq<char>),
}

/// One annotation: `key`, `key = value`, `key(type)` or `key = value(type)`.
pub struct RawAttr {
    pub key: String,
    /// Attributes written between `=` and the value.
    pub outer: Vec<String>,
    pub value: Option<RawValue>,
    /// The type written in parentheses after the key or value.
    pub argument: Option<String>,
}

pub struct RawAttrView {
    pub key: Seq<char>,
    pub outer: Seq<Seq<char>>,
    pub value: Option<RawValueView>,
    pub argument: Option<Seq<char>>,
}

/// One block of annotations, written under the path `path`.
pub struct AttrBlock {
    pub path: String,
    pub attrs: Vec<RawAttr>,
}

pub struct AttrBlockView {
    pub path: Seq<char>,
    pub attrs: Seq<RawAttrView>,
}

/// One member of a declared structure.
pub struct FieldInput {
    pub ident: String,
    pub ty: String,
    pub attrs: Vec<AttrBlock>,
}

pub struct FieldInputView {
    pub ident: Seq<char>,
    pub ty: Seq<char>,
    pub attrs: Seq<AttrBlockView>,
}

/// A declared structure with named members.
pub struct StructInput {
    pub ident: String,
    pub vis: String,
    pub attrs: Vec<AttrBlock>,
    pub fields: Vec<FieldInput>,
}

pub struct StructInputView {
    pub ident: Seq<char>,
    pub vis: Seq<char>,
    pub attrs: Seq<AttrBlockView>,
    pub fields: Seq<FieldInputView>,
}

impl DeepView for RawValue {
    type V = RawValueView;

    open spec fn deep_view(&self) -> RawValueView {
        match self {
            RawValue::Str(s) => RawValueView::Str(s@),
            RawValue::Bool(b) => RawValueView::Bool(*b),
            RawValue::Ident(s) => RawValueView::Ident(s@),
            RawValue::Path(s) => RawValueView::Path(s@),
        }
    }
}

impl View for RawValue {
    type V = RawValueView;

    open spec fn view(&self) -> RawValueView {
        self.deep_view()
    }
}

impl DeepView for RawAttr {
    type V = RawAttrView;

    open spec fn deep_view(&self) -> RawAttrView {
        RawAttrView {
            key: self.key@,
            outer: self.outer.deep_view(),
            value: self.value.deep_view(),
            argument: self.argument.deep_view(),
        }
    }
}

impl View for RawAttr {
    type V = RawAttrView;

    open spec fn view(&self) -> RawAttrView {
        self.deep_view()
    }
}

impl DeepView for AttrBlock {
    type V = AttrBlockView;

    open spec fn deep_view(&self) -> AttrBlockView {
        AttrBlockView { path: self.path@, attrs: self.attrs.deep_view() }
    }
}

impl View for AttrBlock {
    type V = AttrBlockView;

    open spec fn view(&self) -> AttrBlockView {
        self.deep_view()
    }
}

impl DeepView for FieldInput {
    type V = FieldInputView;

    open spec fn deep_view(&self) -> FieldInputView {
        FieldInputView { ident: self.ident@, ty: self.ty@, attrs: self.attrs.deep_view() }
    }
}

impl View for FieldInput {
    type V = FieldInputView;

    open spec fn view(&self) -> FieldInputView {
        self.deep_view()
    }
}

impl DeepView for StructInput {
    type V = StructInputView;

    open spec fn deep_view(&self) -> StructInputView {
        StructInputView {
            ident: self.ident@,
            vis: self.vis@,
            attrs: self.attrs.deep_view(),
            fields: self.fields.deep_view(),
        }
    }
}

impl View for StructInput {
    type V = StructInputView;

    open spec fn view(&self) -> StructInputView {
        self.deep_view()
    }
}

/// The annotations of the blocks written under `ormx`, in order.
pub open spec fn collect(blocks: Seq<AttrBlockView>) -> Seq<RawAttrView>
    decreases blocks.len(),
{
    if blocks.len() == 0 {
        Seq::empty()
    } else if blocks.last().path == "ormx"@ {
        collect(blocks.drop_last()) + blocks.last().attrs
    } else {
        collect(blocks.drop_last())
    }
}

} // verus!
