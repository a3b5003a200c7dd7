//! The typed attributes, and the parser that reads them from annotations.
//!
//! Every key maps to exactly one variant. A key takes its value in one of a
//! few shapes (none, a string, an identifier, ...); the shape functions below
//! say which annotations have that shape and which failure the others give.

use vstd::prelude::*;
use crate::error::ParseError;
use crate::input::{AttrBlock, AttrBlockView, RawAttr, RawAttrView, RawValue, RawValueView, collect};
use crate::sequence::begins_with;
use crate::text::same_text;

verus! {

/// The name and attributes of the structure generated for inserting.
pub struct Insertable {
    pub attrs: Vec<String>,
    pub ident: String,
}

pub struct InsertableView {
    pub attrs: Seq<Seq<char>>,
    pub ident: Seq<char>,
}

/// A request for a lookup function keyed by one member.
pub struct Getter {
    pub func: Option<String>,
    pub arg_ty: Option<String>,
}

pub struct GetterView {
    pub func: Option<Seq<char>>,
    pub arg_ty: Option<Seq<char>>,
}

pub enum TableAttr {
    /// table = <string>
    Table(String),
    /// id = <ident>
    Id(String),
    /// insertable [= [<attribute>]* <ident>]?
    Insertable(Option<Insertable>),
    /// engine = <string>
    Engine(String),
    /// charset = <string>
    Charset(String),
    /// collation = <string>
    Collation(String),
    /// syncable
    Syncable(()),
}

pub enum TableAttrView {
    Table(Seq<char>),
    Id(Seq<char>),
    Insertable(Option<InsertableView>),
    Engine(Seq<char>),
    Charset(Seq<char>),
    Collation(Seq<char>),
    Syncable(()),
}

pub enum TableFieldAttr {
    /// column = <string>
    Column(String),
    /// column_type = <string>
    ColumnType(String),
    /// custom_type
    CustomType(()),
    /// primary_key
    PrimaryKey(()),
    /// auto_increment
    AutoIncrement(()),
    /// allow_null = <bool>
    AllowNull(bool),
    /// unique [= <string>]
    Unique(Option<String>),
    /// default = <string>
    Default(String),
    /// get_one [= <ident>]? [(<type>)]?
    GetOne(Getter),
    /// get_optional [= <ident>]? [(<type>)]?
    GetOptional(Getter),
    /// get_many [= <ident>]? [(<type>)]?
    GetMany(Getter),
    /// set [= <ident>]?
    Setter(Option<String>),
}

pub enum TableFieldAttrView {
    Column(Seq<char>),
    ColumnType(Seq<char>),
    CustomType(()),
    PrimaryKey(()),
    AutoIncrement(()),
    AllowNull(bool),
    Unique(Option<Seq<char>>),
    Default(Seq<char>),
    GetOne(GetterView),
    GetOptional(GetterView),
    GetMany(GetterView),
    Setter(Option<Seq<char>>),
}

pub enum PatchAttr {
    /// table_name = <string>
    TableName(String),
    /// table = <path>
    Table(String),
    /// id = <string>
    Id(String),
}

pub enum PatchAttrView {
    TableName(Seq<char>),
    Table(Seq<char>),
    Id(Seq<char>),
}

pub enum PatchFieldAttr {
    /// column = <string>
    Column(String),
}

pub enum PatchFieldAttrView {
    Column(Seq<char>),
}

impl DeepView for Insertable {
    type V = InsertableView;

    open spec fn deep_view(&self) -> InsertableView {
        InsertableView { attrs: self.attrs.deep_view(), ident: self.ident@ }
    }
}

impl View for Insertable {
    type V = InsertableView;

    open spec fn view(&self) -> InsertableView {
        self.deep_view()
    }
}

impl DeepView for Getter {
    type V = GetterView;

    open spec fn deep_view(&self) -> GetterView {
        GetterView { func: self.func.deep_view(), arg_ty: self.arg_ty.deep_view() }
    }
}

impl View for Getter {
    type V = GetterView;

    open spec fn view(&self) -> GetterView {
        self.deep_view()
    }
}

impl DeepView for TableAttr {
    type V = TableAttrView;

    open spec fn deep_view(&self) -> TableAttrView {
        match self {
            TableAttr::Table(s) => TableAttrView::Table(s@),
            TableAttr::Id(s) => TableAttrView::Id(s@),
            TableAttr::Insertable(i) => TableAttrView::Insertable(i.deep_view()),
            TableAttr::Engine(s) => TableAttrView::Engine(s@),
            TableAttr::Charset(s) => TableAttrView::Charset(s@),
            TableAttr::Collation(s) => TableAttrView::Collation(s@),
            TableAttr::Syncable(u) => TableAttrView::Syncable(()),
        }
    }
}

impl View for TableAttr {
    type V = TableAttrView;

    open spec fn view(&self) -> TableAttrView {
        self.deep_view()
    }
}

impl DeepView for TableFieldAttr {
    type V = TableFieldAttrView;

    open spec fn deep_view(&self) -> TableFieldAttrView {
        match self {
            TableFieldAttr::Column(s) => TableFieldAttrView::Column(s@),
            TableFieldAttr::ColumnType(s) => TableFieldAttrView::ColumnType(s@),
            TableFieldAttr::CustomType(u) => TableFieldAttrView::CustomType(()),
            TableFieldAttr::PrimaryKey(u) => TableFieldAttrView::PrimaryKey(()),
            TableFieldAttr::AutoIncrement(u) => TableFieldAttrView::AutoIncrement(()),
            TableFieldAttr::AllowNull(b) => TableFieldAttrView::AllowNull(*b),
            TableFieldAttr::Unique(s) => TableFieldAttrView::Unique(s.deep_view()),
            TableFieldAttr::Default(s) => TableFieldAttrView::Default(s@),
            TableFieldAttr::GetOne(g) => TableFieldAttrView::GetOne(g@),
            TableFieldAttr::GetOptional(g) => TableFieldAttrView::GetOptional(g@),
            TableFieldAttr::GetMany(g) => TableFieldAttrView::GetMany(g@),
            TableFieldAttr::Setter(s) => TableFieldAttrView::Setter(s.deep_view()),
        }
    }
}

impl View for TableFieldAttr {
    type V = TableFieldAttrView;

    open spec fn view(&self) -> TableFieldAttrView {
        self.deep_view()
    }
}

impl DeepView for PatchAttr {
    type V = PatchAttrView;

    open spec fn deep_view(&self) -> PatchAttrView {
        match self {
            PatchAttr::TableName(s) => PatchAttrView::TableName(s@),
            PatchAttr::Table(s) => PatchAttrView::Table(s@),
            PatchAttr::Id(s) => PatchAttrView::Id(s@),
        }
    }
}

impl View for PatchAttr {
    type V = PatchAttrView;

    open spec fn view(&self) -> PatchAttrView {
        self.deep_view()
    }
}

impl DeepView for PatchFieldAttr {
    type V = PatchFieldAttrView;

    open spec fn deep_view(&self) -> PatchFieldAttrView {
        match self {
            PatchFieldAttr::Column(s) => PatchFieldAttrView::Column(s@),
        }
    }
}

impl View for PatchFieldAttr {
    type V = PatchFieldAttrView;

    open spec fn view(&self) -> PatchFieldAttrView {
        self.deep_view()
    }
}

/// What a parse gives, with the parsed value taken by its view.
pub open spec fn outcome<T: DeepView>(r: Result<T, ParseError>) -> Result<T::V, ParseError> {
    match r {
        Ok(t) => Ok(t.deep_view()),
        Err(e) => Err(e),
    }
}

/// The shape of a key that stands alone.
pub open spec fn bare(raw: RawAttrView) -> Result<(), ParseError> {
    if raw.value is None && raw.outer.len() == 0 && raw.argument is None {
        Ok(())
    } else {
        Err(ParseError::UnexpectedTokens)
    }
}

/// The shape `key = <string>`.
pub open spec fn string_value(raw: RawAttrView) -> Result<Seq<char>, ParseError> {
    match raw.value {
        None => Err(ParseError::MissingValue),
        Some(RawValueView::Str(s)) => if raw.outer.len() != 0 {
            Err(ParseError::InvalidValue)
        } else if raw.argument is Some {
            Err(ParseError::UnexpectedTokens)
        } else {
            Ok(s)
        },
        Some(_) => Err(ParseError::InvalidValue),
    }
}

/// The shape `key = <bool>`.
pub open spec fn bool_value(raw: RawAttrView) -> Result<bool, ParseError> {
    match raw.value {
        None => Err(ParseError::MissingValue),
        Some(RawValueView::Bool(b)) => if raw.outer.len() != 0 {
            Err(ParseError::InvalidValue)
        } else if raw.argument is Some {
            Err(ParseError::UnexpectedTokens)
        } else {
            Ok(b)
        },
        Some(_) => Err(ParseError::InvalidValue),
    }
}

/// The shape `key = <ident>`.
pub open spec fn ident_value(raw: RawAttrView) -> Result<Seq<char>, ParseError> {
    match raw.value {
        None => Err(ParseError::MissingValue),
        Some(RawValueView::Ident(s)) => if raw.outer.len() != 0 {
            Err(ParseError::InvalidValue)
        } else if raw.argument is Some {
            Err(ParseError::UnexpectedTokens)
        } else {
            Ok(s)
        },
        Some(_) => Err(ParseError::InvalidValue),
    }
}

/// The shape `key = <path>`; a single identifier is a path too.
pub open spec fn path_value(raw: RawAttrView) -> Result<Seq<char>, ParseError> {
    match raw.value {
        None => Err(ParseError::MissingValue),
        Some(RawValueView::Ident(s)) | Some(RawValueView::Path(s)) => if raw.outer.len() != 0 {
            Err(ParseError::InvalidValue)
        } else if raw.argument is Some {
            Err(ParseError::UnexpectedTokens)
        } else {
            Ok(s)
        },
        Some(_) => Err(ParseError::InvalidValue),
    }
}

/// The shape `key [= <string>]?`.
pub open spec fn optional_string(raw: RawAttrView) -> Result<Option<Seq<char>>, ParseError> {
    if raw.value is None {
        match bare(raw) {
            Ok(_) => Ok(None),
            Err(e) => Err(e),
        }
    } else {
        match string_value(raw) {
            Ok(s) => Ok(Some(s)),
            Err(e) => Err(e),
        }
    }
}

/// The shape `key [= <ident>]?`.
pub open spec fn optional_ident(raw: RawAttrView) -> Result<Option<Seq<char>>, ParseError> {
    if raw.value is None {
        match bare(raw) {
            Ok(_) => Ok(None),
            Err(e) => Err(e),
        }
    } else {
        match ident_value(raw) {
            Ok(s) => Ok(Some(s)),
            Err(e) => Err(e),
        }
    }
}

/// The shape `key [= <ident>]? [(<type>)]?`.
pub open spec fn getter_value(raw: RawAttrView) -> Result<GetterView, ParseError> {
    match raw.value {
        None => if raw.outer.len() != 0 {
            Err(ParseError::UnexpectedTokens)
        } else {
            Ok(GetterView { func: None, arg_ty: raw.argument })
        },
        Some(RawValueView::Ident(s)) => if raw.outer.len() != 0 {
            Err(ParseError::InvalidValue)
        } else {
            Ok(GetterView { func: Some(s), arg_ty: raw.argument })
        },
        Some(_) => Err(ParseError::InvalidValue),
    }
}

/// The shape `key [= [<attribute>]* <ident>]?`.
pub open spec fn insertable_value(raw: RawAttrView) -> Result<
    Option<InsertableView>,
    ParseError,
> {
    match raw.value {
        None => match bare(raw) {
            Ok(_) => Ok(None),
            Err(e) => Err(e),
        },
        Some(RawValueView::Ident(s)) => if raw.argument is Some {
            Err(ParseError::UnexpectedTokens)
        } else {
            Ok(Some(InsertableView { attrs: raw.outer, ident: s }))
        },
        Some(_) => Err(ParseError::InvalidValue),
    }
}

/// A family of attributes that can be read from annotations.
pub trait ParseAttr: Sized + DeepView {
    /// The attribute that an annotation stands for, or why it stands for none.
    spec fn parsed(raw: RawAttrView) -> Result<<Self as DeepView>::V, ParseError>;

    /// Reads one annotation.
    fn parse(raw: &RawAttr) -> (r: Result<Self, ParseError>)
        ensures
            outcome(r) == Self::parsed(raw@),
    ;
}

/// The annotations read one by one; the first failure, if any, is the result.
pub open spec fn parse_all<A: ParseAttr>(raws: Seq<RawAttrView>) -> Result<
    Seq<<A as DeepView>::V>,
    ParseError,
>
    decreases raws.len(),
{
    if raws.len() == 0 {
        Ok(Seq::empty())
    } else {
        match parse_all::<A>(raws.drop_last()) {
            Err(e) => Err(e),
            Ok(done) => match A::parsed(raws.last()) {
                Err(e) => Err(e),
                Ok(a) => Ok(done.push(a)),
            },
        }
    }
}

fn clone_string(s: &String) -> (out: String)
    ensures
        out@ == s@,
{
    s.clone()
}

fn parse_bare(raw: &RawAttr) -> (r: Result<(), ParseError>)
    ensures
        r == bare(raw@),
{
    if raw.value.is_none() && raw.outer.len() == 0 && raw.argument.is_none() {
        Ok(())
    } else {
        Err(ParseError::UnexpectedTokens)
    }
}

fn parse_string(raw: &RawAttr) -> (r: Result<String, ParseError>)
    ensures
        outcome(r) == string_value(raw@),
{
    match &raw.value {
        None => Err(ParseError::MissingValue),
        Some(RawValue::Str(s)) => {
            if raw.outer.len() != 0 {
                Err(ParseError::InvalidValue)
            } else if raw.argument.is_some() {
                Err(ParseError::UnexpectedTokens)
            } else {
                Ok(clone_string(s))
            }
        },
        Some(_) => Err(ParseError::InvalidValue),
    }
}

fn parse_bool(raw: &RawAttr) -> (r: Result<bool, ParseError>)
    ensures
        r == bool_value(raw@),
{
    match &raw.value {
        None => Err(ParseError::MissingValue),
        Some(RawValue::Bool(b)) => {
            if raw.outer.len() != 0 {
                Err(ParseError::InvalidValue)
            } else if raw.argument.is_some() {
                Err(ParseError::UnexpectedTokens)
            } else {
                Ok(*b)
            }
        },
        Some(_) => Err(ParseError::InvalidValue),
    }
}

fn parse_ident(raw: &RawAttr) -> (r: Result<String, ParseError>)
    ensures
        outcome(r) == ident_value(raw@),
{
    match &raw.value {
        None => Err(ParseError::MissingValue),
        Some(RawValue::Ident(s)) => {
            if raw.outer.len() != 0 {
                Err(ParseError::InvalidValue)
            } else if raw.argument.is_some() {
                Err(ParseError::UnexpectedTokens)
            } else {
                Ok(clone_string(s))
            }
        },
        Some(_) => Err(ParseError::InvalidValue),
    }
}

fn parse_path(raw: &RawAttr) -> (r: Result<String, ParseError>)
    ensures
        outcome(r) == path_value(raw@),
{
    match &raw.value {
        None => Err(ParseError::MissingValue),
        Some(RawValue::Ident(s)) | Some(RawValue::Path(s)) => {
            if raw.outer.len() != 0 {
                Err(ParseError::InvalidValue)
            } else if raw.argument.is_some() {
                Err(ParseError::UnexpectedTokens)
            } else {
                Ok(clone_string(s))
            }
        },
        Some(_) => Err(ParseError::InvalidValue),
    }
}

fn parse_optional_string(raw: &RawAttr) -> (r: Result<Option<String>, ParseError>)
    ensures
        outcome(r) == optional_string(raw@),
{
    if raw.value.is_none() {
        match parse_bare(raw) {
            Ok(_) => Ok(None),
            Err(e) => Err(e),
        }
    } else {
        match parse_string(raw) {
            Ok(s) => Ok(Some(s)),
            Err(e) => Err(e),
        }
    }
}

fn parse_optional_ident(raw: &RawAttr) -> (r: Result<Option<String>, ParseError>)
    ensures
        outcome(r) == optional_ident(raw@),
{
    if raw.value.is_none() {
        match parse_bare(raw) {
            Ok(_) => Ok(None),
            Err(e) => Err(e),
        }
    } else {
        match parse_ident(raw) {
            Ok(s) => Ok(Some(s)),
            Err(e) => Err(e),
        }
    }
}

fn parse_getter(raw: &RawAttr) -> (r: Result<Getter, ParseError>)
    ensures
        outcome(r) == getter_value(raw@),
{
    match &raw.value {
        None => {
            if raw.outer.len() != 0 {
                Err(ParseError::UnexpectedTokens)
            } else {
                Ok(Getter { func: None, arg_ty: raw.argument.clone() })
            }
        },
        Some(RawValue::Ident(s)) => {
            if raw.outer.len() != 0 {
                Err(ParseError::InvalidValue)
            } else {
                Ok(Getter { func: Some(clone_string(s)), arg_ty: raw.argument.clone() })
            }
        },
        Some(_) => Err(ParseError::InvalidValue),
    }
}

fn parse_insertable(raw: &RawAttr) -> (r: Result<Option<Insertable>, ParseError>)
    ensures
        outcome(r) == insertable_value(raw@),
{
    match &raw.value {
        None => match parse_bare(raw) {
            Ok(_) => Ok(None),
            Err(e) => Err(e),
        },
        Some(RawValue::Ident(s)) => {
            if raw.argument.is_some() {
                Err(ParseError::UnexpectedTokens)
            } else {
                Ok(Some(Insertable { attrs: raw.outer.clone(), ident: clone_string(s) }))
            }
        },
        Some(_) => Err(ParseError::InvalidValue),
    }
}

impl ParseAttr for TableAttr {
    open spec fn parsed(raw: RawAttrView) -> Result<TableAttrView, ParseError> {
        if raw.key == "table"@ {
            match string_value(raw) {
                Ok(s) => Ok(TableAttrView::Table(s)),
                Err(e) => Err(e),
            }
        } else if raw.key == "id"@ {
            match ident_value(raw) {
                Ok(s) => Ok(TableAttrView::Id(s)),
                Err(e) => Err(e),
            }
        } else if raw.key == "insertable"@ {
            match insertable_value(raw) {
                Ok(i) => Ok(TableAttrView::Insertable(i)),
                Err(e) => Err(e),
            }
        } else if raw.key == "engine"@ {
            match string_value(raw) {
                Ok(s) => Ok(TableAttrView::Engine(s)),
                Err(e) => Err(e),
            }
        } else if raw.key == "charset"@ {
            match string_value(raw) {
                Ok(s) => Ok(TableAttrView::Charset(s)),
                Err(e) => Err(e),
            }
        } else if raw.key == "collation"@ {
            match string_value(raw) {
                Ok(s) => Ok(TableAttrView::Collation(s)),
                Err(e) => Err(e),
            }
        } else if raw.key == "syncable"@ {
            match bare(raw) {
                Ok(_) => Ok(TableAttrView::Syncable(())),
                Err(e) => Err(e),
            }
        } else {
            Err(ParseError::UnknownAttribute)
        }
    }

    fn parse(raw: &RawAttr) -> (r: Result<Self, ParseError>) {
        if same_text(&raw.key, "table") {
            match parse_string(raw) {
                Ok(s) => Ok(TableAttr::Table(s)),
                Err(e) => Err(e),
            }
        } else if same_text(&raw.key, "id") {
            match parse_ident(raw) {
                Ok(s) => Ok(TableAttr::Id(s)),
                Err(e) => Err(e),
            }
        } else if same_text(&raw.key, "insertable") {
            match parse_insertable(raw) {
                Ok(i) => Ok(TableAttr::Insertable(i)),
                Err(e) => Err(e),
            }
        } else if same_text(&raw.key, "engine") {
            match parse_string(raw) {
                Ok(s) => Ok(TableAttr::Engine(s)),
                Err(e) => Err(e),
            }
        } else if same_text(&raw.key, "charset") {
            match parse_string(raw) {
                Ok(s) => Ok(TableAttr::Charset(s)),
                Err(e) => Err(e),
            }
        } else if same_text(&raw.key, "collation") {
            match parse_string(raw) {
                Ok(s) => Ok(TableAttr::Collation(s)),
                Err(e) => Err(e),
            }
        } else if same_text(&raw.key, "syncable") {
            match parse_bare(raw) {
                Ok(_) => Ok(TableAttr::Syncable(())),
                Err(e) => Err(e),
            }
        } else {
            Err(ParseError::UnknownAttribute)
        }
    }
}

impl ParseAttr for TableFieldAttr {
    open spec fn parsed(raw: RawAttrView) -> Result<TableFieldAttrView, ParseError> {
        if raw.key == "column"@ {
            match string_value(raw) {
                Ok(s) => Ok(TableFieldAttrView::Column(s)),
                Err(e) => Err(e),
            }
        } else if raw.key == "column_type"@ {
            match string_value(raw) {
                Ok(s) => Ok(TableFieldAttrView::ColumnType(s)),
                Err(e) => Err(e),
            }
        } else if raw.key == "get_one"@ {
            match getter_value(raw) {
                Ok(g) => Ok(TableFieldAttrView::GetOne(g)),
                Err(e) => Err(e),
            }
        } else if raw.key == "get_optional"@ {
            match getter_value(raw) {
                Ok(g) => Ok(TableFieldAttrView::GetOptional(g)),
                Err(e) => Err(e),
            }
        } else if raw.key == "get_many"@ {
            match getter_value(raw) {
                Ok(g) => Ok(TableFieldAttrView::GetMany(g)),
                Err(e) => Err(e),
            }
        } else if raw.key == "set"@ {
            match optional_ident(raw) {
                Ok(s) => Ok(TableFieldAttrView::Setter(s)),
                Err(e) => Err(e),
            }
        } else if raw.key == "custom_type"@ {
            match bare(raw) {
                Ok(_) => Ok(TableFieldAttrView::CustomType(())),
                Err(e) => Err(e),
            }
        } else if raw.key == "primary_key"@ {
            match bare(raw) {
                Ok(_) => Ok(TableFieldAttrView::PrimaryKey(())),
                Err(e) => Err(e),
            }
        } else if raw.key == "allow_null"@ {
            match bool_value(raw) {
                Ok(b) => Ok(TableFieldAttrView::AllowNull(b)),
                Err(e) => Err(e),
            }
        } else if raw.key == "auto_increment"@ {
            match bare(raw) {
                Ok(_) => Ok(TableFieldAttrView::AutoIncrement(())),
                Err(e) => Err(e),
            }
        } else if raw.key == "unique"@ {
            match optional_string(raw) {
                Ok(s) => Ok(TableFieldAttrView::Unique(s)),
                Err(e) => Err(e),
            }
        } else if raw.key == "default"@ {
            match string_value(raw) {
                Ok(s) => Ok(TableFieldAttrView::Default(s)),
                Err(e) => Err(e),
            }
        } else {
            Err(ParseError::UnknownAttribute)
        }
    }

    fn parse(raw: &RawAttr) -> (r: Result<Self, ParseError>) {
        if same_text(&raw.key, "column") {
            match parse_string(raw) {
                Ok(s) => Ok(TableFieldAttr::Column(s)),
                Err(e) => Err(e),
            }
        } else if same_text(&raw.key, "column_type") {
            match parse_string(raw) {
                Ok(s) => Ok(TableFieldAttr::ColumnType(s)),
                Err(e) => Err(e),
            }
        } else if same_text(&raw.key, "get_one") {
            match parse_getter(raw) {
                Ok(g) => Ok(TableFieldAttr::GetOne(g)),
                Err(e) => Err(e),
            }
        } else if same_text(&raw.key, "get_optional") {
            match parse_getter(raw) {
                Ok(g) => Ok(TableFieldAttr::GetOptional(g)),
                Err(e) => Err(e),
            }
        } else if same_text(&raw.key, "get_many") {
            match parse_getter(raw) {
                Ok(g) => Ok(TableFieldAttr::GetMany(g)),
                Err(e) => Err(e),
            }
        } else if same_text(&raw.key, "set") {
            match parse_optional_ident(raw) {
                Ok(s) => Ok(TableFieldAttr::Setter(s)),
                Err(e) => Err(e),
            }
        } else if same_text(&raw.key, "custom_type") {
            match parse_bare(raw) {
                Ok(_) => Ok(TableFieldAttr::CustomType(())),
                Err(e) => Err(e),
            }
        } else if same_text(&raw.key, "primary_key") {
            match parse_bare(raw) {
                Ok(_) => Ok(TableFieldAttr::PrimaryKey(())),
                Err(e) => Err(e),
            }
        } else if same_text(&raw.key, "allow_null") {
            match parse_bool(raw) {
                Ok(b) => Ok(TableFieldAttr::AllowNull(b)),
                Err(e) => Err(e),
            }
        } else if same_text(&raw.key, "auto_increment") {
            match parse_bare(raw) {
                Ok(_) => Ok(TableFieldAttr::AutoIncrement(())),
                Err(e) => Err(e),
            }
        } else if same_text(&raw.key, "unique") {
            match parse_optional_string(raw) {
                Ok(s) => Ok(TableFieldAttr::Unique(s)),
                Err(e) => Err(e),
            }
        } else if same_text(&raw.key, "default") {
            match parse_string(raw) {
                Ok(s) => Ok(TableFieldAttr::Default(s)),
                Err(e) => Err(e),
            }
        } else {
            Err(ParseError::UnknownAttribute)
        }
    }
}

impl ParseAttr for PatchAttr {
    open spec fn parsed(raw: RawAttrView) -> Result<PatchAttrView, ParseError> {
        if raw.key == "table"@ {
            match path_value(raw) {
                Ok(s) => Ok(PatchAttrView::Table(s)),
                Err(e) => Err(e),
            }
        } else if raw.key == "table_name"@ {
            match string_value(raw) {
                Ok(s) => Ok(PatchAttrView::TableName(s)),
                Err(e) => Err(e),
            }
        } else if raw.key == "id"@ {
            match string_value(raw) {
                Ok(s) => Ok(PatchAttrView::Id(s)),
                Err(e) => Err(e),
            }
        } else {
            Err(ParseError::UnknownAttribute)
        }
    }

    fn parse(raw: &RawAttr) -> (r: Result<Self, ParseError>) {
        if same_text(&raw.key, "table") {
            match parse_path(raw) {
                Ok(s) => Ok(PatchAttr::Table(s)),
                Err(e) => Err(e),
            }
        } else if same_text(&raw.key, "table_name") {
            match parse_string(raw) {
                Ok(s) => Ok(PatchAttr::TableName(s)),
                Err(e) => Err(e),
            }
        } else if same_text(&raw.key, "id") {
            match parse_string(raw) {
                Ok(s) => Ok(PatchAttr::Id(s)),
                Err(e) => Err(e),
            }
        } else {
            Err(ParseError::UnknownAttribute)
        }
    }
}

impl ParseAttr for PatchFieldAttr {
    open spec fn parsed(raw: RawAttrView) -> Result<PatchFieldAttrView, ParseError> {
        if raw.key == "column"@ {
            match string_value(raw) {
                Ok(s) => Ok(PatchFieldAttrView::Column(s)),
                Err(e) => Err(e),
            }
        } else {
            Err(ParseError::UnknownAttribute)
        }
    }

    fn parse(raw: &RawAttr) -> (r: Result<Self, ParseError>) {
        if same_text(&raw.key, "column") {
            match parse_string(raw) {
                Ok(s) => Ok(PatchFieldAttr::Column(s)),
                Err(e) => Err(e),
            }
        } else {
            Err(ParseError::UnknownAttribute)
        }
    }
}

/// Reads every annotation written under `ormx`, block after block, into the
/// attributes of the family `A`. The blocks are flattened into one sequence;
/// the first annotation that cannot be read decides the failure.
pub fn parse_attrs<A: ParseAttr>(blocks: &Vec<AttrBlock>) -> (r: Result<Vec<A>, ParseError>)
    ensures
        outcome(r) == parse_all::<A>(collect(blocks.deep_view())),
{
    let mut out: Vec<A> = Vec::new();
    let ghost all = blocks.deep_view();
    let mut i: usize = 0;
    proof {
        assert(out.deep_view() =~= Seq::empty());
        assert(collect(all.take(0)) =~= Seq::empty());
    }
    while i < blocks.len()
        invariant
            i <= blocks.len(),
            all == blocks.deep_view(),
            parse_all::<A>(collect(all.take(i as int))) == Ok::<Seq<<A as DeepView>::V>, ParseError>(
                out.deep_view(),
            ),
        decreases blocks.len() - i,
    {
        let block = &blocks[i];
        let ghost before = collect(all.take(i as int));
        let ghost items = block.attrs.deep_view();
        proof {
            assert(all.take(i + 1).drop_last() =~= all.take(i as int));
            assert(all.take(i + 1).last() == block.deep_view());
        }
        if same_text(&block.path, "ormx") {
            let mut j: usize = 0;
            proof {
                assert(before + items.take(0) =~= before);
            }
            while j < block.attrs.len()
                invariant
                    j <= block.attrs.len(),
                    i < blocks.len(),
                    all == blocks.deep_view(),
                    items == block.attrs.deep_view(),
                    collect(all.take(i + 1)) == before + items,
                    parse_all::<A>(before + items.take(j as int)) == Ok::<
                        Seq<<A as DeepView>::V>,
                        ParseError,
                    >(out.deep_view()),
                decreases block.attrs.len() - j,
            {
                let ghost done = out.deep_view();
                let ghost next = before + items.take(j + 1);
                proof {
                    assert(next.drop_last() =~= before + items.take(j as int));
                    assert(next.last() == block.attrs[j as int].deep_view());
                }
                match A::parse(&block.attrs[j]) {
                    Ok(a) => {
                        out.push(a);
                        proof {
                            assert(out.deep_view() =~= done.push(a.deep_view()));
                        }
                    },
                    Err(e) => {
                        proof {
                            assert((before + items).take(next.len() as int) =~= next);
                            lemma_parse_all_fails::<A>(before + items, next, e);
                            lemma_collect_prefix(all, i + 1);
                            lemma_parse_all_fails::<A>(collect(all), before + items, e);
                        }
                        return Err(e);
                    },
                }
                j += 1;
            }
            proof {
                assert(items.take(j as int) =~= items);
            }
        }
        i += 1;
    }
    proof {
        assert(all.take(i as int) =~= all);
    }
    Ok(out)
}

/// The annotations collected from the first `n` blocks begin those collected
/// from all of them.
pub proof fn lemma_collect_prefix(blocks: Seq<AttrBlockView>, n: int)
    requires
        0 <= n <= blocks.len(),
    ensures
        begins_with(collect(blocks), collect(blocks.take(n))),
    decreases blocks.len(),
{
    if n == blocks.len() {
        assert(blocks.take(n) =~= blocks);
        assert(collect(blocks).take(collect(blocks).len() as int) =~= collect(blocks));
    } else {
        lemma_collect_prefix(blocks.drop_last(), n);
        assert(blocks.drop_last().take(n) =~= blocks.take(n));
        let part = collect(blocks.take(n));
        let shorter = collect(blocks.drop_last());
        assert(collect(blocks).take(part.len() as int) =~= shorter.take(part.len() as int));
    }
}

/// A failure among the first annotations is the failure of the whole.
pub proof fn lemma_parse_all_fails<A: ParseAttr>(
    raws: Seq<RawAttrView>,
    head: Seq<RawAttrView>,
    e: ParseError,
)
    requires
        begins_with(raws, head),
        parse_all::<A>(head) == Err::<Seq<<A as DeepView>::V>, ParseError>(e),
    ensures
        parse_all::<A>(raws) == Err::<Seq<<A as DeepView>::V>, ParseError>(e),
    decreases raws.len(),
{
    if raws.len() == head.len() {
        assert(raws.take(head.len() as int) =~= raws);
    } else {
        assert(raws.drop_last().take(head.len() as int) =~= raws.take(head.len() as int));
        lemma_parse_all_fails::<A>(raws.drop_last(), head, e);
    }
}

} // verus!
