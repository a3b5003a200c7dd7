//! The failures of annotation parsing and schema validation.

use vstd::prelude::*;
use vstd::string::StringExecFns;

verus! {

/// Why one annotation could not be read.
#[derive(Clone, Copy, Debug, PartialEq, Eq, Structural)]
pub enum ParseError {
    /// The key names no attribute of the family being parsed.
    UnknownAttribute,
    /// The key needs `= value` and none was written.
    MissingValue,
    /// The value is not of the kind the key takes.
    InvalidValue,
    /// Something was written where the key's grammar has nothing.
    UnexpectedTokens,
}

/// An attribute that a declaration cannot do without.
#[derive(Clone, Copy, Debug, PartialEq, Eq, Structural)]
pub enum RequiredAttr {
    Table,
    Id,
    TableName,
}

/// Why a declaration is not a schema.
#[derive(Clone, Copy, Debug, PartialEq, Eq, Structural)]
pub enum SchemaError {
    /// An annotation could not be read.
    Parse(ParseError),
    /// A required attribute was not given.
    MissingAttribute(RequiredAttr),
    /// `id` names no member of the structure.
    UnknownIdField,
    /// The id member carries a default value.
    InvalidIdDefault,
    /// A member carries a default value and the table is not insertable.
    DefaultWithoutInsertable,
    /// An attribute was given twice for one member or table.
    DuplicateAttribute,
    /// The table is syncable and a member has no column type.
    MissingColumnType,
}

impl RequiredAttr {
    /// The key under which the attribute is written.
    pub open spec fn key(self) -> Seq<char> {
        match self {
            RequiredAttr::Table => "table"@,
            RequiredAttr::Id => "id"@,
            RequiredAttr::TableName => "table_name"@,
        }
    }

    /// The key under which the attribute is written.
    pub fn as_str(&self) -> (key: &'static str)
        ensures
            key@ == self.key(),
    {
        match self {
            RequiredAttr::Table => "table",
            RequiredAttr::Id => "id",
            RequiredAttr::TableName => "table_name",
        }
    }
}

impl ParseError {
    /// The text shown for the failure.
    pub open spec fn text(self) -> Seq<char> {
        match self {
            ParseError::UnknownAttribute => "unknown attribute"@,
            ParseError::MissingValue => "expected `=` and a value"@,
            ParseError::InvalidValue => "unexpected kind of value"@,
            ParseError::UnexpectedTokens => "unexpected tokens"@,
        }
    }

    /// The text shown for the failure.
    pub fn message(&self) -> (msg: String)
        ensures
            msg@ == self.text(),
    {
        match self {
            ParseError::UnknownAttribute => String::from_str("unknown attribute"),
            ParseError::MissingValue => String::from_str("expected `=` and a value"),
            ParseError::InvalidValue => String::from_str("unexpected kind of value"),
            ParseError::UnexpectedTokens => String::from_str("unexpected tokens"),
        }
    }
}

impl SchemaError {
    /// The text shown for the failure.
    pub open spec fn text(self) -> Seq<char> {
        match self {
            SchemaError::Parse(e) => e.text(),
            SchemaError::MissingAttribute(a) => "missing #[ormx("@ + a.key() + ")] attribute"@,
            SchemaError::UnknownIdField => "id does not refer to a field of the struct"@,
            SchemaError::InvalidIdDefault => "id field cannot be annotated with #[ormx(default)]"@,
            SchemaError::DefaultWithoutInsertable =>
                "#[ormx(default)] has no effect without #[ormx(insertable = ..)]"@,
            SchemaError::DuplicateAttribute => "duplicate attribute"@,
            SchemaError::MissingColumnType => "column_type is not set, cannot sync"@,
        }
    }

    /// The text shown for the failure.
    pub fn message(&self) -> (msg: String)
        ensures
            msg@ == self.text(),
    {
        match self {
            SchemaError::Parse(e) => e.message(),
            SchemaError::MissingAttribute(a) => {
                let mut msg = String::from_str("missing #[ormx(");
                msg.append(a.as_str());
                msg.append(")] attribute");
                msg
            },
            SchemaError::UnknownIdField => String::from_str(
                "id does not refer to a field of the struct",
            ),
            SchemaError::InvalidIdDefault => String::from_str(
                "id field cannot be annotated with #[ormx(default)]",
            ),
            SchemaError::DefaultWithoutInsertable => String::from_str(
                "#[ormx(default)] has no effect without #[ormx(insertable = ..)]",
            ),
            SchemaError::DuplicateAttribute => String::from_str("duplicate attribute"),
            SchemaError::MissingColumnType => String::from_str(
                "column_type is not set, cannot sync",
            ),
        }
    }
}

} // verus!
