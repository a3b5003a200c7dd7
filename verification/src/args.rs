//! The vocabulary of richer queries: hints, order and attribute selection.

use vstd::prelude::*;

verus! {

#[derive(Debug, Clone, Copy, PartialEq, Eq, Structural)]
pub enum IndexHint {
    Use,
    Force,
    Ignore,
}

#[derive(Debug, Clone, Copy, PartialEq, Eq, Structural)]
pub enum TableHints {
    NoLock,
    ReadUncommited,
    UpdLock,
    RepeatableRead,
    Serializable,
    ReadCommited,
    TabLock,
    TabLockX,
    PagLock,
    RowLock,
    NoWait,
    ReadPast,
    XLock,
    Snapshot,
    NoExpand,
}

#[derive(Debug, Clone, Copy, PartialEq, Eq, Structural)]
pub enum QueryType {
    Select,
    Insert,
    Update,
    BulkUpdate,
    BulkDelete,
    Delete,
    Upsert,
    Version,
    ShowTables,
    ShowIndexes,
    Describe,
    Raw,
    ForeignKeys,
    ShowConstraints,
}

#[derive(Debug, Clone, Copy, PartialEq, Eq, Structural)]
pub enum OrderType {
    Desc,
    Asc,
}

#[derive(Debug, Clone)]
pub struct AttributesValue {
    pub list: Vec<String>,
    pub included: Vec<String>,
    pub exclude: Vec<String>,
}

#[derive(Debug, Clone)]
pub struct AssociationArg {}

} // verus!
