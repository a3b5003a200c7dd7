//! Schema model and SQL generation for lightweight object-relational mapping.
//!
//! A mapped structure is described by an [`input::StructInput`]: its name, its
//! members and the annotations written on both. [`attrs`] reads the
//! annotations, [`table::Table::try_from`] validates the declaration into a
//! [`table::Table`], and the functions of [`backend`] render the table into
//! the statements and operation descriptions of one database dialect.
//! [`patch`] does the same for a patch, [`protocol`] holds the decisions the
//! generated operations take at run time, and [`laws`] states what holds of
//! every schema and statement.

pub mod args;
pub mod attrs;
pub mod backend;
pub mod error;
pub mod input;
pub mod laws;
pub mod patch;
pub mod protocol;
pub mod sequence;
pub mod statement;
pub mod table;
pub mod text;
