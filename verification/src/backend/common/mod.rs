//! The generators that every dialect shares.

pub mod accessors;
pub mod insert;
pub mod patch;
pub mod table;
