//! What differs between database engines, and the generators built on it.
//!
//! A dialect is a type that implements [`Backend`]: its quote character, its
//! reserved words, the markers it writes for bound arguments, and whether it
//! can return columns from an `INSERT`.

use vstd::prelude::*;

pub mod common;
pub mod mysql;
pub mod postgres;

verus! {

/// The sequence of markers that stand for the bound arguments of one
/// statement. A value of this type is made for one statement and hands out
/// that statement's markers from left to right.
pub trait Bindings: Sized {
    /// How many markers were handed out so far.
    spec fn issued(&self) -> nat;

    /// The text of the marker for the argument at position `k`, counted from 0.
    spec fn marker(k: nat) -> Seq<char>;

    /// The sequence before its first marker.
    fn start() -> (b: Self)
        ensures
            b.issued() == 0,
    ;

    /// Hands out the next marker; `None` once the counter cannot advance.
    fn next(&mut self) -> (m: Option<String>)
        ensures
            old(self).issued() < u128::MAX ==> (m matches Some(t) && t@ == Self::marker(
                old(self).issued(),
            ) && final(self).issued() == old(self).issued() + 1),
            old(self).issued() >= u128::MAX ==> m is None && final(self).issued() == old(
                self,
            ).issued(),
    ;
}

/// The lexical conventions of one database engine.
pub trait Backend: Sized {
    type Bindings: Bindings;

    /// The character that opens and closes a quoted identifier.
    spec fn quote_char() -> char;

    /// The reserved words, in upper case.
    spec fn reserved_idents() -> Seq<Seq<char>>;

    /// Whether an `INSERT` can return columns of the new row.
    spec fn returning() -> bool;

    /// Whether `CREATE TABLE` takes engine, charset and collation.
    spec fn table_options() -> bool;

    /// The quote character, as a string of that one character.
    fn quote() -> (q: &'static str)
        ensures
            q@ == seq![Self::quote_char()],
    ;

    /// Whether the upper-case word `word` is reserved.
    fn is_reserved(word: &str) -> (b: bool)
        ensures
            b == Self::reserved_idents().contains(word@),
    ;

    fn supports_returning() -> (b: bool)
        ensures
            b == Self::returning(),
    ;

    fn supports_table_options() -> (b: bool)
        ensures
            b == Self::table_options(),
    ;
}

/// The marker that the dialect `B` writes at position `k` of a statement.
pub open spec fn marker<B: Backend>(k: nat) -> Seq<char> {
    <B::Bindings as Bindings>::marker(k)
}

/// The markers of positions `0` to `n - 1`.
pub open spec fn markers<B: Backend>(n: nat) -> Seq<Seq<char>> {
    Seq::new(n, |k: int| marker::<B>(k as nat))
}

} // verus!
