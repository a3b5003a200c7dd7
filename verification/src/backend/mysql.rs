//! The MySQL dialect: backtick quoting and `?` for every bound argument.

use vstd::prelude::*;
use crate::backend::{Backend, Bindings};

verus! {

#[derive(Clone)]
pub struct MySqlBackend;

/// The markers of one MySQL statement: `?`, whatever the position.
pub struct MySqlBindings {
    issued: u128,
}

impl Bindings for MySqlBindings {
    closed spec fn issued(&self) -> nat {
        self.issued as nat
    }

    open spec fn marker(k: nat) -> Seq<char> {
        "?"@
    }

    fn start() -> (b: Self) {
        MySqlBindings { issued: 0 }
    }

    fn next(&mut self) -> (m: Option<String>) {
        if self.issued < u128::MAX {
            self.issued = self.issued + 1;
            Some(String::from_str("?"))
        } else {
            None
        }
    }
}

impl Default for MySqlBindings {
    fn default() -> (b: Self)
        ensures
            b.issued() == 0,
    {
        MySqlBindings { issued: 0 }
    }
}

impl Backend for MySqlBackend {
    type Bindings = MySqlBindings;

    open spec fn quote_char() -> char {
        '`'
    }

    open spec fn reserved_idents() -> Seq<Seq<char>> {
        Seq::empty()
    }

    open spec fn returning() -> bool {
        false
    }

    open spec fn table_options() -> bool {
        true
    }

    fn quote() -> (q: &'static str) {
        proof {
            reveal_strlit("`");
        }
        let q = "`";
        assert(q@ =~= seq!['`']);
        q
    }

    fn is_reserved(word: &str) -> (b: bool) {
        false
    }

    fn supports_returning() -> (b: bool) {
        false
    }

    fn supports_table_options() -> (b: bool) {
        true
    }
}

} // verus!
