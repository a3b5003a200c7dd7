//! The PostgreSQL dialect: double-quote quoting, `$1, $2, ...` for the bound
//! arguments, and `RETURNING`.

use vstd::prelude::*;
use vstd::string::StringExecFns;
use crate::backend::{Backend, Bindings};
use crate::text::{decimal, decimal_string, same_text};

verus! {

#[derive(Clone)]
pub struct PgBackend;

/// The markers of one PostgreSQL statement: `$` and the argument's ordinal.
pub struct PgBindings {
    issued: u128,
}

impl Bindings for PgBindings {
    closed spec fn issued(&self) -> nat {
        self.issued as nat
    }

    open spec fn marker(k: nat) -> Seq<char> {
        "$"@ + decimal(k + 1)
    }

    fn start() -> (b: Self) {
        PgBindings { issued: 0 }
    }

    fn next(&mut self) -> (m: Option<String>) {
        if self.issued < u128::MAX {
            self.issued = self.issued + 1;
            let mut out = String::from_str("$");
            out.append(decimal_string(self.issued).as_str());
            Some(out)
        } else {
            None
        }
    }
}

impl Default for PgBindings {
    fn default() -> (b: Self)
        ensures
            b.issued() == 0,
    {
        PgBindings { issued: 0 }
    }
}

/// The words that PostgreSQL reserves.
fn reserved_words() -> (words: Vec<&'static str>)
    ensures
        words.deep_view() == PgBackend::reserved_idents(),
{
    let words = vec![
        "ALL", "ANALYSE", "ANALYZE", "AND", "ANY", "ARRAY", "AS", "ASC", "ASYMMETRIC", "BOTH",
        "CASE", "CAST", "CHECK", "COLLATE", "COLUMN", "CONSTRAINT", "CREATE", "CURRENT_CATALOG",
        "CURRENT_DATE", "CURRENT_ROLE", "CURRENT_TIME", "CURRENT_TIMESTAMP", "CURRENT_USER",
        "DEFAULT", "DEFERRABLE", "DESC", "DISTINCT", "DO", "ELSE", "END", "EXCEPT", "FALSE",
        "FETCH", "FOR", "FOREIGN", "FROM", "GRANT", "GROUP", "HAVING", "IN", "INITIALLY",
        "INTERSECT", "INTO", "LATERAL", "LEADING", "LIMIT", "LOCALTIME", "LOCALTIMESTAMP", "NOT",
        "NULL", "OFFSET", "ON", "ONLY", "OR", "ORDER", "PLACING", "PRIMARY", "REFERENCES",
        "RETURNING", "SELECT", "SESSION_USER", "SOME", "SYMMETRIC", "TABLE", "THEN", "TO",
        "TRAILING", "TRUE", "UNION", "UNIQUE", "USER", "USING", "VARIADIC", "WHEN", "WHERE",
        "WINDOW", "WITH",
    ];
    assert(words.deep_view() =~= PgBackend::reserved_idents());
    words
}

impl Backend for PgBackend {
    type Bindings = PgBindings;

    open spec fn quote_char() -> char {
        '"'
    }

    open spec fn reserved_idents() -> Seq<Seq<char>> {
        seq![
            "ALL"@, "ANALYSE"@, "ANALYZE"@, "AND"@, "ANY"@, "ARRAY"@, "AS"@, "ASC"@,
            "ASYMMETRIC"@, "BOTH"@, "CASE"@, "CAST"@, "CHECK"@, "COLLATE"@, "COLUMN"@,
            "CONSTRAINT"@, "CREATE"@, "CURRENT_CATALOG"@, "CURRENT_DATE"@, "CURRENT_ROLE"@,
            "CURRENT_TIME"@, "CURRENT_TIMESTAMP"@, "CURRENT_USER"@, "DEFAULT"@, "DEFERRABLE"@,
            "DESC"@, "DISTINCT"@, "DO"@, "ELSE"@, "END"@, "EXCEPT"@, "FALSE"@, "FETCH"@, "FOR"@,
            "FOREIGN"@, "FROM"@, "GRANT"@, "GROUP"@, "HAVING"@, "IN"@, "INITIALLY"@,
            "INTERSECT"@, "INTO"@, "LATERAL"@, "LEADING"@, "LIMIT"@, "LOCALTIME"@,
            "LOCALTIMESTAMP"@, "NOT"@, "NULL"@, "OFFSET"@, "ON"@, "ONLY"@, "OR"@, "ORDER"@,
            "PLACING"@, "PRIMARY"@, "REFERENCES"@, "RETURNING"@, "SELECT"@, "SESSION_USER"@,
            "SOME"@, "SYMMETRIC"@, "TABLE"@, "THEN"@, "TO"@, "TRAILING"@, "TRUE"@, "UNION"@,
            "UNIQUE"@, "USER"@, "USING"@, "VARIADIC"@, "WHEN"@, "WHERE"@, "WINDOW"@, "WITH"@,
        ]
    }

    open spec fn returning() -> bool {
        true
    }

    open spec fn table_options() -> bool {
        false
    }

    fn quote() -> (q: &'static str) {
        proof {
            reveal_strlit("\"");
        }
        let q = "\"";
        assert(q@ =~= seq!['"']);
        q
    }

    fn is_reserved(word: &str) -> (b: bool) {
        let words = reserved_words();
        let wanted = String::from_str(word);
        let mut k: usize = 0;
        while k < words.len()
            invariant
                k <= words.len(),
                wanted@ == word@,
                words.deep_view() == Self::reserved_idents(),
                forall|j: int| 0 <= j < k ==> Self::reserved_idents()[j] != word@,
            decreases words.len() - k,
        {
            assert(words.deep_view()[k as int] == words[k as int]@);
            if same_text(&wanted, words[k]) {
                return true;
            }
            k += 1;
        }
        false
    }

    fn supports_returning() -> (b: bool) {
        true
    }

    fn supports_table_options() -> (b: bool) {
        false
    }
}

} // verus!
