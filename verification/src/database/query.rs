//! Statements with placeholders, and the pieces they are put together from.

use crate::text::{concat, push_text, texts};
use vstd::prelude::*;

verus! {

/// A statement and the values for its placeholders, in order.
#[derive(Debug)]
pub struct SearchQuery {
    pub sql: String,
    pub params: Vec<String>,
}

/// A term as a pattern that matches every text that holds it.
pub open spec fn like_pattern_of(term: Seq<char>) -> Seq<char> {
    "%"@ + term + "%"@
}

/// The pattern that matches every text that holds `term`.
pub fn like_pattern(term: &str) -> (pattern: String)
    ensures
        pattern@ == like_pattern_of(term@),
{
    let mut pattern = concat("%", term);
    pattern.append("%");
    pattern
}

/// `clause` where the filter is given, nothing where it is not.
pub open spec fn clause_if(given: bool, clause: Seq<char>) -> Seq<char> {
    if given {
        clause
    } else {
        Seq::empty()
    }
}

/// `value` as a list of one where it is given, the empty list where not.
pub open spec fn param_if(value: Option<Seq<char>>) -> Seq<Seq<char>> {
    match value {
        Some(v) => seq![v],
        None => Seq::empty(),
    }
}

/// The text that an optional string holds, if there is one.
pub open spec fn opt_string_text(s: Option<String>) -> Option<Seq<char>> {
    match s {
        Some(t) => Some(t@),
        None => None,
    }
}

/// Where `value` is given, adds `clause` to the statement and `value` to
/// the values for its placeholders; changes nothing where it is not.
pub fn append_clause(
    sql: &mut String,
    params: &mut Vec<String>,
    clause: &str,
    value: Option<String>,
)
    ensures
        final(sql)@ == old(sql)@ + clause_if(value is Some, clause@),
        texts(final(params)@) == texts(old(params)@) + param_if(opt_string_text(value)),
{
    if let Some(v) = value {
        sql.append(clause);
        push_text(params, v);
    }
}

} // verus!
