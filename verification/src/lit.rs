//! The literal resolver.
//!
//! Validator arguments arrive as raw annotation literals.  Each resolver
//! accepts exactly one shape and never coerces: a numeric literal is never
//! accepted where a string is required, and so on.

use vstd::prelude::*;
use crate::intent::Literal;

verus! {

/// The string a literal holds, if it is a string literal.
pub open spec fn lit_string_model(l: Literal) -> Option<Seq<char>> {
    match l {
        Literal::Text(s) => Some(s@),
        _ => None,
    }
}

/// The boolean a literal holds, if it is a boolean literal.
pub open spec fn lit_bool_model(l: Literal) -> Option<bool> {
    match l {
        Literal::Truth(b) => Some(b),
        _ => None,
    }
}

/// The number a literal holds, if it is a numeric literal.
pub open spec fn lit_num_model(l: Literal) -> Option<i64> {
    match l {
        Literal::Num(n) => Some(n),
        _ => None,
    }
}

/// Resolves a literal expected to be a string; any other shape is refused.
pub fn lit_to_string(l: &Literal) -> (r: Option<String>)
    ensures
        match r {
            Some(s) => lit_string_model(*l) == Some(s@),
            None => lit_string_model(*l) is None,
        },
{
    match l {
        Literal::Text(s) => Some(s.clone()),
        _ => None,
    }
}

/// Resolves a literal expected to be a boolean; any other shape is refused.
pub fn lit_to_bool(l: &Literal) -> (r: Option<bool>)
    ensures
        r == lit_bool_model(*l),
{
    match l {
        Literal::Truth(b) => Some(*b),
        _ => None,
    }
}

/// Resolves a literal expected to be a number; any other shape is refused.
pub fn lit_to_num(l: &Literal) -> (r: Option<i64>)
    ensures
        r == lit_num_model(*l),
{
    match l {
        Literal::Num(n) => Some(*n),
        _ => None,
    }
}

} // verus!
