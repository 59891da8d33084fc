//! The range-value sub-grammar: one endpoint of a loop range.
use vstd::prelude::*;

use crate::ast::{RangeValue, SpecRangeValue};
use crate::error::{err_at, parses_to, Parsed, ParseError};
use crate::token::{SpecToken, Token};

verus! {

/// What parsing one range endpoint at `pos` yields: an identifier or an
/// integer literal, nothing else.
pub open spec fn spec_parse_range_value(t: Seq<SpecToken>, pos: int) -> Parsed<SpecRangeValue> {
    if pos < t.len() && t[pos] is Int {
        Parsed::Found(SpecRangeValue::Lit(t[pos]->Int_0), pos + 1)
    } else if pos < t.len() && t[pos] is Ident {
        Parsed::Found(SpecRangeValue::Ident(t[pos]->Ident_0), pos + 1)
    } else {
        Parsed::Fail("expected identifier or integer for loop range"@, pos)
    }
}

/// Parses one loop-range endpoint.
pub fn parse_range_value(toks: &Vec<Token>, pos: usize) -> (r: Result<(RangeValue, usize), ParseError>)
    requires
        pos <= toks@.len(),
    ensures
        parses_to(r, spec_parse_range_value(toks.deep_view(), pos as int)),
        r matches Ok((_, q)) ==> pos < q <= toks@.len(),
{
    if pos < toks.len() {
        match &toks[pos] {
            Token::Int(s) => {
                return Ok((RangeValue::Lit(s.clone()), pos + 1));
            },
            Token::Ident(s) => {
                return Ok((RangeValue::Ident(s.clone()), pos + 1));
            },
            _ => {},
        }
    }
    Err(err_at(pos, "expected identifier or integer for loop range"))
}

} // verus!
