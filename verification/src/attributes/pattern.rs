//! The `@pattern(...)` sub-grammar: a parenthesized string literal.
use vstd::prelude::*;

use crate::error::{err_at, parses_to, Parsed, ParseError};
use crate::token::{at_punct, Punct, SpecToken, Token};

verus! {

/// What parsing a `@pattern` argument at `pos` yields: `(`, one string
/// literal, `)`.
pub open spec fn spec_parse_pattern(t: Seq<SpecToken>, pos: int) -> Parsed<Seq<char>> {
    if !at_punct(t, pos, Punct::OpenParen) {
        Parsed::Fail("expected parentheses"@, pos)
    } else if pos + 1 < t.len() && t[pos + 1] is Str {
        if at_punct(t, pos + 2, Punct::CloseParen) {
            Parsed::Found(t[pos + 1]->Str_0, pos + 3)
        } else {
            Parsed::Fail("unexpected token"@, pos + 2)
        }
    } else {
        Parsed::Fail("expected string literal for pattern"@, pos + 1)
    }
}

/// Parses a parenthesized pattern name.
pub fn parse_pattern(toks: &Vec<Token>, pos: usize) -> (r: Result<(String, usize), ParseError>)
    requires
        pos <= toks@.len(),
    ensures
        parses_to(r, spec_parse_pattern(toks.deep_view(), pos as int)),
        r matches Ok((_, q)) ==> pos < q <= toks@.len(),
{
    if !(pos < toks.len() && toks[pos].is_punct(Punct::OpenParen)) {
        return Err(err_at(pos, "expected parentheses"));
    }
    if pos + 1 < toks.len() {
        match &toks[pos + 1] {
            Token::Str(s) => {
                if pos + 2 < toks.len() && toks[pos + 2].is_punct(Punct::CloseParen) {
                    return Ok((s.clone(), pos + 3));
                }
                return Err(err_at(pos + 2, "unexpected token"));
            },
            _ => {},
        }
    }
    Err(err_at(pos + 1, "expected string literal for pattern"))
}

} // verus!
