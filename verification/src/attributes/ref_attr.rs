//! The `@ref(...)` sub-grammar: a parenthesized string literal, or a bare
//! identifier taken as the reference name.
use vstd::prelude::*;

use crate::error::{err_at, parses_to, Parsed, ParseError};
use crate::token::{at_punct, Punct, SpecToken, Token};

verus! {

/// What parsing a `@ref` argument at `pos` yields: `(`, a string literal
/// or any identifier (keywords included), `)`.
pub open spec fn spec_parse_ref_name(t: Seq<SpecToken>, pos: int) -> Parsed<Seq<char>> {
    if !at_punct(t, pos, Punct::OpenParen) {
        Parsed::Fail("expected parentheses"@, pos)
    } else if pos + 1 < t.len() && (t[pos + 1] is Str || t[pos + 1] is Ident) {
        let name = if t[pos + 1] is Str {
            t[pos + 1]->Str_0
        } else {
            t[pos + 1]->Ident_0
        };
        if at_punct(t, pos + 2, Punct::CloseParen) {
            Parsed::Found(name, pos + 3)
        } else {
            Parsed::Fail("unexpected token"@, pos + 2)
        }
    } else {
        Parsed::Fail("expected identifier"@, pos + 1)
    }
}

/// Parses a parenthesized reference name.
pub fn parse_ref_name(toks: &Vec<Token>, pos: usize) -> (r: Result<(String, usize), ParseError>)
    requires
        pos <= toks@.len(),
    ensures
        parses_to(r, spec_parse_ref_name(toks.deep_view(), pos as int)),
        r matches Ok((_, q)) ==> pos < q <= toks@.len(),
{
    if !(pos < toks.len() && toks[pos].is_punct(Punct::OpenParen)) {
        return Err(err_at(pos, "expected parentheses"));
    }
    if pos + 1 < toks.len() {
        let name: String = match &toks[pos + 1] {
            Token::Str(s) => s.clone(),
            Token::Ident(s) => s.clone(),
            _ => {
                return Err(err_at(pos + 1, "expected identifier"));
            },
        };
        if pos + 2 < toks.len() && toks[pos + 2].is_punct(Punct::CloseParen) {
            return Ok((name, pos + 3));
        }
        return Err(err_at(pos + 2, "unexpected token"));
    }
    Err(err_at(pos + 1, "expected identifier"))
}

} // verus!
