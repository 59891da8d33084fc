//! The `@init(...)` value sub-grammar: a parenthesized single literal with
//! an optional leading minus.
use vstd::prelude::*;

use crate::ast::{InitValue, SpecInitValue};
use crate::error::{err_at, parses_to, Parsed, ParseError};
use crate::token::{at_punct, Punct, SpecToken, Token};

verus! {

/// What parsing an `@init` value at `pos` yields: `(`, an optional `-`,
/// then exactly one float, integer or bool literal, then `)`. A negated
/// bool is a hard error; the literal text is kept exactly as written.
pub open spec fn spec_parse_init_value(t: Seq<SpecToken>, pos: int) -> Parsed<SpecInitValue> {
    if !at_punct(t, pos, Punct::OpenParen) {
        Parsed::Fail("expected parentheses"@, pos)
    } else {
        let neg = at_punct(t, pos + 1, Punct::Minus);
        let p = if neg { pos + 2 } else { pos + 1 };
        if p >= t.len() {
            Parsed::Fail("expected numeric or boolean literal for init"@, p)
        } else {
            match t[p] {
                SpecToken::Float(s) => if at_punct(t, p + 1, Punct::CloseParen) {
                    Parsed::Found(SpecInitValue::Float { lit: s, negative: neg }, p + 2)
                } else {
                    Parsed::Fail("unexpected token"@, p + 1)
                },
                SpecToken::Int(s) => if at_punct(t, p + 1, Punct::CloseParen) {
                    Parsed::Found(SpecInitValue::Int { lit: s, negative: neg }, p + 2)
                } else {
                    Parsed::Fail("unexpected token"@, p + 1)
                },
                SpecToken::Ident(s) => if s == "true"@ || s == "false"@ {
                    if neg {
                        Parsed::Fail("boolean init cannot be negative"@, p)
                    } else if at_punct(t, p + 1, Punct::CloseParen) {
                        Parsed::Found(SpecInitValue::Bool { value: s == "true"@ }, p + 2)
                    } else {
                        Parsed::Fail("unexpected token"@, p + 1)
                    }
                } else {
                    Parsed::Fail("expected numeric or boolean literal for init"@, p)
                },
                _ => Parsed::Fail("expected numeric or boolean literal for init"@, p),
            }
        }
    }
}

/// Parses a parenthesized `@init` value.
pub fn parse_init_value(toks: &Vec<Token>, pos: usize) -> (r: Result<
    (InitValue, usize),
    ParseError,
>)
    requires
        pos <= toks@.len(),
    ensures
        parses_to(r, spec_parse_init_value(toks.deep_view(), pos as int)),
        r matches Ok((_, q)) ==> pos < q <= toks@.len(),
{
    if !(pos < toks.len() && toks[pos].is_punct(Punct::OpenParen)) {
        return Err(err_at(pos, "expected parentheses"));
    }
    let negative = pos + 1 < toks.len() && toks[pos + 1].is_punct(Punct::Minus);
    let p = if negative { pos + 2 } else { pos + 1 };
    if p >= toks.len() {
        return Err(err_at(p, "expected numeric or boolean literal for init"));
    }
    let value: InitValue = match &toks[p] {
        Token::Float(s) => InitValue::Float { lit: s.clone(), negative },
        Token::Int(s) => InitValue::Int { lit: s.clone(), negative },
        Token::Ident(_) => {
            if toks[p].is_kw("true") || toks[p].is_kw("false") {
                if negative {
                    return Err(err_at(p, "boolean init cannot be negative"));
                }
                InitValue::Bool { value: toks[p].is_kw("true") }
            } else {
                return Err(err_at(p, "expected numeric or boolean literal for init"));
            }
        },
        _ => {
            return Err(err_at(p, "expected numeric or boolean literal for init"));
        },
    };
    if !(p + 1 < toks.len() && toks[p + 1].is_punct(Punct::CloseParen)) {
        return Err(err_at(p + 1, "unexpected token"));
    }
    Ok((value, p + 2))
}

} // verus!
