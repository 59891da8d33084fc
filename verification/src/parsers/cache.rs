//! The cache-access sub-grammar: a base identifier with optional bracketed
//! index expressions, each a single value or a slice with independently
//! optional bounds. Elided comma-delimited indices become explicit
//! fully-open slices, so downstream consumers can index positionally.
use vstd::prelude::*;

use crate::ast::{CacheAccess, CacheIndexExpr, CacheIndexValue, SpecCacheAccess, SpecCacheIndexExpr, SpecCacheIndexValue};
use crate::error::{err_at, parses_to, prepend_list, prepend_one, Parsed, ParseError};
use crate::num::{digits_val, is_digits, parse_i64_digits};
use crate::token::{at_punct, Punct, SpecToken, Token};

verus! {

/// What parsing one cache index value at `pos` yields: a signed integer
/// literal or a bare identifier. A `-` before an identifier is a hard
/// error; only integer literals may be signed.
pub open spec fn spec_parse_cache_index_value(t: Seq<SpecToken>, pos: int) -> Parsed<
    SpecCacheIndexValue,
> {
    let neg = at_punct(t, pos, Punct::Minus);
    let p = if neg { pos + 1 } else { pos };
    if p < t.len() && t[p] is Int {
        let s = t[p]->Int_0;
        if is_digits(s) && digits_val(s) <= i64::MAX {
            let v = if neg { -digits_val(s) } else { digits_val(s) };
            Parsed::Found(SpecCacheIndexValue::Lit(v as i64), p + 1)
        } else {
            Parsed::Fail("number too large to fit in target type"@, p)
        }
    } else if p < t.len() && t[p] is Ident {
        if neg {
            Parsed::Fail("unexpected '-' before identifier"@, p)
        } else {
            Parsed::Found(SpecCacheIndexValue::Ident(t[p]->Ident_0), p + 1)
        }
    } else {
        Parsed::Fail("expected identifier or integer for cache index"@, p)
    }
}

/// What parsing an optional cache index value yields: nothing at the end
/// of the list or before a comma, else a value.
pub open spec fn spec_parse_cache_index_value_opt(t: Seq<SpecToken>, pos: int) -> Parsed<
    Option<SpecCacheIndexValue>,
> {
    if pos >= t.len() || at_punct(t, pos, Punct::CloseBracket) || at_punct(t, pos, Punct::Comma) {
        Parsed::Found(None, pos)
    } else {
        match spec_parse_cache_index_value(t, pos) {
            Parsed::Found(v, q) => Parsed::Found(Some(v), q),
            Parsed::Fail(m, q) => Parsed::Fail(m, q),
        }
    }
}

/// What parsing one cache index entry at `pos` yields: a slice when `..`
/// appears before or after a value, else a single value.
pub open spec fn spec_parse_cache_entry(t: Seq<SpecToken>, pos: int) -> Parsed<SpecCacheIndexExpr> {
    if at_punct(t, pos, Punct::DotDot) {
        match spec_parse_cache_index_value_opt(t, pos + 1) {
            Parsed::Found(end, q) => Parsed::Found(
                SpecCacheIndexExpr::Slice { start: None, end },
                q,
            ),
            Parsed::Fail(m, q) => Parsed::Fail(m, q),
        }
    } else {
        match spec_parse_cache_index_value(t, pos) {
            Parsed::Found(v, q) => if at_punct(t, q, Punct::DotDot) {
                match spec_parse_cache_index_value_opt(t, q + 1) {
                    Parsed::Found(end, q2) => Parsed::Found(
                        SpecCacheIndexExpr::Slice { start: Some(v), end },
                        q2,
                    ),
                    Parsed::Fail(m, q2) => Parsed::Fail(m, q2),
                }
            } else {
                Parsed::Found(SpecCacheIndexExpr::Single(v), q)
            },
            Parsed::Fail(m, q) => Parsed::Fail(m, q),
        }
    }
}

/// What parsing the entries of a cache index list yields, from `pos` up to
/// and including the closing bracket. A leading or doubled comma stands
/// for an elided index and becomes a fully-open slice, as does a trailing
/// comma just before the closing bracket.
pub open spec fn spec_parse_cache_index_list(t: Seq<SpecToken>, pos: int) -> Parsed<
    Seq<SpecCacheIndexExpr>,
>
    decreases t.len() - pos,
{
    if pos < 0 || pos >= t.len() {
        Parsed::Fail("expected `]`"@, pos)
    } else if at_punct(t, pos, Punct::CloseBracket) {
        Parsed::Found(Seq::<SpecCacheIndexExpr>::empty(), pos + 1)
    } else if at_punct(t, pos, Punct::Comma) {
        prepend_one(
            SpecCacheIndexExpr::Slice { start: None, end: None },
            spec_parse_cache_index_list(t, pos + 1),
        )
    } else {
        match spec_parse_cache_entry(t, pos) {
            Parsed::Found(e, q) => if pos < q <= t.len() {
                if at_punct(t, q, Punct::Comma) {
                    if at_punct(t, q + 1, Punct::CloseBracket) {
                        Parsed::Found(
                            seq![e, SpecCacheIndexExpr::Slice { start: None, end: None }],
                            q + 2,
                        )
                    } else {
                        prepend_one(e, spec_parse_cache_index_list(t, q + 1))
                    }
                } else {
                    prepend_one(e, spec_parse_cache_index_list(t, q))
                }
            } else {
                // A sub-parse always advances; this arm only keeps the recursion well-founded.
                Parsed::Fail(Seq::empty(), pos)
            },
            Parsed::Fail(m, q) => Parsed::Fail(m, q),
        }
    }
}

/// What parsing a cache access at `pos` yields: an identifier, optionally
/// followed by a bracketed index list; `bracketed` records which.
pub open spec fn spec_parse_cache_access(t: Seq<SpecToken>, pos: int) -> Parsed<SpecCacheAccess> {
    if pos < t.len() && t[pos] is Ident {
        let name = t[pos]->Ident_0;
        if at_punct(t, pos + 1, Punct::OpenBracket) {
            match spec_parse_cache_index_list(t, pos + 2) {
                Parsed::Found(l, q) => Parsed::Found(
                    SpecCacheAccess { name, indices: l, bracketed: true },
                    q,
                ),
                Parsed::Fail(m, q) => Parsed::Fail(m, q),
            }
        } else {
            Parsed::Found(
                SpecCacheAccess { name, indices: Seq::empty(), bracketed: false },
                pos + 1,
            )
        }
    } else {
        Parsed::Fail("expected identifier"@, pos)
    }
}

/// What parsing an optional increment/decrement amount yields: the integer
/// literal when present, else the default amount 1.
pub open spec fn spec_parse_cache_amount(t: Seq<SpecToken>, pos: int) -> Parsed<i64> {
    if pos < t.len() && t[pos] is Int {
        let s = t[pos]->Int_0;
        if is_digits(s) && digits_val(s) <= i64::MAX {
            Parsed::Found(digits_val(s) as i64, pos + 1)
        } else {
            Parsed::Fail("number too large to fit in target type"@, pos)
        }
    } else {
        Parsed::Found(1, pos)
    }
}

/// Parses one cache index value.
pub fn parse_cache_index_value(toks: &Vec<Token>, pos: usize) -> (r: Result<
    (CacheIndexValue, usize),
    ParseError,
>)
    requires
        pos <= toks@.len(),
    ensures
        parses_to(r, spec_parse_cache_index_value(toks.deep_view(), pos as int)),
        r matches Ok((_, q)) ==> pos < q <= toks@.len(),
{
    let negative = pos < toks.len() && toks[pos].is_punct(Punct::Minus);
    let p = if negative { pos + 1 } else { pos };
    if p < toks.len() {
        match &toks[p] {
            Token::Int(s) => {
                match parse_i64_digits(s) {
                    Some(v) => {
                        let value: i64 = if negative { -v } else { v };
                        return Ok((CacheIndexValue::Lit(value), p + 1));
                    },
                    None => {
                        return Err(err_at(p, "number too large to fit in target type"));
                    },
                }
            },
            Token::Ident(s) => {
                if negative {
                    return Err(err_at(p, "unexpected '-' before identifier"));
                }
                return Ok((CacheIndexValue::Ident(s.clone()), p + 1));
            },
            _ => {},
        }
    }
    Err(err_at(p, "expected identifier or integer for cache index"))
}

/// Parses an optional cache index value.
pub fn parse_cache_index_value_opt(toks: &Vec<Token>, pos: usize) -> (r: Result<
    (Option<CacheIndexValue>, usize),
    ParseError,
>)
    requires
        pos <= toks@.len(),
    ensures
        parses_to(r, spec_parse_cache_index_value_opt(toks.deep_view(), pos as int)),
        r matches Ok((_, q)) ==> pos <= q <= toks@.len(),
{
    if pos >= toks.len() || toks[pos].is_punct(Punct::CloseBracket) || toks[pos].is_punct(
        Punct::Comma,
    ) {
        return Ok((None, pos));
    }
    match parse_cache_index_value(toks, pos) {
        Ok((v, q)) => Ok((Some(v), q)),
        Err(e) => Err(e),
    }
}

/// Parses one cache index entry.
fn parse_cache_entry(toks: &Vec<Token>, pos: usize) -> (r: Result<
    (CacheIndexExpr, usize),
    ParseError,
>)
    requires
        pos <= toks@.len(),
    ensures
        parses_to(r, spec_parse_cache_entry(toks.deep_view(), pos as int)),
        r matches Ok((_, q)) ==> pos < q <= toks@.len(),
{
    if pos < toks.len() && toks[pos].is_punct(Punct::DotDot) {
        match parse_cache_index_value_opt(toks, pos + 1) {
            Ok((end, q)) => Ok((CacheIndexExpr::Slice { start: None, end }, q)),
            Err(e) => Err(e),
        }
    } else {
        match parse_cache_index_value(toks, pos) {
            Ok((v, q)) => {
                if q < toks.len() && toks[q].is_punct(Punct::DotDot) {
                    match parse_cache_index_value_opt(toks, q + 1) {
                        Ok((end, q2)) => Ok((CacheIndexExpr::Slice { start: Some(v), end }, q2)),
                        Err(e) => Err(e),
                    }
                } else {
                    Ok((CacheIndexExpr::Single(v), q))
                }
            },
            Err(e) => Err(e),
        }
    }
}

/// Parses the entries of a cache index list up to and including `]`.
pub fn parse_cache_indices(toks: &Vec<Token>, pos: usize) -> (r: Result<
    (Vec<CacheIndexExpr>, usize),
    ParseError,
>)
    requires
        pos <= toks@.len(),
    ensures
        parses_to(r, spec_parse_cache_index_list(toks.deep_view(), pos as int)),
        r matches Ok((_, q)) ==> pos < q <= toks@.len(),
{
    let ghost t = toks.deep_view();
    let mut items: Vec<CacheIndexExpr> = Vec::new();
    let mut cur = pos;
    loop
        invariant
            pos <= cur <= toks@.len(),
            t == toks.deep_view(),
            spec_parse_cache_index_list(t, pos as int) == prepend_list(
                items.deep_view(),
                spec_parse_cache_index_list(t, cur as int),
            ),
        decreases toks@.len() - cur,
    {
        if cur >= toks.len() {
            return Err(err_at(cur, "expected `]`"));
        }
        if toks[cur].is_punct(Punct::CloseBracket) {
            proof {
                assert(items.deep_view() + Seq::<SpecCacheIndexExpr>::empty()
                    =~= items.deep_view());
            }
            return Ok((items, cur + 1));
        }
        if toks[cur].is_punct(Punct::Comma) {
            let ghost prev = cur as int;
            let ghost old_items = items.deep_view();
            let entry = CacheIndexExpr::Slice { start: None, end: None };
            items.push(entry);
            cur = cur + 1;
            proof {
                assert(items.deep_view() =~= old_items + seq![entry.deep_view()]);
                let rest = spec_parse_cache_index_list(t, cur as int);
                assert(spec_parse_cache_index_list(t, prev) == prepend_one(
                    entry.deep_view(),
                    rest,
                ));
                assert(prepend_list(old_items, prepend_one(entry.deep_view(), rest))
                    =~= prepend_list(items.deep_view(), rest));
            }
            continue ;
        }
        let ghost prev = cur as int;
        let ghost old_items = items.deep_view();
        match parse_cache_entry(toks, cur) {
            Ok((entry, q)) => {
                if q < toks.len() && toks[q].is_punct(Punct::Comma) {
                    if q + 1 < toks.len() && toks[q + 1].is_punct(Punct::CloseBracket) {
                        let open = CacheIndexExpr::Slice { start: None, end: None };
                        proof {
                            assert(spec_parse_cache_index_list(t, prev) == Parsed::<
                                Seq<SpecCacheIndexExpr>,
                            >::Found(
                                seq![
                                    entry.deep_view(),
                                    SpecCacheIndexExpr::Slice { start: None, end: None },
                                ],
                                q + 2,
                            ));
                        }
                        let ghost entry_dv = entry.deep_view();
                        items.push(entry);
                        items.push(open);
                        proof {
                            assert(items.deep_view() =~= old_items + seq![
                                entry_dv,
                                SpecCacheIndexExpr::Slice { start: None, end: None },
                            ]);
                        }
                        return Ok((items, q + 2));
                    } else {
                        items.push(entry);
                        cur = q + 1;
                    }
                } else {
                    items.push(entry);
                    cur = q;
                }
                proof {
                    assert(items.deep_view() =~= old_items + seq![entry.deep_view()]);
                    let rest = spec_parse_cache_index_list(t, cur as int);
                    assert(spec_parse_cache_index_list(t, prev) == prepend_one(
                        entry.deep_view(),
                        rest,
                    ));
                    assert(prepend_list(old_items, prepend_one(entry.deep_view(), rest))
                        =~= prepend_list(items.deep_view(), rest));
                }
            },
            Err(e) => {
                return Err(e);
            },
        }
    }
}

/// Parses a cache access.
pub fn parse_cache_access(toks: &Vec<Token>, pos: usize) -> (r: Result<
    (CacheAccess, usize),
    ParseError,
>)
    requires
        pos <= toks@.len(),
    ensures
        parses_to(r, spec_parse_cache_access(toks.deep_view(), pos as int)),
        r matches Ok((_, q)) ==> pos < q <= toks@.len(),
{
    if pos < toks.len() {
        let name: String = match &toks[pos] {
            Token::Ident(s) => s.clone(),
            _ => {
                return Err(err_at(pos, "expected identifier"));
            },
        };
        if pos + 1 < toks.len() && toks[pos + 1].is_punct(Punct::OpenBracket) {
            match parse_cache_indices(toks, pos + 2) {
                Ok((indices, q)) => {
                    let v = CacheAccess { name, indices, bracketed: true };
                    proof {
                        assert(spec_parse_cache_access(toks.deep_view(), pos as int)
                            =~= Parsed::Found(v.deep_view(), q as int));
                    }
                    Ok((v, q))
                },
                Err(e) => Err(e),
            }
        } else {
            let v = CacheAccess { name, indices: Vec::new(), bracketed: false };
            proof {
                assert(v.deep_view().indices =~= Seq::<SpecCacheIndexExpr>::empty());
                assert(spec_parse_cache_access(toks.deep_view(), pos as int) =~= Parsed::Found(
                    v.deep_view(),
                    (pos + 1) as int,
                ));
            }
            Ok((v, pos + 1))
        }
    } else {
        Err(err_at(pos, "expected identifier"))
    }
}

/// Parses an optional leading amount for a cache increment or decrement;
/// an absent amount defaults to 1.
pub fn parse_cache_amount(toks: &Vec<Token>, pos: usize) -> (r: Result<(i64, usize), ParseError>)
    requires
        pos <= toks@.len(),
    ensures
        parses_to(r, spec_parse_cache_amount(toks.deep_view(), pos as int)),
        r matches Ok((_, q)) ==> pos <= q <= toks@.len(),
{
    if pos < toks.len() {
        match &toks[pos] {
            Token::Int(s) => {
                match parse_i64_digits(s) {
                    Some(v) => {
                        return Ok((v, pos + 1));
                    },
                    None => {
                        return Err(err_at(pos, "number too large to fit in target type"));
                    },
                }
            },
            _ => {},
        }
    }
    Ok((1, pos))
}

} // verus!
