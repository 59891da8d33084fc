//! The dimension-expression sub-grammar: a bracketed, comma-separated list
//! of atoms and products of exactly two atoms.
use vstd::prelude::*;

use crate::ast::{Dim, DimAtom, SpecDim, SpecDimAtom};
use crate::error::{err_at, parses_to, prepend_list, prepend_one, Parsed, ParseError};
use crate::token::{at_punct, Punct, SpecToken, Token};

verus! {

/// What parsing one dimension atom at `pos` yields: an identifier or an
/// integer literal.
pub open spec fn spec_parse_dim_atom(t: Seq<SpecToken>, pos: int) -> Parsed<SpecDimAtom> {
    if pos < t.len() && t[pos] is Int {
        Parsed::Found(SpecDimAtom::Lit(t[pos]->Int_0), pos + 1)
    } else if pos < t.len() && t[pos] is Ident {
        Parsed::Found(SpecDimAtom::Ident(t[pos]->Ident_0), pos + 1)
    } else {
        Parsed::Fail("expected identifier or integer for dimension expression"@, pos)
    }
}

/// Lifts an atom into a dimension, or multiplies it with the atom after a
/// `*`, and gives the position after the optional trailing comma.
pub open spec fn spec_dim_after_atom(t: Seq<SpecToken>, pos: int, left: SpecDimAtom) -> Parsed<
    SpecDim,
> {
    if at_punct(t, pos + 1, Punct::Star) {
        match spec_parse_dim_atom(t, pos + 2) {
            Parsed::Found(right, q) => {
                let q2 = if at_punct(t, q, Punct::Comma) { q + 1 } else { q };
                Parsed::Found(SpecDim::Mul { left, right }, q2)
            },
            Parsed::Fail(m, q) => Parsed::Fail(m, q),
        }
    } else {
        let dim = match left {
            SpecDimAtom::Ident(s) => SpecDim::Ident(s),
            SpecDimAtom::Lit(s) => SpecDim::Lit(s),
        };
        let q2 = if at_punct(t, pos + 1, Punct::Comma) { pos + 2 } else { pos + 1 };
        Parsed::Found(dim, q2)
    }
}

/// What parsing the entries of a dimension list yields, from `pos` up to
/// and including the closing bracket.
pub open spec fn spec_parse_dim_list(t: Seq<SpecToken>, pos: int) -> Parsed<Seq<SpecDim>>
    decreases t.len() - pos,
{
    if pos < 0 || pos >= t.len() {
        Parsed::Fail("expected `]`"@, pos)
    } else {
        match t[pos] {
            SpecToken::Punct(p) => if p == Punct::CloseBracket {
                Parsed::Found(Seq::<SpecDim>::empty(), pos + 1)
            } else {
                Parsed::Fail("expected identifier"@, pos)
            },
            SpecToken::Int(s) => match spec_dim_after_atom(t, pos, SpecDimAtom::Lit(s)) {
                Parsed::Found(dim, q) => if pos < q <= t.len() {
                    prepend_one(dim, spec_parse_dim_list(t, q))
                } else {
                    // A sub-parse always advances; this arm only keeps the recursion well-founded.
                    Parsed::Fail(Seq::empty(), pos)
                },
                Parsed::Fail(m, q) => Parsed::Fail(m, q),
            },
            SpecToken::Ident(s) => match spec_dim_after_atom(t, pos, SpecDimAtom::Ident(s)) {
                Parsed::Found(dim, q) => if pos < q <= t.len() {
                    prepend_one(dim, spec_parse_dim_list(t, q))
                } else {
                    // A sub-parse always advances; this arm only keeps the recursion well-founded.
                    Parsed::Fail(Seq::empty(), pos)
                },
                Parsed::Fail(m, q) => Parsed::Fail(m, q),
            },
            _ => Parsed::Fail("expected identifier"@, pos),
        }
    }
}

/// What parsing a dimension list at `pos` yields: the empty list when no
/// bracket is present, else the bracketed entries.
pub open spec fn spec_parse_dims(t: Seq<SpecToken>, pos: int) -> Parsed<Seq<SpecDim>> {
    if at_punct(t, pos, Punct::OpenBracket) {
        spec_parse_dim_list(t, pos + 1)
    } else {
        Parsed::Found(Seq::<SpecDim>::empty(), pos)
    }
}

/// Parses one dimension atom.
pub fn parse_dim_atom(toks: &Vec<Token>, pos: usize) -> (r: Result<(DimAtom, usize), ParseError>)
    requires
        pos <= toks@.len(),
    ensures
        parses_to(r, spec_parse_dim_atom(toks.deep_view(), pos as int)),
        r matches Ok((_, q)) ==> pos < q <= toks@.len(),
{
    if pos < toks.len() {
        match &toks[pos] {
            Token::Int(s) => {
                return Ok((DimAtom::Lit(s.clone()), pos + 1));
            },
            Token::Ident(s) => {
                return Ok((DimAtom::Ident(s.clone()), pos + 1));
            },
            _ => {},
        }
    }
    Err(err_at(pos, "expected identifier or integer for dimension expression"))
}

/// Parses the entries of a dimension list up to and including `]`.
fn parse_dim_list(toks: &Vec<Token>, pos: usize) -> (r: Result<(Vec<Dim>, usize), ParseError>)
    requires
        pos <= toks@.len(),
    ensures
        parses_to(r, spec_parse_dim_list(toks.deep_view(), pos as int)),
        r matches Ok((_, q)) ==> pos < q <= toks@.len(),
{
    let ghost t = toks.deep_view();
    let mut items: Vec<Dim> = Vec::new();
    let mut cur = pos;
    loop
        invariant
            pos <= cur <= toks@.len(),
            t == toks.deep_view(),
            spec_parse_dim_list(t, pos as int) == prepend_list(
                items.deep_view(),
                spec_parse_dim_list(t, cur as int),
            ),
        decreases toks@.len() - cur,
    {
        if cur >= toks.len() {
            return Err(err_at(cur, "expected `]`"));
        }
        proof {
            assert(t[cur as int] == toks@[cur as int].deep_view());
        }
        let left: DimAtom = match &toks[cur] {
            Token::Punct(p) => {
                if *p == Punct::CloseBracket {
                    proof {
                        assert(items.deep_view() + Seq::<SpecDim>::empty() =~= items.deep_view());
                    }
                    return Ok((items, cur + 1));
                } else {
                    return Err(err_at(cur, "expected identifier"));
                }
            },
            Token::Int(s) => DimAtom::Lit(s.clone()),
            Token::Ident(s) => DimAtom::Ident(s.clone()),
            _ => {
                return Err(err_at(cur, "expected identifier"));
            },
        };
        let ghost prev = cur as int;
        let ghost old_items = items.deep_view();
        let entry: Dim;
        if cur + 1 < toks.len() && toks[cur + 1].is_punct(Punct::Star) {
            match parse_dim_atom(toks, cur + 2) {
                Ok((right, q)) => {
                    entry = Dim::Mul { left, right };
                    cur = q;
                },
                Err(e) => {
                    return Err(e);
                },
            }
        } else {
            entry = match left {
                DimAtom::Ident(s) => Dim::Ident(s),
                DimAtom::Lit(s) => Dim::Lit(s),
            };
            cur = cur + 1;
        }
        if cur < toks.len() && toks[cur].is_punct(Punct::Comma) {
            cur = cur + 1;
        }
        items.push(entry);
        proof {
            assert(items.deep_view() =~= old_items + seq![entry.deep_view()]);
            let rest = spec_parse_dim_list(t, cur as int);
            assert(spec_dim_after_atom(t, prev, left.deep_view()) == Parsed::<SpecDim>::Found(
                entry.deep_view(),
                cur as int,
            ));
            assert(spec_parse_dim_list(t, prev) == prepend_one(entry.deep_view(), rest));
            assert(prepend_list(old_items, prepend_one(entry.deep_view(), rest)) =~= prepend_list(
                items.deep_view(),
                rest,
            ));
        }
    }
}

/// Parses an optional bracketed dimension list; no brackets means a scalar.
pub fn parse_dims(toks: &Vec<Token>, pos: usize) -> (r: Result<(Vec<Dim>, usize), ParseError>)
    requires
        pos <= toks@.len(),
    ensures
        parses_to(r, spec_parse_dims(toks.deep_view(), pos as int)),
        r matches Ok((_, q)) ==> pos <= q <= toks@.len(),
{
    if pos < toks.len() && toks[pos].is_punct(Punct::OpenBracket) {
        parse_dim_list(toks, pos + 1)
    } else {
        let v: Vec<Dim> = Vec::new();
        proof {
            assert(v.deep_view() =~= Seq::<SpecDim>::empty());
        }
        Ok((v, pos))
    }
}

} // verus!
