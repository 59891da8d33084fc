//! The variable-reference sub-grammar: an identifier with an optional
//! non-empty bracketed index list.
use vstd::prelude::*;

use crate::ast::{IndexExpr, SpecIndexExpr, SpecVarRef, VarRef};
use crate::error::{err_at, parses_to, prepend_list, prepend_one, Parsed, ParseError};
use crate::token::{at_punct, Punct, SpecToken, Token};

verus! {

/// What parsing the entries of an index list yields, from `pos` up to and
/// including the closing bracket. Each entry is an integer literal or an
/// identifier, with an optional comma after it.
pub open spec fn spec_parse_index_list(t: Seq<SpecToken>, pos: int) -> Parsed<Seq<SpecIndexExpr>>
    decreases t.len() - pos,
{
    if pos < 0 || pos >= t.len() {
        Parsed::Fail("expected `]`"@, pos)
    } else {
        match t[pos] {
            SpecToken::Punct(p) => if p == Punct::CloseBracket {
                Parsed::Found(Seq::<SpecIndexExpr>::empty(), pos + 1)
            } else {
                Parsed::Fail("expected identifier"@, pos)
            },
            SpecToken::Int(s) => {
                let q = if at_punct(t, pos + 1, Punct::Comma) { pos + 2 } else { pos + 1 };
                prepend_one(SpecIndexExpr::Lit(s), spec_parse_index_list(t, q))
            },
            SpecToken::Ident(s) => {
                let q = if at_punct(t, pos + 1, Punct::Comma) { pos + 2 } else { pos + 1 };
                prepend_one(SpecIndexExpr::Ident(s), spec_parse_index_list(t, q))
            },
            _ => Parsed::Fail("expected identifier"@, pos),
        }
    }
}

/// What parsing a bracketed index list at `pos` yields. An explicit but
/// empty list is a hard error.
pub open spec fn spec_parse_indices(t: Seq<SpecToken>, pos: int) -> Parsed<Seq<SpecIndexExpr>> {
    if !at_punct(t, pos, Punct::OpenBracket) {
        Parsed::Fail("expected `[`"@, pos)
    } else if at_punct(t, pos + 1, Punct::CloseBracket) {
        Parsed::Fail("prefix access must include at least one index"@, pos + 1)
    } else {
        spec_parse_index_list(t, pos + 1)
    }
}

/// What parsing a variable reference at `pos` yields: an identifier,
/// optionally followed by a bracketed index list.
pub open spec fn spec_parse_var_ref(t: Seq<SpecToken>, pos: int) -> Parsed<SpecVarRef> {
    if pos < t.len() && t[pos] is Ident {
        let name = t[pos]->Ident_0;
        if at_punct(t, pos + 1, Punct::OpenBracket) {
            match spec_parse_indices(t, pos + 1) {
                Parsed::Found(l, q) => Parsed::Found(SpecVarRef { name, indices: l }, q),
                Parsed::Fail(m, q) => Parsed::Fail(m, q),
            }
        } else {
            Parsed::Found(SpecVarRef { name, indices: Seq::empty() }, pos + 1)
        }
    } else {
        Parsed::Fail("expected identifier"@, pos)
    }
}

/// Parses the entries of an index list up to and including `]`.
fn parse_index_list(toks: &Vec<Token>, pos: usize) -> (r: Result<(Vec<IndexExpr>, usize), ParseError>)
    requires
        pos <= toks@.len(),
    ensures
        parses_to(r, spec_parse_index_list(toks.deep_view(), pos as int)),
        r matches Ok((_, q)) ==> pos < q <= toks@.len(),
{
    let ghost t = toks.deep_view();
    let mut items: Vec<IndexExpr> = Vec::new();
    let mut cur = pos;
    loop
        invariant
            pos <= cur <= toks@.len(),
            t == toks.deep_view(),
            spec_parse_index_list(t, pos as int) == prepend_list(
                items.deep_view(),
                spec_parse_index_list(t, cur as int),
            ),
        decreases toks@.len() - cur,
    {
        if cur >= toks.len() {
            return Err(err_at(cur, "expected `]`"));
        }
        proof {
            assert(t[cur as int] == toks@[cur as int].deep_view());
        }
        let entry: IndexExpr = match &toks[cur] {
            Token::Punct(p) => {
                if *p == Punct::CloseBracket {
                    proof {
                        assert(items.deep_view() + Seq::<SpecIndexExpr>::empty()
                            =~= items.deep_view());
                    }
                    return Ok((items, cur + 1));
                } else {
                    return Err(err_at(cur, "expected identifier"));
                }
            },
            Token::Int(s) => IndexExpr::Lit(s.clone()),
            Token::Ident(s) => IndexExpr::Ident(s.clone()),
            _ => {
                return Err(err_at(cur, "expected identifier"));
            },
        };
        let ghost prev = cur as int;
        let ghost old_items = items.deep_view();
        cur = cur + 1;
        if cur < toks.len() && toks[cur].is_punct(Punct::Comma) {
            cur = cur + 1;
        }
        items.push(entry);
        proof {
            assert(items.deep_view() =~= old_items + seq![entry.deep_view()]);
            let rest = spec_parse_index_list(t, cur as int);
            assert(spec_parse_index_list(t, prev) == prepend_one(entry.deep_view(), rest));
            assert(prepend_list(old_items, prepend_one(entry.deep_view(), rest)) =~= prepend_list(
                items.deep_view(),
                rest,
            ));
        }
    }
}

/// Parses a bracketed index list; rejects an explicit empty list.
pub fn parse_indices(toks: &Vec<Token>, pos: usize) -> (r: Result<(Vec<IndexExpr>, usize), ParseError>)
    requires
        pos <= toks@.len(),
    ensures
        parses_to(r, spec_parse_indices(toks.deep_view(), pos as int)),
        r matches Ok((_, q)) ==> pos < q <= toks@.len(),
{
    if !(pos < toks.len() && toks[pos].is_punct(Punct::OpenBracket)) {
        return Err(err_at(pos, "expected `[`"));
    }
    if pos + 1 < toks.len() && toks[pos + 1].is_punct(Punct::CloseBracket) {
        return Err(err_at(pos + 1, "prefix access must include at least one index"));
    }
    parse_index_list(toks, pos + 1)
}

/// Parses a variable reference.
pub fn parse_var_ref(toks: &Vec<Token>, pos: usize) -> (r: Result<(VarRef, usize), ParseError>)
    requires
        pos <= toks@.len(),
    ensures
        parses_to(r, spec_parse_var_ref(toks.deep_view(), pos as int)),
        r matches Ok((_, q)) ==> pos < q <= toks@.len(),
{
    if pos < toks.len() {
        let name: String = match &toks[pos] {
            Token::Ident(s) => s.clone(),
            _ => {
                return Err(err_at(pos, "expected identifier"));
            },
        };
        if pos + 1 < toks.len() && toks[pos + 1].is_punct(Punct::OpenBracket) {
            match parse_indices(toks, pos + 1) {
                Ok((indices, q)) => {
                    let v = VarRef { name, indices };
                    proof {
                        assert(spec_parse_var_ref(toks.deep_view(), pos as int)
                            =~= Parsed::Found(v.deep_view(), q as int));
                    }
                    Ok((v, q))
                },
                Err(e) => Err(e),
            }
        } else {
            let v = VarRef { name, indices: Vec::new() };
            proof {
                assert(v.deep_view().indices =~= Seq::<SpecIndexExpr>::empty());
                assert(spec_parse_var_ref(toks.deep_view(), pos as int)
                    =~= Parsed::Found(v.deep_view(), (pos + 1) as int));
            }
            Ok((v, pos + 1))
        }
    } else {
        Err(err_at(pos, "expected identifier"))
    }
}

} // verus!
