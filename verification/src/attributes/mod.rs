//! The `@name(...)` attribute suffix of a variable declaration, enforcing
//! at-most-one-of-each.
use vstd::prelude::*;

pub mod init;
pub mod pattern;
pub mod ref_attr;

use crate::ast::{FixedDim, InitValue, SpecFixedDim, SpecInitValue};
use crate::attributes::init::{parse_init_value, spec_parse_init_value};
use crate::attributes::pattern::{parse_pattern, spec_parse_pattern};
use crate::attributes::ref_attr::{parse_ref_name, spec_parse_ref_name};
use crate::error::{err_at, parses_to, prepend_list, prepend_one, Parsed, ParseError};
use crate::token::{at_punct, Punct, SpecToken, Token};

verus! {

/// Everything the attribute suffix of one declaration can carry.
#[derive(Clone, Debug)]
pub struct ParsedAttrs {
    pub init: Option<InitValue>,
    pub ref_name: Option<String>,
    pub pattern: Option<String>,
    pub table: bool,
    pub auto_dim: Vec<String>,
    pub fixed: Vec<FixedDim>,
}

#[verifier::ext_equal]
pub struct SpecParsedAttrs {
    pub init: Option<SpecInitValue>,
    pub ref_name: Option<Seq<char>>,
    pub pattern: Option<Seq<char>>,
    pub table: bool,
    pub auto_dim: Seq<Seq<char>>,
    pub fixed: Seq<SpecFixedDim>,
}

impl DeepView for ParsedAttrs {
    type V = SpecParsedAttrs;

    open spec fn deep_view(&self) -> SpecParsedAttrs {
        SpecParsedAttrs {
            init: self.init.deep_view(),
            ref_name: self.ref_name.deep_view(),
            pattern: self.pattern.deep_view(),
            table: self.table,
            auto_dim: self.auto_dim.deep_view(),
            fixed: self.fixed.deep_view(),
        }
    }
}

/// The attribute record of a declaration with no attributes.
pub open spec fn spec_empty_attrs() -> SpecParsedAttrs {
    SpecParsedAttrs {
        init: None,
        ref_name: None,
        pattern: None,
        table: false,
        auto_dim: Seq::empty(),
        fixed: Seq::empty(),
    }
}

/// What parsing the entries of a parenthesized identifier list yields,
/// from `pos` up to and including the closing parenthesis.
pub open spec fn spec_parse_ident_list(t: Seq<SpecToken>, pos: int) -> Parsed<Seq<Seq<char>>>
    decreases t.len() - pos,
{
    if pos < 0 || pos >= t.len() {
        Parsed::Fail("expected `)`"@, pos)
    } else {
        match t[pos] {
            SpecToken::Punct(p) => if p == Punct::CloseParen {
                Parsed::Found(Seq::<Seq<char>>::empty(), pos + 1)
            } else {
                Parsed::Fail("expected identifier"@, pos)
            },
            SpecToken::Ident(s) => {
                let q = if at_punct(t, pos + 1, Punct::Comma) { pos + 2 } else { pos + 1 };
                prepend_one(s, spec_parse_ident_list(t, q))
            },
            _ => Parsed::Fail("expected identifier"@, pos),
        }
    }
}

/// What parsing the entries of a `@fixed(...)` list yields: `name = value`
/// pairs up to and including the closing parenthesis.
pub open spec fn spec_parse_fixed_list(t: Seq<SpecToken>, pos: int) -> Parsed<Seq<SpecFixedDim>>
    decreases t.len() - pos,
{
    if pos < 0 || pos >= t.len() {
        Parsed::Fail("expected `)`"@, pos)
    } else {
        match t[pos] {
            SpecToken::Punct(p) => if p == Punct::CloseParen {
                Parsed::Found(Seq::<SpecFixedDim>::empty(), pos + 1)
            } else {
                Parsed::Fail("expected identifier"@, pos)
            },
            SpecToken::Ident(s) => if !at_punct(t, pos + 1, Punct::Equals) {
                Parsed::Fail("expected `=`"@, pos + 1)
            } else if pos + 2 < t.len() && t[pos + 2] is Int {
                let entry = SpecFixedDim { name: s, value: t[pos + 2]->Int_0, pos: pos + 2 };
                let q = if at_punct(t, pos + 3, Punct::Comma) { pos + 4 } else { pos + 3 };
                prepend_one(entry, spec_parse_fixed_list(t, q))
            } else {
                Parsed::Fail("expected integer literal"@, pos + 2)
            },
            _ => Parsed::Fail("expected identifier"@, pos),
        }
    }
}

/// What parsing the attribute suffix from `pos` onward yields, given the
/// attributes `acc` already seen. Each attribute may appear at most once;
/// `@auto_dim` and `@fixed` must supply at least one entry.
pub open spec fn spec_parse_attrs_from(t: Seq<SpecToken>, pos: int, acc: SpecParsedAttrs) -> Parsed<
    SpecParsedAttrs,
>
    decreases t.len() - pos,
{
    if !at_punct(t, pos, Punct::At) {
        Parsed::Found(acc, pos)
    } else {
        let k = pos + 1;
        if k < t.len() && t[k] is Ident {
            let s = t[k]->Ident_0;
            if s == "init"@ {
                if acc.init is Some {
                    Parsed::Fail("duplicate @init attribute"@, k)
                } else {
                    match spec_parse_init_value(t, k + 1) {
                        Parsed::Found(v, q) => if pos < q <= t.len() {
                            spec_parse_attrs_from(t, q, SpecParsedAttrs { init: Some(v), ..acc })
                        } else {
                            // A sub-parse always advances; this arm only keeps the recursion well-founded.
                            Parsed::Fail(Seq::empty(), pos)
                        },
                        Parsed::Fail(m, q) => Parsed::Fail(m, q),
                    }
                }
            } else if s == "ref"@ {
                if acc.ref_name is Some {
                    Parsed::Fail("duplicate @ref attribute"@, k)
                } else {
                    match spec_parse_ref_name(t, k + 1) {
                        Parsed::Found(v, q) => if pos < q <= t.len() {
                            spec_parse_attrs_from(
                                t,
                                q,
                                SpecParsedAttrs { ref_name: Some(v), ..acc },
                            )
                        } else {
                            // A sub-parse always advances; this arm only keeps the recursion well-founded.
                            Parsed::Fail(Seq::empty(), pos)
                        },
                        Parsed::Fail(m, q) => Parsed::Fail(m, q),
                    }
                }
            } else if s == "pattern"@ {
                if acc.pattern is Some {
                    Parsed::Fail("duplicate @pattern attribute"@, k)
                } else {
                    match spec_parse_pattern(t, k + 1) {
                        Parsed::Found(v, q) => if pos < q <= t.len() {
                            spec_parse_attrs_from(
                                t,
                                q,
                                SpecParsedAttrs { pattern: Some(v), ..acc },
                            )
                        } else {
                            // A sub-parse always advances; this arm only keeps the recursion well-founded.
                            Parsed::Fail(Seq::empty(), pos)
                        },
                        Parsed::Fail(m, q) => Parsed::Fail(m, q),
                    }
                }
            } else if s == "table"@ {
                if acc.table {
                    Parsed::Fail("duplicate @table attribute"@, k)
                } else {
                    spec_parse_attrs_from(t, k + 1, SpecParsedAttrs { table: true, ..acc })
                }
            } else if s == "auto_dim"@ {
                if acc.auto_dim.len() > 0 {
                    Parsed::Fail("duplicate @auto_dim attribute"@, k)
                } else if !at_punct(t, k + 1, Punct::OpenParen) {
                    Parsed::Fail("expected parentheses"@, k + 1)
                } else if at_punct(t, k + 2, Punct::CloseParen) {
                    Parsed::Fail("@auto_dim requires at least one index"@, k + 2)
                } else {
                    match spec_parse_ident_list(t, k + 2) {
                        Parsed::Found(l, q) => if pos < q <= t.len() {
                            spec_parse_attrs_from(t, q, SpecParsedAttrs { auto_dim: l, ..acc })
                        } else {
                            // A sub-parse always advances; this arm only keeps the recursion well-founded.
                            Parsed::Fail(Seq::empty(), pos)
                        },
                        Parsed::Fail(m, q) => Parsed::Fail(m, q),
                    }
                }
            } else if s == "fixed"@ {
                if acc.fixed.len() > 0 {
                    Parsed::Fail("duplicate @fixed attribute"@, k)
                } else if !at_punct(t, k + 1, Punct::OpenParen) {
                    Parsed::Fail("expected parentheses"@, k + 1)
                } else if at_punct(t, k + 2, Punct::CloseParen) {
                    Parsed::Fail("@fixed requires at least one entry"@, k + 2)
                } else {
                    match spec_parse_fixed_list(t, k + 2) {
                        Parsed::Found(l, q) => if pos < q <= t.len() {
                            spec_parse_attrs_from(t, q, SpecParsedAttrs { fixed: l, ..acc })
                        } else {
                            // A sub-parse always advances; this arm only keeps the recursion well-founded.
                            Parsed::Fail(Seq::empty(), pos)
                        },
                        Parsed::Fail(m, q) => Parsed::Fail(m, q),
                    }
                }
            } else {
                Parsed::Fail("unsupported attribute"@, k)
            }
        } else {
            Parsed::Fail("unsupported attribute"@, k)
        }
    }
}

/// What parsing the whole attribute suffix at `pos` yields.
pub open spec fn spec_parse_attrs(t: Seq<SpecToken>, pos: int) -> Parsed<SpecParsedAttrs> {
    spec_parse_attrs_from(t, pos, spec_empty_attrs())
}

/// Parses the entries of a parenthesized identifier list up to `)`.
pub fn parse_ident_list(toks: &Vec<Token>, pos: usize) -> (r: Result<(Vec<String>, usize), ParseError>)
    requires
        pos <= toks@.len(),
    ensures
        parses_to(r, spec_parse_ident_list(toks.deep_view(), pos as int)),
        r matches Ok((_, q)) ==> pos < q <= toks@.len(),
{
    let ghost t = toks.deep_view();
    let mut items: Vec<String> = Vec::new();
    let mut cur = pos;
    loop
        invariant
            pos <= cur <= toks@.len(),
            t == toks.deep_view(),
            spec_parse_ident_list(t, pos as int) == prepend_list(
                items.deep_view(),
                spec_parse_ident_list(t, cur as int),
            ),
        decreases toks@.len() - cur,
    {
        if cur >= toks.len() {
            return Err(err_at(cur, "expected `)`"));
        }
        proof {
            assert(t[cur as int] == toks@[cur as int].deep_view());
        }
        let entry: String = match &toks[cur] {
            Token::Punct(p) => {
                if *p == Punct::CloseParen {
                    proof {
                        assert(items.deep_view() + Seq::<Seq<char>>::empty() =~= items.deep_view());
                    }
                    return Ok((items, cur + 1));
                } else {
                    return Err(err_at(cur, "expected identifier"));
                }
            },
            Token::Ident(s) => s.clone(),
            _ => {
                return Err(err_at(cur, "expected identifier"));
            },
        };
        let ghost prev = cur as int;
        let ghost old_items = items.deep_view();
        cur = cur + 1;
        if cur < toks.len() && toks[cur].is_punct(Punct::Comma) {
            cur = cur + 1;
        }
        items.push(entry);
        proof {
            assert(items.deep_view() =~= old_items + seq![entry@]);
            let rest = spec_parse_ident_list(t, cur as int);
            assert(spec_parse_ident_list(t, prev) == prepend_one(entry@, rest));
            assert(prepend_list(old_items, prepend_one(entry@, rest)) =~= prepend_list(
                items.deep_view(),
                rest,
            ));
        }
    }
}

/// Parses the entries of a `@fixed(...)` list up to `)`.
fn parse_fixed_list(toks: &Vec<Token>, pos: usize) -> (r: Result<
    (Vec<FixedDim>, usize),
    ParseError,
>)
    requires
        pos <= toks@.len(),
    ensures
        parses_to(r, spec_parse_fixed_list(toks.deep_view(), pos as int)),
        r matches Ok((_, q)) ==> pos < q <= toks@.len(),
{
    let ghost t = toks.deep_view();
    let mut items: Vec<FixedDim> = Vec::new();
    let mut cur = pos;
    loop
        invariant
            pos <= cur <= toks@.len(),
            t == toks.deep_view(),
            spec_parse_fixed_list(t, pos as int) == prepend_list(
                items.deep_view(),
                spec_parse_fixed_list(t, cur as int),
            ),
        decreases toks@.len() - cur,
    {
        if cur >= toks.len() {
            return Err(err_at(cur, "expected `)`"));
        }
        proof {
            assert(t[cur as int] == toks@[cur as int].deep_view());
        }
        let name: String = match &toks[cur] {
            Token::Punct(p) => {
                if *p == Punct::CloseParen {
                    proof {
                        assert(items.deep_view() + Seq::<SpecFixedDim>::empty()
                            =~= items.deep_view());
                    }
                    return Ok((items, cur + 1));
                } else {
                    return Err(err_at(cur, "expected identifier"));
                }
            },
            Token::Ident(s) => s.clone(),
            _ => {
                return Err(err_at(cur, "expected identifier"));
            },
        };
        if !(cur + 1 < toks.len() && toks[cur + 1].is_punct(Punct::Equals)) {
            return Err(err_at(cur + 1, "expected `=`"));
        }
        if cur + 2 >= toks.len() {
            return Err(err_at(cur + 2, "expected integer literal"));
        }
        let value: String = match &toks[cur + 2] {
            Token::Int(s) => s.clone(),
            _ => {
                return Err(err_at(cur + 2, "expected integer literal"));
            },
        };
        let entry = FixedDim { name, value, pos: cur + 2 };
        let ghost prev = cur as int;
        let ghost old_items = items.deep_view();
        cur = cur + 3;
        if cur < toks.len() && toks[cur].is_punct(Punct::Comma) {
            cur = cur + 1;
        }
        items.push(entry);
        proof {
            assert(items.deep_view() =~= old_items + seq![entry.deep_view()]);
            let rest = spec_parse_fixed_list(t, cur as int);
            assert(spec_parse_fixed_list(t, prev) == prepend_one(entry.deep_view(), rest));
            assert(prepend_list(old_items, prepend_one(entry.deep_view(), rest)) =~= prepend_list(
                items.deep_view(),
                rest,
            ));
        }
    }
}

/// Parses the attribute suffix of a declaration, rejecting any repeated
/// attribute and any empty `@auto_dim`/`@fixed` list.
pub fn parse_attrs(toks: &Vec<Token>, pos: usize) -> (r: Result<(ParsedAttrs, usize), ParseError>)
    requires
        pos <= toks@.len(),
    ensures
        parses_to(r, spec_parse_attrs(toks.deep_view(), pos as int)),
        r matches Ok((_, q)) ==> pos <= q <= toks@.len(),
{
    let ghost t = toks.deep_view();
    let mut attrs = ParsedAttrs {
        init: None,
        ref_name: None,
        pattern: None,
        table: false,
        auto_dim: Vec::new(),
        fixed: Vec::new(),
    };
    let mut cur = pos;
    proof {
        assert(attrs.deep_view() =~= spec_empty_attrs());
    }
    loop
        invariant
            pos <= cur <= toks@.len(),
            t == toks.deep_view(),
            spec_parse_attrs(t, pos as int) == spec_parse_attrs_from(
                t,
                cur as int,
                attrs.deep_view(),
            ),
        decreases toks@.len() - cur,
    {
        if !(cur < toks.len() && toks[cur].is_punct(Punct::At)) {
            return Ok((attrs, cur));
        }
        let k = cur + 1;
        if k >= toks.len() {
            return Err(err_at(k, "unsupported attribute"));
        }
        proof {
            assert(t[k as int] == toks@[k as int].deep_view());
        }
        match &toks[k] {
            Token::Ident(_) => {},
            _ => {
                return Err(err_at(k, "unsupported attribute"));
            },
        }
        let ghost old_attrs = attrs.deep_view();
        if toks[k].is_kw("init") {
            if attrs.init.is_some() {
                return Err(err_at(k, "duplicate @init attribute"));
            }
            match parse_init_value(toks, k + 1) {
                Ok((v, q)) => {
                    attrs.init = Some(v);
                    cur = q;
                    proof {
                        assert(attrs.deep_view() =~= SpecParsedAttrs {
                            init: attrs.deep_view().init,
                            ..old_attrs
                        });
                    }
                },
                Err(e) => {
                    return Err(e);
                },
            }
        } else if toks[k].is_kw("ref") {
            if attrs.ref_name.is_some() {
                return Err(err_at(k, "duplicate @ref attribute"));
            }
            match parse_ref_name(toks, k + 1) {
                Ok((v, q)) => {
                    attrs.ref_name = Some(v);
                    cur = q;
                    proof {
                        assert(attrs.deep_view() =~= SpecParsedAttrs {
                            ref_name: attrs.deep_view().ref_name,
                            ..old_attrs
                        });
                    }
                },
                Err(e) => {
                    return Err(e);
                },
            }
        } else if toks[k].is_kw("pattern") {
            if attrs.pattern.is_some() {
                return Err(err_at(k, "duplicate @pattern attribute"));
            }
            match parse_pattern(toks, k + 1) {
                Ok((v, q)) => {
                    attrs.pattern = Some(v);
                    cur = q;
                    proof {
                        assert(attrs.deep_view() =~= SpecParsedAttrs {
                            pattern: attrs.deep_view().pattern,
                            ..old_attrs
                        });
                    }
                },
                Err(e) => {
                    return Err(e);
                },
            }
        } else if toks[k].is_kw("table") {
            if attrs.table {
                return Err(err_at(k, "duplicate @table attribute"));
            }
            attrs.table = true;
            cur = k + 1;
            proof {
                assert(attrs.deep_view() =~= SpecParsedAttrs { table: true, ..old_attrs });
            }
        } else if toks[k].is_kw("auto_dim") {
            if attrs.auto_dim.len() > 0 {
                return Err(err_at(k, "duplicate @auto_dim attribute"));
            }
            if !(k + 1 < toks.len() && toks[k + 1].is_punct(Punct::OpenParen)) {
                return Err(err_at(k + 1, "expected parentheses"));
            }
            if k + 2 < toks.len() && toks[k + 2].is_punct(Punct::CloseParen) {
                return Err(err_at(k + 2, "@auto_dim requires at least one index"));
            }
            match parse_ident_list(toks, k + 2) {
                Ok((l, q)) => {
                    attrs.auto_dim = l;
                    cur = q;
                    proof {
                        assert(attrs.deep_view() =~= SpecParsedAttrs {
                            auto_dim: attrs.deep_view().auto_dim,
                            ..old_attrs
                        });
                    }
                },
                Err(e) => {
                    return Err(e);
                },
            }
        } else if toks[k].is_kw("fixed") {
            if attrs.fixed.len() > 0 {
                return Err(err_at(k, "duplicate @fixed attribute"));
            }
            if !(k + 1 < toks.len() && toks[k + 1].is_punct(Punct::OpenParen)) {
                return Err(err_at(k + 1, "expected parentheses"));
            }
            if k + 2 < toks.len() && toks[k + 2].is_punct(Punct::CloseParen) {
                return Err(err_at(k + 2, "@fixed requires at least one entry"));
            }
            match parse_fixed_list(toks, k + 2) {
                Ok((l, q)) => {
                    attrs.fixed = l;
                    cur = q;
                    proof {
                        assert(attrs.deep_view() =~= SpecParsedAttrs {
                            fixed: attrs.deep_view().fixed,
                            ..old_attrs
                        });
                    }
                },
                Err(e) => {
                    return Err(e);
                },
            }
        } else {
            return Err(err_at(k, "unsupported attribute"));
        }
    }
}

} // verus!
