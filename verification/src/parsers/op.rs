//! The operation-argument sub-grammar: positional inputs, named settings,
//! and the general attribute-value grammar.
use vstd::prelude::*;

use crate::ast::{FloatLit, Ident, OpArg, OpAttrValue, OpSetting, SpecFloatLit, SpecIdent, SpecOpArg, SpecOpAttrValue, SpecOpSetting, SpecVarRef, VarRef};
use crate::error::{err_at, parses_to, prepend_list, prepend_one, Parsed, ParseError};
use crate::num::{digits_val, is_digits, parse_i64_digits};
use crate::parsers::var::{parse_indices, spec_parse_indices};
use crate::token::{at_punct, Punct, SpecToken, Token};

verus! {

/// What parsing the entries of a bracketed integer list yields, from `pos`
/// up to and including the closing bracket. Each entry is individually
/// signable.
pub open spec fn spec_parse_int_list(t: Seq<SpecToken>, pos: int) -> Parsed<Seq<i64>>
    decreases t.len() - pos,
{
    if pos < 0 || pos >= t.len() {
        Parsed::Fail("expected `]`"@, pos)
    } else if at_punct(t, pos, Punct::CloseBracket) {
        Parsed::Found(Seq::<i64>::empty(), pos + 1)
    } else {
        let neg = at_punct(t, pos, Punct::Minus);
        let p = if neg { pos + 1 } else { pos };
        if p < t.len() && t[p] is Int {
            let s = t[p]->Int_0;
            if is_digits(s) && digits_val(s) <= i64::MAX {
                let v = if neg { -digits_val(s) } else { digits_val(s) };
                let q = if at_punct(t, p + 1, Punct::Comma) { p + 2 } else { p + 1 };
                prepend_one(v as i64, spec_parse_int_list(t, q))
            } else {
                Parsed::Fail("number too large to fit in target type"@, p)
            }
        } else {
            Parsed::Fail("expected integer literal"@, p)
        }
    }
}

/// What parsing one attribute value at `pos` yields, in priority order:
/// integer list, double, bool, integer, string, identifier. The bare
/// identifier `inf` stands for the double positive infinity; signing a
/// bool, a string or any other identifier is a hard error.
pub open spec fn spec_parse_op_attr_value(t: Seq<SpecToken>, pos: int) -> Parsed<SpecOpAttrValue> {
    if at_punct(t, pos, Punct::OpenBracket) {
        match spec_parse_int_list(t, pos + 1) {
            Parsed::Found(l, q) => Parsed::Found(SpecOpAttrValue::IntList(l), q),
            Parsed::Fail(m, q) => Parsed::Fail(m, q),
        }
    } else {
        let neg = at_punct(t, pos, Punct::Minus);
        let p = if neg { pos + 1 } else { pos };
        if p >= t.len() {
            Parsed::Fail("expected literal or identifier for op setting"@, p)
        } else {
            match t[p] {
                SpecToken::Float(s) => Parsed::Found(
                    SpecOpAttrValue::Double(
                        SpecFloatLit { text: s, negative: neg, infinite: false },
                    ),
                    p + 1,
                ),
                SpecToken::Int(s) => if is_digits(s) && digits_val(s) <= i64::MAX {
                    let v = if neg { -digits_val(s) } else { digits_val(s) };
                    Parsed::Found(SpecOpAttrValue::Int(v as i64), p + 1)
                } else {
                    Parsed::Fail("number too large to fit in target type"@, p)
                },
                SpecToken::Str(s) => if neg {
                    Parsed::Fail("unexpected '-' before string literal"@, p)
                } else {
                    Parsed::Found(SpecOpAttrValue::Str(s), p + 1)
                },
                SpecToken::Ident(s) => if s == "true"@ {
                    if neg {
                        Parsed::Fail("unexpected '-' before bool literal"@, p)
                    } else {
                        Parsed::Found(SpecOpAttrValue::Bool(true), p + 1)
                    }
                } else if s == "false"@ {
                    if neg {
                        Parsed::Fail("unexpected '-' before bool literal"@, p)
                    } else {
                        Parsed::Found(SpecOpAttrValue::Bool(false), p + 1)
                    }
                } else if neg {
                    Parsed::Fail("unexpected '-' before identifier"@, p)
                } else if s == "inf"@ {
                    Parsed::Found(
                        SpecOpAttrValue::Double(
                            SpecFloatLit { text: s, negative: false, infinite: true },
                        ),
                        p + 1,
                    )
                } else {
                    Parsed::Found(SpecOpAttrValue::Var(SpecIdent { text: s, pos: p }), p + 1)
                },
                _ => Parsed::Fail("expected literal or identifier for op setting"@, p),
            }
        }
    }
}

/// What parsing one operation argument at `pos` yields: a named setting
/// after `name =`, else a positional input reference.
pub open spec fn spec_parse_op_arg(t: Seq<SpecToken>, pos: int) -> Parsed<SpecOpArg> {
    if pos < t.len() && t[pos] is Ident {
        let name = t[pos]->Ident_0;
        if at_punct(t, pos + 1, Punct::Equals) {
            match spec_parse_op_attr_value(t, pos + 2) {
                Parsed::Found(v, q) => Parsed::Found(
                    SpecOpArg::Setting(
                        SpecOpSetting { name: SpecIdent { text: name, pos: pos }, value: v },
                    ),
                    q,
                ),
                Parsed::Fail(m, q) => Parsed::Fail(m, q),
            }
        } else if at_punct(t, pos + 1, Punct::OpenBracket) {
            match spec_parse_indices(t, pos + 1) {
                Parsed::Found(l, q) => Parsed::Found(
                    SpecOpArg::Input(SpecVarRef { name, indices: l }),
                    q,
                ),
                Parsed::Fail(m, q) => Parsed::Fail(m, q),
            }
        } else {
            Parsed::Found(
                SpecOpArg::Input(SpecVarRef { name, indices: Seq::empty() }),
                pos + 1,
            )
        }
    } else {
        Parsed::Fail("expected identifier"@, pos)
    }
}

/// Prepends inputs and settings to the pair carried by a ghost outcome.
pub open spec fn prepend_args(
    ins: Seq<SpecVarRef>,
    sets: Seq<SpecOpSetting>,
    p: Parsed<(Seq<SpecVarRef>, Seq<SpecOpSetting>)>,
) -> Parsed<(Seq<SpecVarRef>, Seq<SpecOpSetting>)> {
    match p {
        Parsed::Found((i, s), q) => Parsed::Found((ins + i, sets + s), q),
        Parsed::Fail(m, q) => Parsed::Fail(m, q),
    }
}

/// What parsing an operation argument list yields, from `pos` up to and
/// including the closing parenthesis: the positional inputs and the named
/// settings, in order. Once a setting is seen (`seen_setting`), a further
/// positional input is a hard error.
pub open spec fn spec_parse_op_args(t: Seq<SpecToken>, pos: int, seen_setting: bool) -> Parsed<
    (Seq<SpecVarRef>, Seq<SpecOpSetting>),
>
    decreases t.len() - pos,
{
    if pos < 0 || pos >= t.len() {
        Parsed::Fail("expected `)`"@, pos)
    } else if at_punct(t, pos, Punct::CloseParen) {
        Parsed::Found((Seq::empty(), Seq::empty()), pos + 1)
    } else {
        match spec_parse_op_arg(t, pos) {
            Parsed::Found(arg, q) => {
                let q2 = if at_punct(t, q, Punct::Comma) { q + 1 } else { q };
                if pos < q2 <= t.len() {
                    match arg {
                        SpecOpArg::Input(v) => if seen_setting {
                            Parsed::Fail("positional args must come before settings"@, q)
                        } else {
                            prepend_args(
                                seq![v],
                                Seq::empty(),
                                spec_parse_op_args(t, q2, seen_setting),
                            )
                        },
                        SpecOpArg::Setting(s) => prepend_args(
                            Seq::empty(),
                            seq![s],
                            spec_parse_op_args(t, q2, true),
                        ),
                    }
                } else {
                    // A sub-parse always advances; this arm only keeps the recursion well-founded.
                    Parsed::Fail(Seq::empty(), pos)
                }
            },
            Parsed::Fail(m, q) => Parsed::Fail(m, q),
        }
    }
}

/// Parses an operation argument list up to and including `)`; positional
/// inputs must all come before the first named setting.
pub fn parse_op_args(toks: &Vec<Token>, pos: usize) -> (r: Result<
    ((Vec<VarRef>, Vec<OpSetting>), usize),
    ParseError,
>)
    requires
        pos <= toks@.len(),
    ensures
        (match r {
            Ok(((ins, sets), q)) => spec_parse_op_args(toks.deep_view(), pos as int, false)
                == Parsed::<(Seq<SpecVarRef>, Seq<SpecOpSetting>)>::Found(
                (ins.deep_view(), sets.deep_view()),
                q as int,
            ),
            Err(e) => spec_parse_op_args(toks.deep_view(), pos as int, false) matches Parsed::Fail(
                m,
                q,
            ) && e.msg@ == m && e.pos == q,
        }),
        r matches Ok((_, q)) ==> pos < q <= toks@.len(),
{
    let ghost t = toks.deep_view();
    let mut inputs: Vec<VarRef> = Vec::new();
    let mut settings: Vec<OpSetting> = Vec::new();
    let mut seen_setting = false;
    let mut cur = pos;
    loop
        invariant
            pos <= cur <= toks@.len(),
            t == toks.deep_view(),
            spec_parse_op_args(t, pos as int, false) == prepend_args(
                inputs.deep_view(),
                settings.deep_view(),
                spec_parse_op_args(t, cur as int, seen_setting),
            ),
        decreases toks@.len() - cur,
    {
        if cur >= toks.len() {
            return Err(err_at(cur, "expected `)`"));
        }
        if toks[cur].is_punct(Punct::CloseParen) {
            proof {
                assert(inputs.deep_view() + Seq::<SpecVarRef>::empty() =~= inputs.deep_view());
                assert(settings.deep_view() + Seq::<SpecOpSetting>::empty()
                    =~= settings.deep_view());
            }
            return Ok(((inputs, settings), cur + 1));
        }
        let ghost prev = cur as int;
        let ghost old_ins = inputs.deep_view();
        let ghost old_sets = settings.deep_view();
        let ghost old_seen = seen_setting;
        match parse_op_arg(toks, cur) {
            Ok((arg, q)) => {
                cur = q;
                if cur < toks.len() && toks[cur].is_punct(Punct::Comma) {
                    cur = cur + 1;
                }
                match arg {
                    OpArg::Input(v) => {
                        if seen_setting {
                            return Err(err_at(q, "positional args must come before settings"));
                        }
                        inputs.push(v);
                        proof {
                            let rest = spec_parse_op_args(t, cur as int, seen_setting);
                            assert(inputs.deep_view() =~= old_ins + seq![
                                spec_parse_op_arg(t, prev)->Found_0->Input_0,
                            ]);
                            assert(spec_parse_op_args(t, prev, old_seen) == prepend_args(
                                seq![spec_parse_op_arg(t, prev)->Found_0->Input_0],
                                Seq::empty(),
                                rest,
                            ));
                            assert(prepend_args(
                                old_ins,
                                old_sets,
                                prepend_args(
                                    seq![spec_parse_op_arg(t, prev)->Found_0->Input_0],
                                    Seq::empty(),
                                    rest,
                                ),
                            ) =~= prepend_args(inputs.deep_view(), settings.deep_view(), rest));
                        }
                    },
                    OpArg::Setting(s) => {
                        seen_setting = true;
                        settings.push(s);
                        proof {
                            let rest = spec_parse_op_args(t, cur as int, true);
                            assert(settings.deep_view() =~= old_sets + seq![
                                spec_parse_op_arg(t, prev)->Found_0->Setting_0,
                            ]);
                            assert(spec_parse_op_args(t, prev, old_seen) == prepend_args(
                                Seq::empty(),
                                seq![spec_parse_op_arg(t, prev)->Found_0->Setting_0],
                                rest,
                            ));
                            assert(prepend_args(
                                old_ins,
                                old_sets,
                                prepend_args(
                                    Seq::empty(),
                                    seq![spec_parse_op_arg(t, prev)->Found_0->Setting_0],
                                    rest,
                                ),
                            ) =~= prepend_args(inputs.deep_view(), settings.deep_view(), rest));
                        }
                    },
                }
            },
            Err(e) => {
                return Err(e);
            },
        }
    }
}

/// Parses the entries of a bracketed integer list up to and including `]`.
fn parse_int_list(toks: &Vec<Token>, pos: usize) -> (r: Result<(Vec<i64>, usize), ParseError>)
    requires
        pos <= toks@.len(),
    ensures
        parses_to(r, spec_parse_int_list(toks.deep_view(), pos as int)),
        r matches Ok((_, q)) ==> pos < q <= toks@.len(),
{
    let ghost t = toks.deep_view();
    let mut items: Vec<i64> = Vec::new();
    let mut cur = pos;
    loop
        invariant
            pos <= cur <= toks@.len(),
            t == toks.deep_view(),
            spec_parse_int_list(t, pos as int) == prepend_list(
                items.deep_view(),
                spec_parse_int_list(t, cur as int),
            ),
        decreases toks@.len() - cur,
    {
        if cur >= toks.len() {
            return Err(err_at(cur, "expected `]`"));
        }
        if toks[cur].is_punct(Punct::CloseBracket) {
            proof {
                assert(items.deep_view() + Seq::<i64>::empty() =~= items.deep_view());
            }
            return Ok((items, cur + 1));
        }
        let negative = toks[cur].is_punct(Punct::Minus);
        let p = if negative { cur + 1 } else { cur };
        if p >= toks.len() {
            return Err(err_at(p, "expected integer literal"));
        }
        let entry: i64 = match &toks[p] {
            Token::Int(s) => {
                match parse_i64_digits(s) {
                    Some(v) => if negative { -v } else { v },
                    None => {
                        return Err(err_at(p, "number too large to fit in target type"));
                    },
                }
            },
            _ => {
                return Err(err_at(p, "expected integer literal"));
            },
        };
        let ghost prev = cur as int;
        let ghost old_items = items.deep_view();
        cur = p + 1;
        if cur < toks.len() && toks[cur].is_punct(Punct::Comma) {
            cur = cur + 1;
        }
        items.push(entry);
        proof {
            assert(items.deep_view() =~= old_items + seq![entry]);
            let rest = spec_parse_int_list(t, cur as int);
            assert(spec_parse_int_list(t, prev) == prepend_one(entry, rest));
            assert(prepend_list(old_items, prepend_one(entry, rest)) =~= prepend_list(
                items.deep_view(),
                rest,
            ));
        }
    }
}

/// Parses one attribute value.
pub fn parse_op_attr_value(toks: &Vec<Token>, pos: usize) -> (r: Result<
    (OpAttrValue, usize),
    ParseError,
>)
    requires
        pos <= toks@.len(),
    ensures
        parses_to(r, spec_parse_op_attr_value(toks.deep_view(), pos as int)),
        r matches Ok((_, q)) ==> pos < q <= toks@.len(),
{
    if pos < toks.len() && toks[pos].is_punct(Punct::OpenBracket) {
        return match parse_int_list(toks, pos + 1) {
            Ok((l, q)) => Ok((OpAttrValue::IntList(l), q)),
            Err(e) => Err(e),
        };
    }
    let negative = pos < toks.len() && toks[pos].is_punct(Punct::Minus);
    let p = if negative { pos + 1 } else { pos };
    if p >= toks.len() {
        return Err(err_at(p, "expected literal or identifier for op setting"));
    }
    match &toks[p] {
        Token::Float(s) => Ok((
            OpAttrValue::Double(FloatLit { text: s.clone(), negative, infinite: false }),
            p + 1,
        )),
        Token::Int(s) => {
            match parse_i64_digits(s) {
                Some(v) => Ok((OpAttrValue::Int(if negative { -v } else { v }), p + 1)),
                None => Err(err_at(p, "number too large to fit in target type")),
            }
        },
        Token::Str(s) => {
            if negative {
                Err(err_at(p, "unexpected '-' before string literal"))
            } else {
                Ok((OpAttrValue::Str(s.clone()), p + 1))
            }
        },
        Token::Ident(s) => {
            if toks[p].is_kw("true") {
                if negative {
                    Err(err_at(p, "unexpected '-' before bool literal"))
                } else {
                    Ok((OpAttrValue::Bool(true), p + 1))
                }
            } else if toks[p].is_kw("false") {
                if negative {
                    Err(err_at(p, "unexpected '-' before bool literal"))
                } else {
                    Ok((OpAttrValue::Bool(false), p + 1))
                }
            } else if negative {
                Err(err_at(p, "unexpected '-' before identifier"))
            } else if toks[p].is_kw("inf") {
                Ok((
                    OpAttrValue::Double(
                        FloatLit { text: s.clone(), negative: false, infinite: true },
                    ),
                    p + 1,
                ))
            } else {
                Ok((OpAttrValue::Var(Ident { text: s.clone(), pos: p }), p + 1))
            }
        },
        _ => Err(err_at(p, "expected literal or identifier for op setting")),
    }
}

/// Parses one operation argument.
pub fn parse_op_arg(toks: &Vec<Token>, pos: usize) -> (r: Result<(OpArg, usize), ParseError>)
    requires
        pos <= toks@.len(),
    ensures
        parses_to(r, spec_parse_op_arg(toks.deep_view(), pos as int)),
        r matches Ok((_, q)) ==> pos < q <= toks@.len(),
{
    if pos < toks.len() {
        let name: String = match &toks[pos] {
            Token::Ident(s) => s.clone(),
            _ => {
                return Err(err_at(pos, "expected identifier"));
            },
        };
        if pos + 1 < toks.len() && toks[pos + 1].is_punct(Punct::Equals) {
            match parse_op_attr_value(toks, pos + 2) {
                Ok((value, q)) => Ok((
                    OpArg::Setting(OpSetting { name: Ident { text: name, pos }, value }),
                    q,
                )),
                Err(e) => Err(e),
            }
        } else if pos + 1 < toks.len() && toks[pos + 1].is_punct(Punct::OpenBracket) {
            match parse_indices(toks, pos + 1) {
                Ok((indices, q)) => {
                    let v = VarRef { name, indices };
                    proof {
                        assert(spec_parse_op_arg(toks.deep_view(), pos as int) =~= Parsed::Found(
                            OpArg::Input(v).deep_view(),
                            q as int,
                        ));
                    }
                    Ok((OpArg::Input(v), q))
                },
                Err(e) => Err(e),
            }
        } else {
            let v = VarRef { name, indices: Vec::new() };
            proof {
                assert(v.deep_view().indices =~= Seq::<crate::ast::SpecIndexExpr>::empty());
            }
            Ok((OpArg::Input(v), pos + 1))
        }
    } else {
        Err(err_at(pos, "expected identifier"))
    }
}

} // verus!
