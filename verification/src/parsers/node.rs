//! The node grammar inside blocks, dispatched by keyword lookahead; loop
//! bodies recurse through the full grammar, so loops nest without a depth
//! limit.
use vstd::prelude::*;

use crate::ast::{Node, SpecIdent, SpecNode};
use crate::error::{err_at, parses_to, prepend_list, prepend_one, Parsed, ParseError};
use crate::parsers::cache::{parse_cache_access, parse_cache_amount, spec_parse_cache_access, spec_parse_cache_amount};
use crate::parsers::dims::{parse_dims, spec_parse_dims};
use crate::parsers::op::{parse_op_args, spec_parse_op_args};
use crate::parsers::range::{parse_range_value, spec_parse_range_value};
use crate::parsers::var::{parse_var_ref, spec_parse_var_ref};
use crate::token::{at_kw, at_punct, Punct, SpecToken, Token};

verus! {

/// What parsing a `cache.<op>` node at `pos` yields (`pos` is at `cache`).
pub open spec fn spec_parse_cache_node(t: Seq<SpecToken>, pos: int) -> Parsed<SpecNode> {
    if !at_punct(t, pos + 1, Punct::Dot) {
        Parsed::Fail("expected `.`"@, pos + 1)
    } else if at_kw(t, pos + 2, "read"@) {
        match spec_parse_cache_access(t, pos + 3) {
            Parsed::Found(src, q) => if !at_punct(t, q, Punct::Shr) {
                Parsed::Fail("expected `>>`"@, q)
            } else {
                match spec_parse_var_ref(t, q + 1) {
                    Parsed::Found(dst, q2) => if at_punct(t, q2, Punct::Semi) {
                        Parsed::Found(SpecNode::CacheRead { src, dst }, q2 + 1)
                    } else {
                        Parsed::Fail("expected `;`"@, q2)
                    },
                    Parsed::Fail(m, q2) => Parsed::Fail(m, q2),
                }
            },
            Parsed::Fail(m, q) => Parsed::Fail(m, q),
        }
    } else if at_kw(t, pos + 2, "write"@) {
        match spec_parse_var_ref(t, pos + 3) {
            Parsed::Found(src, q) => if !at_punct(t, q, Punct::Shr) {
                Parsed::Fail("expected `>>`"@, q)
            } else {
                match spec_parse_cache_access(t, q + 1) {
                    Parsed::Found(dst, q2) => if at_punct(t, q2, Punct::Semi) {
                        Parsed::Found(SpecNode::CacheWrite { src, dst }, q2 + 1)
                    } else {
                        Parsed::Fail("expected `;`"@, q2)
                    },
                    Parsed::Fail(m, q2) => Parsed::Fail(m, q2),
                }
            },
            Parsed::Fail(m, q) => Parsed::Fail(m, q),
        }
    } else if at_kw(t, pos + 2, "increment"@) {
        match spec_parse_cache_amount(t, pos + 3) {
            Parsed::Found(amount, q) => if q < t.len() && t[q] is Ident {
                if at_punct(t, q + 1, Punct::Semi) {
                    Parsed::Found(SpecNode::CacheInc { target: t[q]->Ident_0, amount }, q + 2)
                } else {
                    Parsed::Fail("expected `;`"@, q + 1)
                }
            } else {
                Parsed::Fail("expected identifier"@, q)
            },
            Parsed::Fail(m, q) => Parsed::Fail(m, q),
        }
    } else if at_kw(t, pos + 2, "decrement"@) {
        match spec_parse_cache_amount(t, pos + 3) {
            Parsed::Found(amount, q) => if q < t.len() && t[q] is Ident {
                if at_punct(t, q + 1, Punct::Semi) {
                    Parsed::Found(SpecNode::CacheDec { target: t[q]->Ident_0, amount }, q + 2)
                } else {
                    Parsed::Fail("expected `;`"@, q + 1)
                }
            } else {
                Parsed::Fail("expected identifier"@, q)
            },
            Parsed::Fail(m, q) => Parsed::Fail(m, q),
        }
    } else if at_kw(t, pos + 2, "reset"@) {
        match spec_parse_cache_access(t, pos + 3) {
            Parsed::Found(target, q) => if at_punct(t, q, Punct::Semi) {
                Parsed::Found(SpecNode::CacheReset { target }, q + 1)
            } else {
                Parsed::Fail("expected `;`"@, q)
            },
            Parsed::Fail(m, q) => Parsed::Fail(m, q),
        }
    } else {
        Parsed::Fail("unsupported cache operation"@, pos + 2)
    }
}

/// What parsing an `assign` node at `pos` yields.
pub open spec fn spec_parse_assign_node(t: Seq<SpecToken>, pos: int) -> Parsed<SpecNode> {
    if !(pos + 1 < t.len() && t[pos + 1] is Ident) {
        Parsed::Fail("expected identifier"@, pos + 1)
    } else if !at_punct(t, pos + 2, Punct::Colon) {
        Parsed::Fail("expected `:`"@, pos + 2)
    } else if !(pos + 3 < t.len() && t[pos + 3] is Ident) {
        Parsed::Fail("expected identifier"@, pos + 3)
    } else {
        match spec_parse_dims(t, pos + 4) {
            Parsed::Found(dims, q) => if at_punct(t, q, Punct::Semi) {
                Parsed::Found(
                    SpecNode::Assign {
                        name: t[pos + 1]->Ident_0,
                        dtype: SpecIdent { text: t[pos + 3]->Ident_0, pos: pos + 3 },
                        dims,
                    },
                    q + 1,
                )
            } else {
                Parsed::Fail("expected `;`"@, q)
            },
            Parsed::Fail(m, q) => Parsed::Fail(m, q),
        }
    }
}

/// What parsing an `op` node at `pos` yields.
pub open spec fn spec_parse_op_node(t: Seq<SpecToken>, pos: int) -> Parsed<SpecNode> {
    if !(pos + 1 < t.len() && t[pos + 1] is Ident) {
        Parsed::Fail("expected identifier"@, pos + 1)
    } else if !at_punct(t, pos + 2, Punct::OpenParen) {
        Parsed::Fail("expected parentheses"@, pos + 2)
    } else {
        match spec_parse_op_args(t, pos + 3, false) {
            Parsed::Found((inputs, settings), q) => if !at_punct(t, q, Punct::Shr) {
                Parsed::Fail("expected `>>`"@, q)
            } else {
                match spec_parse_var_ref(t, q + 1) {
                    Parsed::Found(output, q2) => if !at_punct(t, q2, Punct::Semi) {
                        Parsed::Fail("expected `;`"@, q2)
                    } else {
                        Parsed::Found(
                            SpecNode::Op {
                                name: SpecIdent { text: t[pos + 1]->Ident_0, pos: pos + 1 },
                                inputs,
                                settings,
                                output,
                            },
                            q2 + 1,
                        )
                    },
                    Parsed::Fail(m, q2) => Parsed::Fail(m, q2),
                }
            },
            Parsed::Fail(m, q) => Parsed::Fail(m, q),
        }
    }
}

/// What parsing a `branch` node at `pos` yields: one identifier for an
/// unconditional branch, or exactly three for a conditional one; two is a
/// hard error naming both valid forms.
pub open spec fn spec_parse_branch_node(t: Seq<SpecToken>, pos: int) -> Parsed<SpecNode> {
    if !(pos + 1 < t.len() && t[pos + 1] is Ident) {
        Parsed::Fail("expected identifier"@, pos + 1)
    } else if at_punct(t, pos + 2, Punct::Semi) {
        Parsed::Found(
            SpecNode::Branch {
                cond: None,
                then_block: t[pos + 1]->Ident_0,
                else_block: None,
            },
            pos + 3,
        )
    } else if !(pos + 2 < t.len() && t[pos + 2] is Ident) {
        Parsed::Fail("expected identifier"@, pos + 2)
    } else if at_punct(t, pos + 3, Punct::Semi) {
        Parsed::Fail("branch expects condition and two target blocks"@, pos + 3)
    } else if !(pos + 3 < t.len() && t[pos + 3] is Ident) {
        Parsed::Fail("expected identifier"@, pos + 3)
    } else if !at_punct(t, pos + 4, Punct::Semi) {
        Parsed::Fail("expected `;`"@, pos + 4)
    } else {
        Parsed::Found(
            SpecNode::Branch {
                cond: Some(t[pos + 1]->Ident_0),
                then_block: t[pos + 2]->Ident_0,
                else_block: Some(t[pos + 3]->Ident_0),
            },
            pos + 5,
        )
    }
}

/// What parsing a `dep` node at `pos` yields: both parenthesized clauses
/// are mandatory and in fixed order.
pub open spec fn spec_parse_dep_node(t: Seq<SpecToken>, pos: int) -> Parsed<SpecNode> {
    if !at_kw(t, pos + 1, "after"@) {
        Parsed::Fail("expected `after`"@, pos + 1)
    } else if !at_punct(t, pos + 2, Punct::OpenParen) {
        Parsed::Fail("expected parentheses"@, pos + 2)
    } else if !(pos + 3 < t.len() && t[pos + 3] is Ident) {
        Parsed::Fail("expected identifier"@, pos + 3)
    } else if !at_punct(t, pos + 4, Punct::CloseParen) {
        Parsed::Fail("unexpected token"@, pos + 4)
    } else if !at_kw(t, pos + 5, "before"@) {
        Parsed::Fail("expected `before`"@, pos + 5)
    } else if !at_punct(t, pos + 6, Punct::OpenParen) {
        Parsed::Fail("expected parentheses"@, pos + 6)
    } else if !(pos + 7 < t.len() && t[pos + 7] is Ident) {
        Parsed::Fail("expected identifier"@, pos + 7)
    } else if !at_punct(t, pos + 8, Punct::CloseParen) {
        Parsed::Fail("unexpected token"@, pos + 8)
    } else if !at_punct(t, pos + 9, Punct::Semi) {
        Parsed::Fail("expected `;`"@, pos + 9)
    } else {
        Parsed::Found(
            SpecNode::Dep { after: t[pos + 3]->Ident_0, before: t[pos + 7]->Ident_0 },
            pos + 10,
        )
    }
}

/// What parsing one-or-more comma-separated identifiers yields: every
/// comma must be followed by another identifier, so a trailing comma
/// before the `;` is a hard error.
pub open spec fn spec_parse_name_list_more(t: Seq<SpecToken>, pos: int) -> Parsed<Seq<Seq<char>>>
    decreases t.len() - pos,
{
    if pos < t.len() && t[pos] is Ident {
        let s = t[pos]->Ident_0;
        if at_punct(t, pos + 1, Punct::Comma) {
            prepend_one(s, spec_parse_name_list_more(t, pos + 2))
        } else {
            Parsed::Found(seq![s], pos + 1)
        }
    } else {
        Parsed::Fail("expected identifier"@, pos)
    }
}

/// What parsing a comma-separated identifier list before a `;` yields; the
/// list stops before the semicolon, which stays unconsumed. An immediate
/// `;` gives the empty list, which the caller rejects.
pub open spec fn spec_parse_name_list(t: Seq<SpecToken>, pos: int) -> Parsed<Seq<Seq<char>>> {
    if at_punct(t, pos, Punct::Semi) {
        Parsed::Found(Seq::<Seq<char>>::empty(), pos)
    } else {
        spec_parse_name_list_more(t, pos)
    }
}

/// What parsing a `yield` node at `pos` yields: at least one variable.
pub open spec fn spec_parse_yield_node(t: Seq<SpecToken>, pos: int) -> Parsed<SpecNode> {
    match spec_parse_name_list(t, pos + 1) {
        Parsed::Found(vars, q) => if vars.len() == 0 {
            Parsed::Fail("yield expects at least one variable"@, q)
        } else if at_punct(t, q, Punct::Semi) {
            Parsed::Found(SpecNode::Yield { vars }, q + 1)
        } else {
            Parsed::Fail("expected `;`"@, q)
        },
        Parsed::Fail(m, q) => Parsed::Fail(m, q),
    }
}

/// What parsing an `await` node at `pos` yields: at least one variable.
pub open spec fn spec_parse_await_node(t: Seq<SpecToken>, pos: int) -> Parsed<SpecNode> {
    match spec_parse_name_list(t, pos + 1) {
        Parsed::Found(vars, q) => if vars.len() == 0 {
            Parsed::Fail("await expects at least one variable"@, q)
        } else if at_punct(t, q, Punct::Semi) {
            Parsed::Found(SpecNode::Await { vars }, q + 1)
        } else {
            Parsed::Fail("expected `;`"@, q)
        },
        Parsed::Fail(m, q) => Parsed::Fail(m, q),
    }
}

/// What parsing a `transfer` node at `pos` yields.
pub open spec fn spec_parse_transfer_node(t: Seq<SpecToken>, pos: int) -> Parsed<SpecNode> {
    match spec_parse_var_ref(t, pos + 1) {
        Parsed::Found(src, q) => if !at_punct(t, q, Punct::Shr) {
            Parsed::Fail("expected `>>`"@, q)
        } else {
            match spec_parse_var_ref(t, q + 1) {
                Parsed::Found(dst, q2) => if at_punct(t, q2, Punct::Semi) {
                    Parsed::Found(SpecNode::Transfer { src, dst }, q2 + 1)
                } else {
                    Parsed::Fail("expected `;`"@, q2)
                },
                Parsed::Fail(m, q2) => Parsed::Fail(m, q2),
            }
        },
        Parsed::Fail(m, q) => Parsed::Fail(m, q),
    }
}

/// What parsing a `loop` node at `pos` yields: the header, then a braced
/// body parsed recursively through the full node grammar.
pub open spec fn spec_parse_loop_node(t: Seq<SpecToken>, pos: int) -> Parsed<SpecNode>
    decreases t.len() - pos, 0int,
{
    if !(pos + 1 < t.len() && t[pos + 1] is Ident) {
        Parsed::Fail("expected identifier"@, pos + 1)
    } else if !at_punct(t, pos + 2, Punct::OpenParen) {
        Parsed::Fail("expected parentheses"@, pos + 2)
    } else if !(pos + 3 < t.len() && t[pos + 3] is Ident) {
        Parsed::Fail("expected identifier"@, pos + 3)
    } else if !at_kw(t, pos + 4, "in"@) {
        Parsed::Fail("expected `in`"@, pos + 4)
    } else {
        match spec_parse_range_value(t, pos + 5) {
            Parsed::Found(start, q1) => if !at_punct(t, q1, Punct::DotDot) {
                Parsed::Fail("expected `..`"@, q1)
            } else {
                match spec_parse_range_value(t, q1 + 1) {
                    Parsed::Found(end, q2) => if !at_punct(t, q2, Punct::CloseParen) {
                        Parsed::Fail("unexpected token"@, q2)
                    } else if !at_punct(t, q2 + 1, Punct::OpenBrace) {
                        Parsed::Fail("expected curly braces"@, q2 + 1)
                    } else if pos < q2 + 2 <= t.len() {
                        match spec_parse_node_list(t, q2 + 2) {
                            Parsed::Found(body, q3) => Parsed::Found(
                                SpecNode::Loop {
                                    name: t[pos + 1]->Ident_0,
                                    index: t[pos + 3]->Ident_0,
                                    start,
                                    end,
                                    body,
                                },
                                q3,
                            ),
                            Parsed::Fail(m, q3) => Parsed::Fail(m, q3),
                        }
                    } else {
                        // A sub-parse always advances; this arm only keeps the recursion well-founded.
                        Parsed::Fail(Seq::empty(), pos)
                    },
                    Parsed::Fail(m, q2) => Parsed::Fail(m, q2),
                }
            },
            Parsed::Fail(m, q1) => Parsed::Fail(m, q1),
        }
    }
}

/// What parsing one node at `pos` yields, dispatched by keyword.
pub open spec fn spec_parse_node(t: Seq<SpecToken>, pos: int) -> Parsed<SpecNode>
    decreases t.len() - pos, 1int,
{
    if at_kw(t, pos, "cache"@) {
        spec_parse_cache_node(t, pos)
    } else if at_kw(t, pos, "assign"@) {
        spec_parse_assign_node(t, pos)
    } else if at_kw(t, pos, "op"@) {
        spec_parse_op_node(t, pos)
    } else if at_kw(t, pos, "branch"@) {
        spec_parse_branch_node(t, pos)
    } else if at_kw(t, pos, "barrier"@) {
        if at_punct(t, pos + 1, Punct::Semi) {
            Parsed::Found(SpecNode::Barrier, pos + 2)
        } else {
            Parsed::Fail("expected `;`"@, pos + 1)
        }
    } else if at_kw(t, pos, "dep"@) {
        spec_parse_dep_node(t, pos)
    } else if at_kw(t, pos, "loop"@) {
        spec_parse_loop_node(t, pos)
    } else if at_kw(t, pos, "yield"@) {
        spec_parse_yield_node(t, pos)
    } else if at_kw(t, pos, "await"@) {
        spec_parse_await_node(t, pos)
    } else if at_kw(t, pos, "transfer"@) {
        spec_parse_transfer_node(t, pos)
    } else if at_kw(t, pos, "return"@) {
        if at_punct(t, pos + 1, Punct::Semi) {
            Parsed::Found(SpecNode::Return, pos + 2)
        } else {
            Parsed::Fail("expected `;`"@, pos + 1)
        }
    } else {
        Parsed::Fail("unsupported node"@, pos)
    }
}

/// What parsing a braced node list yields, from `pos` up to and including
/// the closing brace.
pub open spec fn spec_parse_node_list(t: Seq<SpecToken>, pos: int) -> Parsed<Seq<SpecNode>>
    decreases t.len() - pos, 2int,
{
    if pos < 0 || pos >= t.len() {
        Parsed::Fail("expected `}`"@, pos)
    } else if at_punct(t, pos, Punct::CloseBrace) {
        Parsed::Found(Seq::<SpecNode>::empty(), pos + 1)
    } else {
        match spec_parse_node(t, pos) {
            Parsed::Found(n, q) => if pos < q <= t.len() {
                prepend_one(n, spec_parse_node_list(t, q))
            } else {
                // A sub-parse always advances; this arm only keeps the recursion well-founded.
                Parsed::Fail(Seq::empty(), pos)
            },
            Parsed::Fail(m, q) => Parsed::Fail(m, q),
        }
    }
}

/// Parses a `cache.<op>` node (`pos` is at `cache`).
fn parse_cache_node(toks: &Vec<Token>, pos: usize) -> (r: Result<(Node, usize), ParseError>)
    requires
        pos < toks@.len(),
    ensures
        parses_to(r, spec_parse_cache_node(toks.deep_view(), pos as int)),
        r matches Ok((_, q)) ==> pos < q <= toks@.len(),
{
    let n = toks.len();
    if !(pos + 1 < n && toks[pos + 1].is_punct(Punct::Dot)) {
        return Err(err_at(pos + 1, "expected `.`"));
    }
    if pos + 2 < toks.len() && toks[pos + 2].is_kw("read") {
        let (src, q) = match parse_cache_access(toks, pos + 3) {
            Ok(v) => v,
            Err(e) => {
                return Err(e);
            },
        };
        if !(q < toks.len() && toks[q].is_punct(Punct::Shr)) {
            return Err(err_at(q, "expected `>>`"));
        }
        let (dst, q2) = match parse_var_ref(toks, q + 1) {
            Ok(v) => v,
            Err(e) => {
                return Err(e);
            },
        };
        if !(q2 < toks.len() && toks[q2].is_punct(Punct::Semi)) {
            return Err(err_at(q2, "expected `;`"));
        }
        Ok((Node::CacheRead { src, dst }, q2 + 1))
    } else if pos + 2 < toks.len() && toks[pos + 2].is_kw("write") {
        let (src, q) = match parse_var_ref(toks, pos + 3) {
            Ok(v) => v,
            Err(e) => {
                return Err(e);
            },
        };
        if !(q < toks.len() && toks[q].is_punct(Punct::Shr)) {
            return Err(err_at(q, "expected `>>`"));
        }
        let (dst, q2) = match parse_cache_access(toks, q + 1) {
            Ok(v) => v,
            Err(e) => {
                return Err(e);
            },
        };
        if !(q2 < toks.len() && toks[q2].is_punct(Punct::Semi)) {
            return Err(err_at(q2, "expected `;`"));
        }
        Ok((Node::CacheWrite { src, dst }, q2 + 1))
    } else if pos + 2 < toks.len() && toks[pos + 2].is_kw("increment") {
        let (amount, q) = match parse_cache_amount(toks, pos + 3) {
            Ok(v) => v,
            Err(e) => {
                return Err(e);
            },
        };
        if q < toks.len() {
            match &toks[q] {
                Token::Ident(s) => {
                    if q + 1 < toks.len() && toks[q + 1].is_punct(Punct::Semi) {
                        return Ok((Node::CacheInc { target: s.clone(), amount }, q + 2));
                    }
                    return Err(err_at(q + 1, "expected `;`"));
                },
                _ => {},
            }
        }
        Err(err_at(q, "expected identifier"))
    } else if pos + 2 < toks.len() && toks[pos + 2].is_kw("decrement") {
        let (amount, q) = match parse_cache_amount(toks, pos + 3) {
            Ok(v) => v,
            Err(e) => {
                return Err(e);
            },
        };
        if q < toks.len() {
            match &toks[q] {
                Token::Ident(s) => {
                    if q + 1 < toks.len() && toks[q + 1].is_punct(Punct::Semi) {
                        return Ok((Node::CacheDec { target: s.clone(), amount }, q + 2));
                    }
                    return Err(err_at(q + 1, "expected `;`"));
                },
                _ => {},
            }
        }
        Err(err_at(q, "expected identifier"))
    } else if pos + 2 < toks.len() && toks[pos + 2].is_kw("reset") {
        let (target, q) = match parse_cache_access(toks, pos + 3) {
            Ok(v) => v,
            Err(e) => {
                return Err(e);
            },
        };
        if !(q < toks.len() && toks[q].is_punct(Punct::Semi)) {
            return Err(err_at(q, "expected `;`"));
        }
        Ok((Node::CacheReset { target }, q + 1))
    } else {
        Err(err_at(pos + 2, "unsupported cache operation"))
    }
}

/// Parses an `assign` node.
fn parse_assign_node(toks: &Vec<Token>, pos: usize) -> (r: Result<(Node, usize), ParseError>)
    requires
        pos < toks@.len(),
    ensures
        parses_to(r, spec_parse_assign_node(toks.deep_view(), pos as int)),
        r matches Ok((_, q)) ==> pos < q <= toks@.len(),
{
    let n = toks.len();
    if pos + 1 >= n {
        return Err(err_at(pos + 1, "expected identifier"));
    }
    let name: String = match &toks[pos + 1] {
        Token::Ident(s) => s.clone(),
        _ => {
            return Err(err_at(pos + 1, "expected identifier"));
        },
    };
    if !(pos + 2 < toks.len() && toks[pos + 2].is_punct(Punct::Colon)) {
        return Err(err_at(pos + 2, "expected `:`"));
    }
    if pos + 3 >= toks.len() {
        return Err(err_at(pos + 3, "expected identifier"));
    }
    let dtype_text: String = match &toks[pos + 3] {
        Token::Ident(s) => s.clone(),
        _ => {
            return Err(err_at(pos + 3, "expected identifier"));
        },
    };
    let (dims, q) = match parse_dims(toks, pos + 4) {
        Ok(v) => v,
        Err(e) => {
            return Err(e);
        },
    };
    if !(q < toks.len() && toks[q].is_punct(Punct::Semi)) {
        return Err(err_at(q, "expected `;`"));
    }
    let node = Node::Assign {
        name,
        dtype: crate::ast::Ident { text: dtype_text, pos: pos + 3 },
        dims,
    };
    proof {
        assert(spec_parse_assign_node(toks.deep_view(), pos as int) =~= Parsed::Found(
            node.deep_view(),
            (q + 1) as int,
        ));
    }
    Ok((node, q + 1))
}

/// Parses an `op` node.
fn parse_op_node(toks: &Vec<Token>, pos: usize) -> (r: Result<(Node, usize), ParseError>)
    requires
        pos < toks@.len(),
    ensures
        parses_to(r, spec_parse_op_node(toks.deep_view(), pos as int)),
        r matches Ok((_, q)) ==> pos < q <= toks@.len(),
{
    let n = toks.len();
    if pos + 1 >= n {
        return Err(err_at(pos + 1, "expected identifier"));
    }
    let name: String = match &toks[pos + 1] {
        Token::Ident(s) => s.clone(),
        _ => {
            return Err(err_at(pos + 1, "expected identifier"));
        },
    };
    if !(pos + 2 < toks.len() && toks[pos + 2].is_punct(Punct::OpenParen)) {
        return Err(err_at(pos + 2, "expected parentheses"));
    }
    let ((inputs, settings), q) = match parse_op_args(toks, pos + 3) {
        Ok(v) => v,
        Err(e) => {
            return Err(e);
        },
    };
    if !(q < toks.len() && toks[q].is_punct(Punct::Shr)) {
        return Err(err_at(q, "expected `>>`"));
    }
    let (output, q2) = match parse_var_ref(toks, q + 1) {
        Ok(v) => v,
        Err(e) => {
            return Err(e);
        },
    };
    if !(q2 < toks.len() && toks[q2].is_punct(Punct::Semi)) {
        return Err(err_at(q2, "expected `;`"));
    }
    let node = Node::Op {
        name: crate::ast::Ident { text: name, pos: pos + 1 },
        inputs,
        settings,
        output,
    };
    proof {
        assert(spec_parse_op_node(toks.deep_view(), pos as int) =~= Parsed::Found(
            node.deep_view(),
            (q2 + 1) as int,
        ));
    }
    Ok((node, q2 + 1))
}

/// Parses a `branch` node.
fn parse_branch_node(toks: &Vec<Token>, pos: usize) -> (r: Result<(Node, usize), ParseError>)
    requires
        pos < toks@.len(),
    ensures
        parses_to(r, spec_parse_branch_node(toks.deep_view(), pos as int)),
        r matches Ok((_, q)) ==> pos < q <= toks@.len(),
{
    let n = toks.len();
    if pos + 1 >= n {
        return Err(err_at(pos + 1, "expected identifier"));
    }
    let first: String = match &toks[pos + 1] {
        Token::Ident(s) => s.clone(),
        _ => {
            return Err(err_at(pos + 1, "expected identifier"));
        },
    };
    if pos + 2 < toks.len() && toks[pos + 2].is_punct(Punct::Semi) {
        return Ok((
            Node::Branch { cond: None, then_block: first, else_block: None },
            pos + 3,
        ));
    }
    if pos + 2 >= toks.len() {
        return Err(err_at(pos + 2, "expected identifier"));
    }
    let second: String = match &toks[pos + 2] {
        Token::Ident(s) => s.clone(),
        _ => {
            return Err(err_at(pos + 2, "expected identifier"));
        },
    };
    if pos + 3 < toks.len() && toks[pos + 3].is_punct(Punct::Semi) {
        return Err(err_at(pos + 3, "branch expects condition and two target blocks"));
    }
    if pos + 3 >= toks.len() {
        return Err(err_at(pos + 3, "expected identifier"));
    }
    let third: String = match &toks[pos + 3] {
        Token::Ident(s) => s.clone(),
        _ => {
            return Err(err_at(pos + 3, "expected identifier"));
        },
    };
    if !(pos + 4 < toks.len() && toks[pos + 4].is_punct(Punct::Semi)) {
        return Err(err_at(pos + 4, "expected `;`"));
    }
    Ok((
        Node::Branch { cond: Some(first), then_block: second, else_block: Some(third) },
        pos + 5,
    ))
}

/// Parses a `dep` node.
fn parse_dep_node(toks: &Vec<Token>, pos: usize) -> (r: Result<(Node, usize), ParseError>)
    requires
        pos < toks@.len(),
    ensures
        parses_to(r, spec_parse_dep_node(toks.deep_view(), pos as int)),
        r matches Ok((_, q)) ==> pos < q <= toks@.len(),
{
    let n = toks.len();
    if !(pos + 1 < n && toks[pos + 1].is_kw("after")) {
        return Err(err_at(pos + 1, "expected `after`"));
    }
    if !(pos + 2 < toks.len() && toks[pos + 2].is_punct(Punct::OpenParen)) {
        return Err(err_at(pos + 2, "expected parentheses"));
    }
    if pos + 3 >= toks.len() {
        return Err(err_at(pos + 3, "expected identifier"));
    }
    let after: String = match &toks[pos + 3] {
        Token::Ident(s) => s.clone(),
        _ => {
            return Err(err_at(pos + 3, "expected identifier"));
        },
    };
    if !(pos + 4 < toks.len() && toks[pos + 4].is_punct(Punct::CloseParen)) {
        return Err(err_at(pos + 4, "unexpected token"));
    }
    if !(pos + 5 < toks.len() && toks[pos + 5].is_kw("before")) {
        return Err(err_at(pos + 5, "expected `before`"));
    }
    if !(pos + 6 < toks.len() && toks[pos + 6].is_punct(Punct::OpenParen)) {
        return Err(err_at(pos + 6, "expected parentheses"));
    }
    if pos + 7 >= toks.len() {
        return Err(err_at(pos + 7, "expected identifier"));
    }
    let before: String = match &toks[pos + 7] {
        Token::Ident(s) => s.clone(),
        _ => {
            return Err(err_at(pos + 7, "expected identifier"));
        },
    };
    if !(pos + 8 < toks.len() && toks[pos + 8].is_punct(Punct::CloseParen)) {
        return Err(err_at(pos + 8, "unexpected token"));
    }
    if !(pos + 9 < toks.len() && toks[pos + 9].is_punct(Punct::Semi)) {
        return Err(err_at(pos + 9, "expected `;`"));
    }
    Ok((Node::Dep { after, before }, pos + 10))
}

/// Parses the comma-separated identifier list of a `yield` or `await`
/// node, stopping before the `;`.
fn parse_name_list(toks: &Vec<Token>, pos: usize) -> (r: Result<(Vec<String>, usize), ParseError>)
    requires
        pos <= toks@.len(),
    ensures
        parses_to(r, spec_parse_name_list(toks.deep_view(), pos as int)),
        r matches Ok((_, q)) ==> pos <= q <= toks@.len(),
{
    let ghost t = toks.deep_view();
    if pos < toks.len() && toks[pos].is_punct(Punct::Semi) {
        let items: Vec<String> = Vec::new();
        proof {
            assert(items.deep_view() =~= Seq::<Seq<char>>::empty());
        }
        return Ok((items, pos));
    }
    let mut items: Vec<String> = Vec::new();
    let mut cur = pos;
    loop
        invariant
            pos <= cur <= toks@.len(),
            t == toks.deep_view(),
            spec_parse_name_list(t, pos as int) == prepend_list(
                items.deep_view(),
                spec_parse_name_list_more(t, cur as int),
            ),
        decreases toks@.len() - cur,
    {
        if cur >= toks.len() {
            return Err(err_at(cur, "expected identifier"));
        }
        proof {
            assert(t[cur as int] == toks@[cur as int].deep_view());
        }
        let entry: String = match &toks[cur] {
            Token::Ident(s) => s.clone(),
            _ => {
                return Err(err_at(cur, "expected identifier"));
            },
        };
        let ghost prev = cur as int;
        let ghost old_items = items.deep_view();
        if cur + 1 < toks.len() && toks[cur + 1].is_punct(Punct::Comma) {
            cur = cur + 2;
            items.push(entry);
            proof {
                assert(items.deep_view() =~= old_items + seq![entry@]);
                let rest = spec_parse_name_list_more(t, cur as int);
                assert(spec_parse_name_list_more(t, prev) == prepend_one(entry@, rest));
                assert(prepend_list(old_items, prepend_one(entry@, rest)) =~= prepend_list(
                    items.deep_view(),
                    rest,
                ));
            }
        } else {
            items.push(entry);
            proof {
                assert(items.deep_view() =~= old_items + seq![entry@]);
                assert(spec_parse_name_list_more(t, prev) == Parsed::<Seq<Seq<char>>>::Found(
                    seq![entry@],
                    prev + 1,
                ));
                assert(prepend_list(old_items, spec_parse_name_list_more(t, prev)) =~= Parsed::<
                    Seq<Seq<char>>,
                >::Found(items.deep_view(), prev + 1));
            }
            return Ok((items, cur + 1));
        }
    }
}

/// Parses a `transfer` node.
fn parse_transfer_node(toks: &Vec<Token>, pos: usize) -> (r: Result<(Node, usize), ParseError>)
    requires
        pos < toks@.len(),
    ensures
        parses_to(r, spec_parse_transfer_node(toks.deep_view(), pos as int)),
        r matches Ok((_, q)) ==> pos < q <= toks@.len(),
{
    let n = toks.len();
    let (src, q) = match parse_var_ref(toks, pos + 1) {
        Ok(v) => v,
        Err(e) => {
            return Err(e);
        },
    };
    if !(q < n && toks[q].is_punct(Punct::Shr)) {
        return Err(err_at(q, "expected `>>`"));
    }
    let (dst, q2) = match parse_var_ref(toks, q + 1) {
        Ok(v) => v,
        Err(e) => {
            return Err(e);
        },
    };
    if !(q2 < toks.len() && toks[q2].is_punct(Punct::Semi)) {
        return Err(err_at(q2, "expected `;`"));
    }
    Ok((Node::Transfer { src, dst }, q2 + 1))
}

/// Parses a `loop` node: the header, then the braced body through the full
/// node grammar.
fn parse_loop_node(toks: &Vec<Token>, pos: usize) -> (r: Result<(Node, usize), ParseError>)
    requires
        pos < toks@.len(),
    ensures
        parses_to(r, spec_parse_loop_node(toks.deep_view(), pos as int)),
        r matches Ok((_, q)) ==> pos < q <= toks@.len(),
    decreases toks@.len() - pos, 0int,
{
    let n = toks.len();
    if pos + 1 >= n {
        return Err(err_at(pos + 1, "expected identifier"));
    }
    let name: String = match &toks[pos + 1] {
        Token::Ident(s) => s.clone(),
        _ => {
            return Err(err_at(pos + 1, "expected identifier"));
        },
    };
    if !(pos + 2 < toks.len() && toks[pos + 2].is_punct(Punct::OpenParen)) {
        return Err(err_at(pos + 2, "expected parentheses"));
    }
    if pos + 3 >= toks.len() {
        return Err(err_at(pos + 3, "expected identifier"));
    }
    let index: String = match &toks[pos + 3] {
        Token::Ident(s) => s.clone(),
        _ => {
            return Err(err_at(pos + 3, "expected identifier"));
        },
    };
    if !(pos + 4 < toks.len() && toks[pos + 4].is_kw("in")) {
        return Err(err_at(pos + 4, "expected `in`"));
    }
    let (start, q1) = match parse_range_value(toks, pos + 5) {
        Ok(v) => v,
        Err(e) => {
            return Err(e);
        },
    };
    if !(q1 < toks.len() && toks[q1].is_punct(Punct::DotDot)) {
        return Err(err_at(q1, "expected `..`"));
    }
    let (end, q2) = match parse_range_value(toks, q1 + 1) {
        Ok(v) => v,
        Err(e) => {
            return Err(e);
        },
    };
    if !(q2 < toks.len() && toks[q2].is_punct(Punct::CloseParen)) {
        return Err(err_at(q2, "unexpected token"));
    }
    if !(q2 + 1 < toks.len() && toks[q2 + 1].is_punct(Punct::OpenBrace)) {
        return Err(err_at(q2 + 1, "expected curly braces"));
    }
    let (body, q3) = match parse_node_list(toks, q2 + 2) {
        Ok(v) => v,
        Err(e) => {
            return Err(e);
        },
    };
    let node = Node::Loop { name, index, start, end, body };
    proof {
        crate::ast::lemma_vec_nodes_dv(node->Loop_body);
        assert(spec_parse_loop_node(toks.deep_view(), pos as int) =~= Parsed::Found(
            node.deep_view(),
            q3 as int,
        ));
    }
    Ok((node, q3))
}

/// Parses one node, dispatched by keyword lookahead.
pub fn parse_node(toks: &Vec<Token>, pos: usize) -> (r: Result<(Node, usize), ParseError>)
    requires
        pos <= toks@.len(),
    ensures
        parses_to(r, spec_parse_node(toks.deep_view(), pos as int)),
        r matches Ok((_, q)) ==> pos < q <= toks@.len(),
    decreases toks@.len() - pos, 1int,
{
    if pos >= toks.len() {
        return Err(err_at(pos, "unsupported node"));
    }
    if toks[pos].is_kw("cache") {
        parse_cache_node(toks, pos)
    } else if toks[pos].is_kw("assign") {
        parse_assign_node(toks, pos)
    } else if toks[pos].is_kw("op") {
        parse_op_node(toks, pos)
    } else if toks[pos].is_kw("branch") {
        parse_branch_node(toks, pos)
    } else if toks[pos].is_kw("barrier") {
        if pos + 1 < toks.len() && toks[pos + 1].is_punct(Punct::Semi) {
            Ok((Node::Barrier, pos + 2))
        } else {
            Err(err_at(pos + 1, "expected `;`"))
        }
    } else if toks[pos].is_kw("dep") {
        parse_dep_node(toks, pos)
    } else if toks[pos].is_kw("loop") {
        parse_loop_node(toks, pos)
    } else if toks[pos].is_kw("yield") {
        match parse_name_list(toks, pos + 1) {
            Ok((vars, q)) => {
                if vars.len() == 0 {
                    return Err(err_at(q, "yield expects at least one variable"));
                }
                if !(q < toks.len() && toks[q].is_punct(Punct::Semi)) {
                    return Err(err_at(q, "expected `;`"));
                }
                Ok((Node::Yield { vars }, q + 1))
            },
            Err(e) => Err(e),
        }
    } else if toks[pos].is_kw("await") {
        match parse_name_list(toks, pos + 1) {
            Ok((vars, q)) => {
                if vars.len() == 0 {
                    return Err(err_at(q, "await expects at least one variable"));
                }
                if !(q < toks.len() && toks[q].is_punct(Punct::Semi)) {
                    return Err(err_at(q, "expected `;`"));
                }
                Ok((Node::Await { vars }, q + 1))
            },
            Err(e) => Err(e),
        }
    } else if toks[pos].is_kw("transfer") {
        parse_transfer_node(toks, pos)
    } else if toks[pos].is_kw("return") {
        if pos + 1 < toks.len() && toks[pos + 1].is_punct(Punct::Semi) {
            Ok((Node::Return, pos + 2))
        } else {
            Err(err_at(pos + 1, "expected `;`"))
        }
    } else {
        Err(err_at(pos, "unsupported node"))
    }
}

/// Parses a braced node list up to and including `}`.
pub fn parse_node_list(toks: &Vec<Token>, pos: usize) -> (r: Result<
    (Vec<Node>, usize),
    ParseError,
>)
    requires
        pos <= toks@.len(),
    ensures
        parses_to(r, spec_parse_node_list(toks.deep_view(), pos as int)),
        r matches Ok((_, q)) ==> pos < q <= toks@.len(),
    decreases toks@.len() - pos, 2int,
{
    let ghost t = toks.deep_view();
    let mut items: Vec<Node> = Vec::new();
    let mut cur = pos;
    loop
        invariant
            pos <= cur <= toks@.len(),
            t == toks.deep_view(),
            spec_parse_node_list(t, pos as int) == prepend_list(
                items.deep_view(),
                spec_parse_node_list(t, cur as int),
            ),
        decreases toks@.len() - cur,
    {
        if cur >= toks.len() {
            return Err(err_at(cur, "expected `}`"));
        }
        if toks[cur].is_punct(Punct::CloseBrace) {
            proof {
                assert(items.deep_view() + Seq::<SpecNode>::empty() =~= items.deep_view());
            }
            return Ok((items, cur + 1));
        }
        let ghost prev = cur as int;
        let ghost old_items = items.deep_view();
        match parse_node(toks, cur) {
            Ok((n, q)) => {
                cur = q;
                let ghost n_dv = n.deep_view();
                items.push(n);
                proof {
                    assert(items.deep_view() =~= old_items + seq![n_dv]);
                    let rest = spec_parse_node_list(t, cur as int);
                    assert(spec_parse_node_list(t, prev) == prepend_one(n_dv, rest));
                    assert(prepend_list(old_items, prepend_one(n_dv, rest)) =~= prepend_list(
                        items.deep_view(),
                        rest,
                    ));
                }
            },
            Err(e) => {
                return Err(e);
            },
        }
    }
}

} // verus!
