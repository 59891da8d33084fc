//! The top of the grammar: variable declarations, memory sections, blocks,
//! and the whole program.
use vstd::prelude::*;

use crate::ast::{BlockSection, GraphDsl, MemoryKind, MemorySection, Section, SpecBlockSection, SpecGraphDsl, SpecIdent, SpecMemorySection, SpecSection, SpecVarDecl, VarDecl};
use crate::attributes::{parse_attrs, spec_parse_attrs};
use crate::attributes::{parse_ident_list as parse_prefix_list, spec_parse_ident_list};
use crate::error::{builds_to, err_at, parses_to, prepend_list, prepend_one, Built, Parsed, ParseError};
use crate::parsers::dims::{parse_dims, spec_parse_dims};
use crate::parsers::node::{parse_node_list, spec_parse_node_list};
use crate::token::{at_punct, Punct, SpecToken, Token};

verus! {

/// The memory kind a section keyword names, if any.
pub open spec fn spec_memory_kind(s: Seq<char>) -> Option<MemoryKind> {
    if s == "dynamic"@ {
        Some(MemoryKind::Dynamic)
    } else if s == "volatile"@ {
        Some(MemoryKind::Volatile)
    } else if s == "constant"@ {
        Some(MemoryKind::Constant)
    } else if s == "persistent"@ {
        Some(MemoryKind::Persistent)
    } else {
        None
    }
}

/// What parsing the tail of a declaration yields, from the `:` at `p`
/// onward, given the name and prefix indices already read.
pub open spec fn spec_parse_var_decl_tail(
    t: Seq<SpecToken>,
    p: int,
    name: Seq<char>,
    table_indices: Seq<Seq<char>>,
) -> Parsed<SpecVarDecl> {
    if !at_punct(t, p, Punct::Colon) {
        Parsed::Fail("expected `:`"@, p)
    } else if !(p + 1 < t.len() && t[p + 1] is Ident) {
        Parsed::Fail("expected identifier"@, p + 1)
    } else {
        match spec_parse_dims(t, p + 2) {
            Parsed::Found(dims, q) => match spec_parse_attrs(t, q) {
                Parsed::Found(a, q2) => if at_punct(t, q2, Punct::Semi) {
                    Parsed::Found(
                        SpecVarDecl {
                            name,
                            dtype: SpecIdent { text: t[p + 1]->Ident_0, pos: p + 1 },
                            dims,
                            init: a.init,
                            ref_name: a.ref_name,
                            pattern: a.pattern,
                            table_indices,
                            table: a.table,
                            auto_dim: a.auto_dim,
                            fixed: a.fixed,
                        },
                        q2 + 1,
                    )
                } else {
                    Parsed::Fail("expected `;`"@, q2)
                },
                Parsed::Fail(m, q2) => Parsed::Fail(m, q2),
            },
            Parsed::Fail(m, q) => Parsed::Fail(m, q),
        }
    }
}

/// What parsing one variable declaration at `pos` yields: a name, an
/// optional non-empty parenthesized prefix-index list, `:`, a dtype, an
/// optional dimension list, attributes, and `;`.
pub open spec fn spec_parse_var_decl(t: Seq<SpecToken>, pos: int) -> Parsed<SpecVarDecl> {
    if !(pos < t.len() && t[pos] is Ident) {
        Parsed::Fail("expected identifier"@, pos)
    } else {
        let name = t[pos]->Ident_0;
        if at_punct(t, pos + 1, Punct::OpenParen) {
            if at_punct(t, pos + 2, Punct::CloseParen) {
                Parsed::Fail("prefix table must declare at least one index"@, pos + 2)
            } else {
                match spec_parse_ident_list(t, pos + 2) {
                    Parsed::Found(l, q) => spec_parse_var_decl_tail(t, q, name, l),
                    Parsed::Fail(m, q) => Parsed::Fail(m, q),
                }
            }
        } else {
            spec_parse_var_decl_tail(t, pos + 1, name, Seq::empty())
        }
    }
}

/// What parsing the declarations of a memory section yields, from `pos` up
/// to and including the closing brace.
pub open spec fn spec_parse_var_decl_list(t: Seq<SpecToken>, pos: int) -> Parsed<Seq<SpecVarDecl>>
    decreases t.len() - pos,
{
    if pos < 0 || pos >= t.len() {
        Parsed::Fail("expected `}`"@, pos)
    } else if at_punct(t, pos, Punct::CloseBrace) {
        Parsed::Found(Seq::<SpecVarDecl>::empty(), pos + 1)
    } else {
        match spec_parse_var_decl(t, pos) {
            Parsed::Found(v, q) => if pos < q <= t.len() {
                prepend_one(v, spec_parse_var_decl_list(t, q))
            } else {
                // A sub-parse always advances; this arm only keeps the recursion well-founded.
                Parsed::Fail(Seq::empty(), pos)
            },
            Parsed::Fail(m, q) => Parsed::Fail(m, q),
        }
    }
}

/// What parsing a memory section at `pos` yields; `pos` is at the kind
/// keyword, which the caller has already recognized.
pub open spec fn spec_parse_memory_section(t: Seq<SpecToken>, pos: int, kind: MemoryKind) -> Parsed<
    SpecMemorySection,
> {
    if !at_punct(t, pos + 1, Punct::OpenBrace) {
        Parsed::Fail("expected curly braces"@, pos + 1)
    } else {
        match spec_parse_var_decl_list(t, pos + 2) {
            Parsed::Found(vars, q) => Parsed::Found(SpecMemorySection { kind, vars }, q),
            Parsed::Fail(m, q) => Parsed::Fail(m, q),
        }
    }
}

/// What parsing a block section at `pos` yields; `pos` is at `block`.
pub open spec fn spec_parse_block_section(t: Seq<SpecToken>, pos: int) -> Parsed<SpecBlockSection> {
    if !(pos + 1 < t.len() && t[pos + 1] is Ident) {
        Parsed::Fail("expected identifier"@, pos + 1)
    } else if !at_punct(t, pos + 2, Punct::OpenBrace) {
        Parsed::Fail("expected curly braces"@, pos + 2)
    } else {
        match spec_parse_node_list(t, pos + 3) {
            Parsed::Found(nodes, q) => Parsed::Found(
                SpecBlockSection { name: t[pos + 1]->Ident_0, nodes },
                q,
            ),
            Parsed::Fail(m, q) => Parsed::Fail(m, q),
        }
    }
}

/// What parsing the sections from `pos` to the end of input yields.
pub open spec fn spec_parse_section_list(t: Seq<SpecToken>, pos: int) -> Parsed<Seq<SpecSection>>
    decreases t.len() - pos,
{
    if pos < 0 || pos >= t.len() {
        Parsed::Found(Seq::<SpecSection>::empty(), pos)
    } else {
        match t[pos] {
            SpecToken::Ident(s) => match spec_memory_kind(s) {
                Some(kind) => match spec_parse_memory_section(t, pos, kind) {
                    Parsed::Found(m, q) => if pos < q <= t.len() {
                        prepend_one(SpecSection::Memory(m), spec_parse_section_list(t, q))
                    } else {
                        // A sub-parse always advances; this arm only keeps the recursion well-founded.
                        Parsed::Fail(Seq::empty(), pos)
                    },
                    Parsed::Fail(msg, q) => Parsed::Fail(msg, q),
                },
                None => if s == "block"@ {
                    match spec_parse_block_section(t, pos) {
                        Parsed::Found(b, q) => if pos < q <= t.len() {
                            prepend_one(SpecSection::Block(b), spec_parse_section_list(t, q))
                        } else {
                            // A sub-parse always advances; this arm only keeps the recursion well-founded.
                            Parsed::Fail(Seq::empty(), pos)
                        },
                        Parsed::Fail(msg, q) => Parsed::Fail(msg, q),
                    }
                } else {
                    Parsed::Fail("expected memory section or block"@, pos)
                },
            },
            _ => Parsed::Fail("expected memory section or block"@, pos),
        }
    }
}

/// What parsing a whole program yields: its sections, in source order,
/// consuming the entire input.
pub open spec fn spec_parse_graph(t: Seq<SpecToken>) -> Built<SpecGraphDsl> {
    match spec_parse_section_list(t, 0) {
        Parsed::Found(l, _q) => Built::Done(SpecGraphDsl { sections: l }),
        Parsed::Fail(m, q) => Built::Fail(m, q),
    }
}

/// Parses one variable declaration.
pub fn parse_var_decl(toks: &Vec<Token>, pos: usize) -> (r: Result<(VarDecl, usize), ParseError>)
    requires
        pos <= toks@.len(),
    ensures
        parses_to(r, spec_parse_var_decl(toks.deep_view(), pos as int)),
        r matches Ok((_, q)) ==> pos < q <= toks@.len(),
{
    let n = toks.len();
    if pos >= n {
        return Err(err_at(pos, "expected identifier"));
    }
    let name: String = match &toks[pos] {
        Token::Ident(s) => s.clone(),
        _ => {
            return Err(err_at(pos, "expected identifier"));
        },
    };
    let table_indices: Vec<String>;
    let p: usize;
    if pos + 1 < n && toks[pos + 1].is_punct(Punct::OpenParen) {
        if pos + 2 < n && toks[pos + 2].is_punct(Punct::CloseParen) {
            return Err(err_at(pos + 2, "prefix table must declare at least one index"));
        }
        match parse_prefix_list(toks, pos + 2) {
            Ok((l, q)) => {
                table_indices = l;
                p = q;
            },
            Err(e) => {
                return Err(e);
            },
        }
    } else {
        table_indices = Vec::new();
        p = pos + 1;
        proof {
            assert(table_indices.deep_view() =~= Seq::<Seq<char>>::empty());
        }
    }
    if !(p < n && toks[p].is_punct(Punct::Colon)) {
        return Err(err_at(p, "expected `:`"));
    }
    if p + 1 >= n {
        return Err(err_at(p + 1, "expected identifier"));
    }
    let dtype_text: String = match &toks[p + 1] {
        Token::Ident(s) => s.clone(),
        _ => {
            return Err(err_at(p + 1, "expected identifier"));
        },
    };
    let (dims, q) = match parse_dims(toks, p + 2) {
        Ok(v) => v,
        Err(e) => {
            return Err(e);
        },
    };
    let (attrs, q2) = match parse_attrs(toks, q) {
        Ok(v) => v,
        Err(e) => {
            return Err(e);
        },
    };
    if !(q2 < n && toks[q2].is_punct(Punct::Semi)) {
        return Err(err_at(q2, "expected `;`"));
    }
    let decl = VarDecl {
        name,
        dtype: crate::ast::Ident { text: dtype_text, pos: p + 1 },
        dims,
        init: attrs.init,
        ref_name: attrs.ref_name,
        pattern: attrs.pattern,
        table_indices,
        table: attrs.table,
        auto_dim: attrs.auto_dim,
        fixed: attrs.fixed,
    };
    proof {
        assert(spec_parse_var_decl(toks.deep_view(), pos as int) =~= Parsed::Found(
            decl.deep_view(),
            (q2 + 1) as int,
        ));
    }
    Ok((decl, q2 + 1))
}

/// Parses the declarations of a memory section up to and including `}`.
fn parse_var_decl_list(toks: &Vec<Token>, pos: usize) -> (r: Result<
    (Vec<VarDecl>, usize),
    ParseError,
>)
    requires
        pos <= toks@.len(),
    ensures
        parses_to(r, spec_parse_var_decl_list(toks.deep_view(), pos as int)),
        r matches Ok((_, q)) ==> pos < q <= toks@.len(),
{
    let ghost t = toks.deep_view();
    let mut items: Vec<VarDecl> = Vec::new();
    let mut cur = pos;
    loop
        invariant
            pos <= cur <= toks@.len(),
            t == toks.deep_view(),
            spec_parse_var_decl_list(t, pos as int) == prepend_list(
                items.deep_view(),
                spec_parse_var_decl_list(t, cur as int),
            ),
        decreases toks@.len() - cur,
    {
        if cur >= toks.len() {
            return Err(err_at(cur, "expected `}`"));
        }
        if toks[cur].is_punct(Punct::CloseBrace) {
            proof {
                assert(items.deep_view() + Seq::<SpecVarDecl>::empty() =~= items.deep_view());
            }
            return Ok((items, cur + 1));
        }
        let ghost prev = cur as int;
        let ghost old_items = items.deep_view();
        match parse_var_decl(toks, cur) {
            Ok((v, q)) => {
                cur = q;
                let ghost v_dv = v.deep_view();
                items.push(v);
                proof {
                    assert(items.deep_view() =~= old_items + seq![v_dv]);
                    let rest = spec_parse_var_decl_list(t, cur as int);
                    assert(spec_parse_var_decl_list(t, prev) == prepend_one(v_dv, rest));
                    assert(prepend_list(old_items, prepend_one(v_dv, rest)) =~= prepend_list(
                        items.deep_view(),
                        rest,
                    ));
                }
            },
            Err(e) => {
                return Err(e);
            },
        }
    }
}

/// Parses a memory section whose kind keyword stands at `pos`.
pub fn parse_memory_section(toks: &Vec<Token>, pos: usize, kind: MemoryKind) -> (r: Result<
    (MemorySection, usize),
    ParseError,
>)
    requires
        pos < toks@.len(),
    ensures
        parses_to(r, spec_parse_memory_section(toks.deep_view(), pos as int, kind)),
        r matches Ok((_, q)) ==> pos < q <= toks@.len(),
{
    let n = toks.len();
    if !(pos + 1 < n && toks[pos + 1].is_punct(Punct::OpenBrace)) {
        return Err(err_at(pos + 1, "expected curly braces"));
    }
    match parse_var_decl_list(toks, pos + 2) {
        Ok((vars, q)) => {
            let section = MemorySection { kind, vars };
            proof {
                assert(spec_parse_memory_section(toks.deep_view(), pos as int, kind)
                    =~= Parsed::Found(section.deep_view(), q as int));
            }
            Ok((section, q))
        },
        Err(e) => Err(e),
    }
}

/// Parses a block section whose `block` keyword stands at `pos`.
pub fn parse_block_section(toks: &Vec<Token>, pos: usize) -> (r: Result<
    (BlockSection, usize),
    ParseError,
>)
    requires
        pos < toks@.len(),
    ensures
        parses_to(r, spec_parse_block_section(toks.deep_view(), pos as int)),
        r matches Ok((_, q)) ==> pos < q <= toks@.len(),
{
    let n = toks.len();
    if pos + 1 >= n {
        return Err(err_at(pos + 1, "expected identifier"));
    }
    let name: String = match &toks[pos + 1] {
        Token::Ident(s) => s.clone(),
        _ => {
            return Err(err_at(pos + 1, "expected identifier"));
        },
    };
    if !(pos + 2 < n && toks[pos + 2].is_punct(Punct::OpenBrace)) {
        return Err(err_at(pos + 2, "expected curly braces"));
    }
    match parse_node_list(toks, pos + 3) {
        Ok((nodes, q)) => {
            let section = BlockSection { name, nodes };
            proof {
                crate::ast::lemma_vec_nodes_dv(section.nodes);
                assert(spec_parse_block_section(toks.deep_view(), pos as int) =~= Parsed::Found(
                    section.deep_view(),
                    q as int,
                ));
            }
            Ok((section, q))
        },
        Err(e) => Err(e),
    }
}

/// Parses a whole program: memory sections and blocks until the end of
/// the input.
pub fn parse_graph(toks: &Vec<Token>) -> (r: Result<GraphDsl, ParseError>)
    ensures
        builds_to(r, spec_parse_graph(toks.deep_view())),
{
    let ghost t = toks.deep_view();
    let mut sections: Vec<Section> = Vec::new();
    let mut cur: usize = 0;
    loop
        invariant
            cur <= toks@.len(),
            t == toks.deep_view(),
            spec_parse_section_list(t, 0) == prepend_list(
                sections.deep_view(),
                spec_parse_section_list(t, cur as int),
            ),
        decreases toks@.len() - cur,
    {
        if cur >= toks.len() {
            let g = GraphDsl { sections };
            proof {
                assert(g.deep_view().sections + Seq::<SpecSection>::empty()
                    =~= g.deep_view().sections);
                assert(spec_parse_graph(t) =~= Built::Done(g.deep_view()));
            }
            return Ok(g);
        }
        let kind: Option<MemoryKind> = if toks[cur].is_kw("dynamic") {
            Some(MemoryKind::Dynamic)
        } else if toks[cur].is_kw("volatile") {
            Some(MemoryKind::Volatile)
        } else if toks[cur].is_kw("constant") {
            Some(MemoryKind::Constant)
        } else if toks[cur].is_kw("persistent") {
            Some(MemoryKind::Persistent)
        } else {
            None
        };
        let ghost prev = cur as int;
        let ghost old_items = sections.deep_view();
        match kind {
            Some(k) => {
                match parse_memory_section(toks, cur, k) {
                    Ok((m, q)) => {
                        cur = q;
                        let entry = Section::Memory(m);
                        let ghost e_dv = entry.deep_view();
                        sections.push(entry);
                        proof {
                            assert(sections.deep_view() =~= old_items + seq![e_dv]);
                            let rest = spec_parse_section_list(t, cur as int);
                            assert(spec_parse_section_list(t, prev) == prepend_one(e_dv, rest));
                            assert(prepend_list(old_items, prepend_one(e_dv, rest))
                                =~= prepend_list(sections.deep_view(), rest));
                        }
                    },
                    Err(e) => {
                        return Err(e);
                    },
                }
            },
            None => {
                if toks[cur].is_kw("block") {
                    match parse_block_section(toks, cur) {
                        Ok((b, q)) => {
                            cur = q;
                            let entry = Section::Block(b);
                            let ghost e_dv = entry.deep_view();
                            sections.push(entry);
                            proof {
                                assert(sections.deep_view() =~= old_items + seq![e_dv]);
                                let rest = spec_parse_section_list(t, cur as int);
                                assert(spec_parse_section_list(t, prev) == prepend_one(
                                    e_dv,
                                    rest,
                                ));
                                assert(prepend_list(old_items, prepend_one(e_dv, rest))
                                    =~= prepend_list(sections.deep_view(), rest));
                            }
                        },
                        Err(e) => {
                            return Err(e);
                        },
                    }
                } else {
                    return Err(err_at(cur, "expected memory section or block"));
                }
            },
        }
    }
}

} // verus!
