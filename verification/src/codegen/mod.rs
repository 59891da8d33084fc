//! The graph assembler: walks the program tree in source order and emits
//! the ordered graph-construction instructions, one variable registration
//! per declaration, one block registration per block, and one instruction
//! per node.
use vstd::prelude::*;

pub mod dims;
pub mod memory;
pub mod node;

use crate::ast::{BlockSection, FixedDim, GraphDsl, MemoryKind, MemorySection, SpecGraphDsl, SpecSection, SpecVarDecl};
use crate::codegen::dims::{dims_expr, spec_dims_text};
use crate::codegen::memory::{init_expr, match_dtype, spec_match_dtype, spec_resolve_init, DType, ScalarValue, SpecScalarValue};
use crate::codegen::node::{node_kind_expr, spec_node_instr, NodeInstr, SpecNodeInstr};
use crate::error::{builds_to, err_at, prepend_built, Built, ParseError};
use crate::num::{digits_val, is_digits, parse_usize_digits};
use crate::parsers::sections::{parse_graph, spec_parse_graph};
use crate::token::Token;

verus! {

/// One variable-registration instruction, carrying every resolved field
/// of a declaration.
#[derive(Clone, Debug)]
pub struct VarInstr {
    pub kind: MemoryKind,
    pub name: String,
    pub dtype: DType,
    pub dims: Vec<String>,
    pub init: Option<ScalarValue>,
    pub ref_name: Option<String>,
    pub table_indices: Vec<String>,
    pub pattern: Option<String>,
    pub table: bool,
    pub auto_dim: Vec<String>,
    pub fixed: Vec<(String, usize)>,
}

#[verifier::ext_equal]
pub struct SpecVarInstr {
    pub kind: MemoryKind,
    pub name: Seq<char>,
    pub dtype: DType,
    pub dims: Seq<Seq<char>>,
    pub init: Option<SpecScalarValue>,
    pub ref_name: Option<Seq<char>>,
    pub table_indices: Seq<Seq<char>>,
    pub pattern: Option<Seq<char>>,
    pub table: bool,
    pub auto_dim: Seq<Seq<char>>,
    pub fixed: Seq<(Seq<char>, usize)>,
}

impl DeepView for VarInstr {
    type V = SpecVarInstr;

    open spec fn deep_view(&self) -> SpecVarInstr {
        SpecVarInstr {
            kind: self.kind,
            name: self.name@,
            dtype: self.dtype,
            dims: self.dims.deep_view(),
            init: self.init.deep_view(),
            ref_name: self.ref_name.deep_view(),
            table_indices: self.table_indices.deep_view(),
            pattern: self.pattern.deep_view(),
            table: self.table,
            auto_dim: self.auto_dim.deep_view(),
            fixed: self.fixed.deep_view(),
        }
    }
}

/// One instruction of the assembled graph-construction program.
#[derive(Debug)]
pub enum Instr {
    /// Register one variable with all its resolved fields.
    AddVar(VarInstr),
    /// Register a block by name.
    AddBlock(String),
    /// Append one node instruction to the named block.
    AddNode { block: String, node: NodeInstr },
}

#[verifier::ext_equal]
pub enum SpecInstr {
    AddVar(SpecVarInstr),
    AddBlock(Seq<char>),
    AddNode { block: Seq<char>, node: SpecNodeInstr },
}

impl DeepView for Instr {
    type V = SpecInstr;

    open spec fn deep_view(&self) -> SpecInstr {
        match self {
            Instr::AddVar(v) => SpecInstr::AddVar(v.deep_view()),
            Instr::AddBlock(s) => SpecInstr::AddBlock(s@),
            Instr::AddNode { block, node } => SpecInstr::AddNode {
                block: block@,
                node: node.deep_view(),
            },
        }
    }
}

/// What resolving the `@fixed` entries yields: each digit text must fit a
/// `usize`.
pub open spec fn spec_fixed_instrs(s: Seq<crate::ast::SpecFixedDim>) -> Built<
    Seq<(Seq<char>, usize)>,
>
    decreases s.len(),
{
    if s.len() == 0 {
        Built::Done(Seq::<(Seq<char>, usize)>::empty())
    } else if is_digits(s[0].value) && digits_val(s[0].value) <= usize::MAX {
        match spec_fixed_instrs(s.drop_first()) {
            Built::Done(l) => Built::Done(
                seq![(s[0].name, digits_val(s[0].value) as usize)] + l,
            ),
            Built::Fail(m, q) => Built::Fail(m, q),
        }
    } else {
        Built::Fail("number too large to fit in target type"@, s[0].pos)
    }
}

/// What resolving one declaration yields: the dtype resolved against the
/// closed table, the init value checked against its exact range, the
/// dimension expressions rendered, and the storage metadata carried over.
pub open spec fn spec_var_instr(kind: MemoryKind, v: SpecVarDecl) -> Built<SpecVarInstr> {
    match spec_match_dtype(v.dtype.text) {
        None => Built::Fail("unsupported dtype"@, v.dtype.pos),
        Some(d) => match spec_resolve_init(v.init, d, v.dtype.pos) {
            Built::Fail(m, q) => Built::Fail(m, q),
            Built::Done(init) => match spec_fixed_instrs(v.fixed) {
                Built::Fail(m, q) => Built::Fail(m, q),
                Built::Done(fixed) => Built::Done(
                    SpecVarInstr {
                        kind,
                        name: v.name,
                        dtype: d,
                        dims: spec_dims_text(v.dims),
                        init,
                        ref_name: v.ref_name,
                        table_indices: v.table_indices,
                        pattern: v.pattern,
                        table: v.table,
                        auto_dim: v.auto_dim,
                        fixed,
                    },
                ),
            },
        },
    }
}

/// What assembling the declarations of one memory section yields: one
/// variable-registration instruction per declaration, in order.
pub open spec fn spec_var_instrs(kind: MemoryKind, s: Seq<SpecVarDecl>) -> Built<Seq<SpecInstr>>
    decreases s.len(),
{
    if s.len() == 0 {
        Built::Done(Seq::<SpecInstr>::empty())
    } else {
        match spec_var_instr(kind, s[0]) {
            Built::Done(vi) => match spec_var_instrs(kind, s.drop_first()) {
                Built::Done(l) => Built::Done(seq![SpecInstr::AddVar(vi)] + l),
                Built::Fail(m, q) => Built::Fail(m, q),
            },
            Built::Fail(m, q) => Built::Fail(m, q),
        }
    }
}

/// What assembling the nodes of one block yields: one instruction per
/// node, appended to the named block.
pub open spec fn spec_block_nodes(name: Seq<char>, s: Seq<crate::ast::SpecNode>) -> Built<
    Seq<SpecInstr>,
>
    decreases s.len(),
{
    if s.len() == 0 {
        Built::Done(Seq::<SpecInstr>::empty())
    } else {
        match spec_node_instr(s[0]) {
            Built::Done(i) => match spec_block_nodes(name, s.drop_first()) {
                Built::Done(l) => Built::Done(
                    seq![SpecInstr::AddNode { block: name, node: i }] + l,
                ),
                Built::Fail(m, q) => Built::Fail(m, q),
            },
            Built::Fail(m, q) => Built::Fail(m, q),
        }
    }
}

/// What assembling one block section yields: its registration, then its
/// node instructions.
pub open spec fn spec_block_instrs(name: Seq<char>, s: Seq<crate::ast::SpecNode>) -> Built<
    Seq<SpecInstr>,
> {
    match spec_block_nodes(name, s) {
        Built::Done(l) => Built::Done(seq![SpecInstr::AddBlock(name)] + l),
        Built::Fail(m, q) => Built::Fail(m, q),
    }
}

/// What assembling one section yields.
pub open spec fn spec_section_instrs(sec: SpecSection) -> Built<Seq<SpecInstr>> {
    match sec {
        SpecSection::Memory(m) => spec_var_instrs(m.kind, m.vars),
        SpecSection::Block(b) => spec_block_instrs(b.name, b.nodes),
    }
}

/// What assembling a section list yields: the concatenation of each
/// section's instructions, in source order.
pub open spec fn spec_expand_sections(s: Seq<SpecSection>) -> Built<Seq<SpecInstr>>
    decreases s.len(),
{
    if s.len() == 0 {
        Built::Done(Seq::<SpecInstr>::empty())
    } else {
        match spec_section_instrs(s[0]) {
            Built::Done(l) => match spec_expand_sections(s.drop_first()) {
                Built::Done(r) => Built::Done(l + r),
                Built::Fail(m, q) => Built::Fail(m, q),
            },
            Built::Fail(m, q) => Built::Fail(m, q),
        }
    }
}

/// What assembling a whole program yields.
pub open spec fn spec_expand(g: SpecGraphDsl) -> Built<Seq<SpecInstr>> {
    spec_expand_sections(g.sections)
}

/// Copies an optional string.
fn clone_opt_string(v: &Option<String>) -> (r: Option<String>)
    ensures
        r.deep_view() == v.deep_view(),
{
    match v {
        Some(s) => Some(s.clone()),
        None => None,
    }
}

/// Resolves the `@fixed` entries of one declaration.
fn fixed_instrs(v: &Vec<FixedDim>) -> (r: Result<Vec<(String, usize)>, ParseError>)
    ensures
        builds_to(r, spec_fixed_instrs(v.deep_view())),
{
    let ghost s = v.deep_view();
    let n = v.len();
    let mut out: Vec<(String, usize)> = Vec::new();
    let mut i: usize = 0;
    proof {
        assert(s.skip(0) =~= s);
    }
    loop
        invariant
            0 <= i <= n,
            n == v@.len(),
            s == v.deep_view(),
            spec_fixed_instrs(s) == prepend_built(
                out.deep_view(),
                spec_fixed_instrs(s.skip(i as int)),
            ),
        decreases n - i,
    {
        if i >= n {
            proof {
                assert(s.skip(n as int) =~= Seq::<crate::ast::SpecFixedDim>::empty());
                assert(out.deep_view() + Seq::<(Seq<char>, usize)>::empty() =~= out.deep_view());
            }
            return Ok(out);
        }
        proof {
            assert(s[i as int] == v@[i as int].deep_view());
            assert(s.skip(i as int)[0] == s[i as int]);
            assert(s.skip(i as int).drop_first() =~= s.skip(i as int + 1));
        }
        let value = match parse_usize_digits(&v[i].value) {
            Some(x) => x,
            None => {
                return Err(err_at(v[i].pos, "number too large to fit in target type"));
            },
        };
        let ghost old_out = out.deep_view();
        out.push((v[i].name.clone(), value));
        proof {
            assert(out.deep_view() =~= old_out + seq![(s[i as int].name, value)]);
            let rest = spec_fixed_instrs(s.skip(i as int + 1));
            assert(prepend_built(old_out, prepend_built(seq![(s[i as int].name, value)], rest))
                =~= prepend_built(out.deep_view(), rest));
        }
        i = i + 1;
    }
}

/// Resolves one declaration into its registration instruction.
fn var_instr(kind: MemoryKind, v: &crate::ast::VarDecl) -> (r: Result<VarInstr, ParseError>)
    ensures
        builds_to(r, spec_var_instr(kind, v.deep_view())),
{
    let dtype = match match_dtype(&v.dtype) {
        Ok(d) => d,
        Err(e) => {
            return Err(e);
        },
    };
    let init = match init_expr(&v.init, dtype, v.dtype.pos) {
        Ok(x) => x,
        Err(e) => {
            return Err(e);
        },
    };
    let fixed = match fixed_instrs(&v.fixed) {
        Ok(x) => x,
        Err(e) => {
            return Err(e);
        },
    };
    let r = VarInstr {
        kind,
        name: v.name.clone(),
        dtype,
        dims: dims_expr(&v.dims),
        init,
        ref_name: clone_opt_string(&v.ref_name),
        table_indices: crate::codegen::node::clone_strings(&v.table_indices),
        pattern: clone_opt_string(&v.pattern),
        table: v.table,
        auto_dim: crate::codegen::node::clone_strings(&v.auto_dim),
        fixed,
    };
    proof {
        assert(spec_var_instr(kind, v.deep_view()) =~= Built::Done(r.deep_view()));
    }
    Ok(r)
}

/// Assembles the declarations of one memory section.
fn memory_instrs(m: &MemorySection) -> (r: Result<Vec<Instr>, ParseError>)
    ensures
        builds_to(r, spec_var_instrs(m.kind, m.vars.deep_view())),
{
    let ghost s = m.vars.deep_view();
    let n = m.vars.len();
    let mut out: Vec<Instr> = Vec::new();
    let mut i: usize = 0;
    proof {
        assert(s.skip(0) =~= s);
    }
    loop
        invariant
            0 <= i <= n,
            n == m.vars@.len(),
            s == m.vars.deep_view(),
            spec_var_instrs(m.kind, s) == prepend_built(
                out.deep_view(),
                spec_var_instrs(m.kind, s.skip(i as int)),
            ),
        decreases n - i,
    {
        if i >= n {
            proof {
                assert(s.skip(n as int) =~= Seq::<SpecVarDecl>::empty());
                assert(out.deep_view() + Seq::<SpecInstr>::empty() =~= out.deep_view());
            }
            return Ok(out);
        }
        proof {
            assert(s[i as int] == m.vars@[i as int].deep_view());
            assert(s.skip(i as int)[0] == s[i as int]);
            assert(s.skip(i as int).drop_first() =~= s.skip(i as int + 1));
        }
        match var_instr(m.kind, &m.vars[i]) {
            Ok(vi) => {
                let ghost old_out = out.deep_view();
                let entry = Instr::AddVar(vi);
                let ghost e_dv = entry.deep_view();
                out.push(entry);
                proof {
                    assert(out.deep_view() =~= old_out + seq![e_dv]);
                    let rest = spec_var_instrs(m.kind, s.skip(i as int + 1));
                    assert(prepend_built(old_out, prepend_built(seq![e_dv], rest))
                        =~= prepend_built(out.deep_view(), rest));
                }
                i = i + 1;
            },
            Err(e) => {
                return Err(e);
            },
        }
    }
}

/// Assembles one block section: its registration, then one instruction
/// per node.
fn block_instrs(b: &BlockSection) -> (r: Result<Vec<Instr>, ParseError>)
    ensures
        builds_to(r, spec_block_instrs(b.name@, b.nodes.deep_view())),
{
    let ghost s = b.nodes.deep_view();
    let n = b.nodes.len();
    let mut out: Vec<Instr> = Vec::new();
    out.push(Instr::AddBlock(b.name.clone()));
    let mut i: usize = 0;
    proof {
        assert(s.skip(0) =~= s);
        assert(out.deep_view() =~= seq![SpecInstr::AddBlock(b.name@)]);
    }
    loop
        invariant
            0 <= i <= n,
            n == b.nodes@.len(),
            s == b.nodes.deep_view(),
            spec_block_instrs(b.name@, s) == prepend_built(
                out.deep_view(),
                spec_block_nodes(b.name@, s.skip(i as int)),
            ),
        decreases n - i,
    {
        if i >= n {
            proof {
                assert(s.skip(n as int) =~= Seq::<crate::ast::SpecNode>::empty());
                assert(out.deep_view() + Seq::<SpecInstr>::empty() =~= out.deep_view());
            }
            return Ok(out);
        }
        proof {
            assert(s[i as int] == b.nodes@[i as int].deep_view());
            assert(s.skip(i as int)[0] == s[i as int]);
            assert(s.skip(i as int).drop_first() =~= s.skip(i as int + 1));
        }
        match node_kind_expr(&b.nodes[i]) {
            Ok(ni) => {
                let ghost old_out = out.deep_view();
                let entry = Instr::AddNode { block: b.name.clone(), node: ni };
                let ghost e_dv = entry.deep_view();
                out.push(entry);
                proof {
                    assert(out.deep_view() =~= old_out + seq![e_dv]);
                    let rest = spec_block_nodes(b.name@, s.skip(i as int + 1));
                    assert(prepend_built(old_out, prepend_built(seq![e_dv], rest))
                        =~= prepend_built(out.deep_view(), rest));
                }
                i = i + 1;
            },
            Err(e) => {
                return Err(e);
            },
        }
    }
}

/// Assembles a whole parsed program into its ordered instruction list,
/// walking sections, declarations and nodes in source order.
pub fn expand(g: &GraphDsl) -> (r: Result<Vec<Instr>, ParseError>)
    ensures
        builds_to(r, spec_expand(g.deep_view())),
{
    let ghost s = g.deep_view().sections;
    let n = g.sections.len();
    let mut out: Vec<Instr> = Vec::new();
    let mut i: usize = 0;
    proof {
        assert(s.skip(0) =~= s);
    }
    loop
        invariant
            0 <= i <= n,
            n == g.sections@.len(),
            s == g.sections.deep_view(),
            spec_expand_sections(s) == prepend_built(
                out.deep_view(),
                spec_expand_sections(s.skip(i as int)),
            ),
        decreases n - i,
    {
        if i >= n {
            proof {
                assert(s.skip(n as int) =~= Seq::<SpecSection>::empty());
                assert(out.deep_view() + Seq::<SpecInstr>::empty() =~= out.deep_view());
            }
            return Ok(out);
        }
        proof {
            assert(s[i as int] == g.sections@[i as int].deep_view());
            assert(s.skip(i as int)[0] == s[i as int]);
            assert(s.skip(i as int).drop_first() =~= s.skip(i as int + 1));
        }
        let section_result = match &g.sections[i] {
            crate::ast::Section::Memory(m) => memory_instrs(m),
            crate::ast::Section::Block(b) => {
                let r = block_instrs(b);
                proof {
                    crate::ast::lemma_vec_nodes_dv(b.nodes);
                }
                r
            },
        };
        match section_result {
            Ok(mut sec) => {
                let ghost old_out = out.deep_view();
                let ghost sec_dv = sec.deep_view();
                out.append(&mut sec);
                proof {
                    assert(out.deep_view() =~= old_out + sec_dv);
                    let rest = spec_expand_sections(s.skip(i as int + 1));
                    assert(prepend_built(old_out, prepend_built(sec_dv, rest)) =~= prepend_built(
                        out.deep_view(),
                        rest,
                    ));
                }
                i = i + 1;
            },
            Err(e) => {
                return Err(e);
            },
        }
    }
}

/// Parses and assembles a whole program: the single path from token
/// stream to graph-construction instructions, or one terminal diagnostic.
pub fn compile(toks: &Vec<Token>) -> (r: Result<Vec<Instr>, ParseError>)
    ensures
        (match spec_parse_graph(toks.deep_view()) {
            Built::Done(g) => builds_to(r, spec_expand(g)),
            Built::Fail(m, q) => r matches Err(e) && e.msg@ == m && e.pos == q,
        }),
{
    match parse_graph(toks) {
        Ok(g) => expand(&g),
        Err(e) => Err(e),
    }
}

} // verus!
