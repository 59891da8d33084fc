//! Node assembly: each parsed node becomes one instruction; a loop node
//! becomes a single instruction carrying its fully-built nested node list,
//! built bottom-up exactly as the parser nested it.
use vstd::prelude::*;
use vstd::string::StringExecFns;

use crate::ast::{CacheAccess, CacheIndexExpr, CacheIndexValue, IndexExpr, Node, RangeValue, SpecCacheAccess, SpecIndexExpr, SpecNode, SpecRangeValue, SpecVarRef, VarRef};
use crate::codegen::dims::{dims_expr, spec_dims_text};
use crate::codegen::memory::{match_dtype, spec_match_dtype, DType};
use crate::error::{builds_to, Built, ParseError};
use crate::validation::ops::{op_attrs_expr, spec_op_attrs, OpAttrs, SpecOpAttrs};

verus! {

/// One assembled instruction inside a block. `Loop` carries its nested
/// instruction list; every other kind is flat.
#[derive(Debug)]
pub enum NodeInstr {
    Assign { name: String, dtype: DType, dims: Vec<String> },
    Op { op: String, attrs: OpAttrs, inputs: Vec<String>, output: String },
    Branch { cond: Option<String>, then_block: String, else_block: Option<String> },
    Barrier,
    Dep { after: String, before: String },
    CacheRead { src: CacheAccess, dst: String },
    CacheWrite { src: String, dst: CacheAccess },
    CacheIncrement { target: String, amount: i64 },
    CacheDecrement { target: String, amount: i64 },
    CacheReset { target: CacheAccess },
    Transfer { src: String, dst: String },
    Loop { name: String, index: String, start: String, end: String, body: Vec<NodeInstr> },
    Yield { vars: Vec<String> },
    Await { vars: Vec<String> },
    Return,
}

#[verifier::ext_equal]
pub enum SpecNodeInstr {
    Assign { name: Seq<char>, dtype: DType, dims: Seq<Seq<char>> },
    Op { op: Seq<char>, attrs: SpecOpAttrs, inputs: Seq<Seq<char>>, output: Seq<char> },
    Branch { cond: Option<Seq<char>>, then_block: Seq<char>, else_block: Option<Seq<char>> },
    Barrier,
    Dep { after: Seq<char>, before: Seq<char> },
    CacheRead { src: SpecCacheAccess, dst: Seq<char> },
    CacheWrite { src: Seq<char>, dst: SpecCacheAccess },
    CacheIncrement { target: Seq<char>, amount: i64 },
    CacheDecrement { target: Seq<char>, amount: i64 },
    CacheReset { target: SpecCacheAccess },
    Transfer { src: Seq<char>, dst: Seq<char> },
    Loop {
        name: Seq<char>,
        index: Seq<char>,
        start: Seq<char>,
        end: Seq<char>,
        body: Seq<SpecNodeInstr>,
    },
    Yield { vars: Seq<Seq<char>> },
    Await { vars: Seq<Seq<char>> },
    Return,
}

/// The ghost mirror of one instruction; recursion goes through the loop
/// body.
pub open spec fn node_instr_dv(n: NodeInstr) -> SpecNodeInstr
    decreases n,
{
    match n {
        NodeInstr::Assign { name, dtype, dims } => SpecNodeInstr::Assign {
            name: name@,
            dtype,
            dims: dims.deep_view(),
        },
        NodeInstr::Op { op, attrs, inputs, output } => SpecNodeInstr::Op {
            op: op@,
            attrs: attrs.deep_view(),
            inputs: inputs.deep_view(),
            output: output@,
        },
        NodeInstr::Branch { cond, then_block, else_block } => SpecNodeInstr::Branch {
            cond: cond.deep_view(),
            then_block: then_block@,
            else_block: else_block.deep_view(),
        },
        NodeInstr::Barrier => SpecNodeInstr::Barrier,
        NodeInstr::Dep { after, before } => SpecNodeInstr::Dep {
            after: after@,
            before: before@,
        },
        NodeInstr::CacheRead { src, dst } => SpecNodeInstr::CacheRead {
            src: src.deep_view(),
            dst: dst@,
        },
        NodeInstr::CacheWrite { src, dst } => SpecNodeInstr::CacheWrite {
            src: src@,
            dst: dst.deep_view(),
        },
        NodeInstr::CacheIncrement { target, amount } => SpecNodeInstr::CacheIncrement {
            target: target@,
            amount,
        },
        NodeInstr::CacheDecrement { target, amount } => SpecNodeInstr::CacheDecrement {
            target: target@,
            amount,
        },
        NodeInstr::CacheReset { target } => SpecNodeInstr::CacheReset {
            target: target.deep_view(),
        },
        NodeInstr::Transfer { src, dst } => SpecNodeInstr::Transfer { src: src@, dst: dst@ },
        NodeInstr::Loop { name, index, start, end, body } => SpecNodeInstr::Loop {
            name: name@,
            index: index@,
            start: start@,
            end: end@,
            body: node_instrs_dv(body@),
        },
        NodeInstr::Yield { vars } => SpecNodeInstr::Yield { vars: vars.deep_view() },
        NodeInstr::Await { vars } => SpecNodeInstr::Await { vars: vars.deep_view() },
        NodeInstr::Return => SpecNodeInstr::Return,
    }
}

/// The ghost mirror of an instruction sequence.
pub open spec fn node_instrs_dv(s: Seq<NodeInstr>) -> Seq<SpecNodeInstr>
    decreases s,
{
    if s.len() == 0 {
        Seq::<SpecNodeInstr>::empty()
    } else {
        node_instrs_dv(s.drop_last()).push(node_instr_dv(s.last()))
    }
}

impl DeepView for NodeInstr {
    type V = SpecNodeInstr;

    open spec fn deep_view(&self) -> SpecNodeInstr {
        node_instr_dv(*self)
    }
}

/// `node_instrs_dv` agrees with the element-wise mirror.
pub proof fn lemma_node_instrs_dv_len(s: Seq<NodeInstr>)
    ensures
        node_instrs_dv(s).len() == s.len(),
        forall|i: int| 0 <= i < s.len() ==> node_instrs_dv(s)[i] == node_instr_dv(s[i]),
    decreases s,
{
    if s.len() > 0 {
        lemma_node_instrs_dv_len(s.drop_last());
    }
}

/// A vector of instructions deep-views to the same sequence
/// `node_instrs_dv` gives.
pub proof fn lemma_vec_node_instrs_dv(v: Vec<NodeInstr>)
    ensures
        v.deep_view() == node_instrs_dv(v@),
{
    lemma_node_instrs_dv_len(v@);
    assert(v.deep_view() =~= node_instrs_dv(v@));
}

/// The text of a loop-range endpoint.
pub open spec fn spec_range_text(rv: SpecRangeValue) -> Seq<char> {
    match rv {
        SpecRangeValue::Ident(s) => s,
        SpecRangeValue::Lit(s) => s,
    }
}

/// The text of one variable-reference index.
pub open spec fn spec_index_text(i: SpecIndexExpr) -> Seq<char> {
    match i {
        SpecIndexExpr::Ident(s) => s,
        SpecIndexExpr::Lit(s) => s,
    }
}

/// The first `n` index texts joined with commas.
pub open spec fn spec_join_prefix(s: Seq<SpecIndexExpr>, n: int) -> Seq<char>
    decreases n,
{
    if n <= 0 {
        Seq::<char>::empty()
    } else if n == 1 {
        spec_index_text(s[0])
    } else {
        spec_join_prefix(s, n - 1) + ","@ + spec_index_text(s[n - 1])
    }
}

/// The rendered text of a variable reference: the bare name, or
/// `name[i1,i2,...]` when indices are present.
pub open spec fn spec_var_ref_text(v: SpecVarRef) -> Seq<char> {
    if v.indices.len() == 0 {
        v.name
    } else {
        v.name + "["@ + spec_join_prefix(v.indices, v.indices.len() as int) + "]"@
    }
}

/// The rendered texts of a list of variable references.
pub open spec fn spec_var_refs_text(s: Seq<SpecVarRef>) -> Seq<Seq<char>> {
    Seq::new(s.len(), |i: int| spec_var_ref_text(s[i]))
}

/// Renders a loop-range endpoint.
pub fn range_value_string(rv: &RangeValue) -> (r: String)
    ensures
        r@ == spec_range_text(rv.deep_view()),
{
    match rv {
        RangeValue::Ident(s) => s.clone(),
        RangeValue::Lit(s) => s.clone(),
    }
}

/// Renders a variable reference.
pub fn var_ref_string(v: &VarRef) -> (r: String)
    ensures
        r@ == spec_var_ref_text(v.deep_view()),
{
    let mut out = v.name.clone();
    let n = v.indices.len();
    if n == 0 {
        return out;
    }
    out.append("[");
    let mut i: usize = 0;
    while i < n
        invariant
            0 < n == v.indices@.len(),
            0 <= i <= n,
            out@ == v.deep_view().name + "["@ + spec_join_prefix(v.deep_view().indices, i as int),
        decreases n - i,
    {
        if i > 0 {
            out.append(",");
        }
        proof {
            assert(v.deep_view().indices[i as int] == v.indices@[i as int].deep_view());
        }
        let item: String = match &v.indices[i] {
            IndexExpr::Ident(s) => s.clone(),
            IndexExpr::Lit(s) => s.clone(),
        };
        out.append(item.as_str());
        i = i + 1;
    }
    out.append("]");
    out
}

/// Renders every input reference of an operation.
pub fn var_refs_strings(v: &Vec<VarRef>) -> (r: Vec<String>)
    ensures
        r.deep_view() == spec_var_refs_text(v.deep_view()),
{
    let mut out: Vec<String> = Vec::new();
    let n = v.len();
    let mut i: usize = 0;
    while i < n
        invariant
            0 <= i <= n,
            n == v@.len(),
            out.deep_view() =~= spec_var_refs_text(v.deep_view()).subrange(0, i as int),
        decreases n - i,
    {
        let ghost old_out = out.deep_view();
        let s = var_ref_string(&v[i]);
        let ghost s_view = s@;
        out.push(s);
        proof {
            assert(v.deep_view()[i as int] == v@[i as int].deep_view());
            assert(s_view == spec_var_refs_text(v.deep_view())[i as int]);
            assert(out.deep_view() =~= old_out.push(s_view));
            assert(out.deep_view() =~= spec_var_refs_text(v.deep_view()).subrange(0, i + 1));
        }
        i = i + 1;
    }
    proof {
        assert(spec_var_refs_text(v.deep_view()).subrange(0, v.deep_view().len() as int)
            =~= spec_var_refs_text(v.deep_view()));
    }
    out
}

/// Copies one variable-reference index.
fn clone_index_expr(i: &IndexExpr) -> (r: IndexExpr)
    ensures
        r.deep_view() == i.deep_view(),
{
    match i {
        IndexExpr::Ident(s) => IndexExpr::Ident(s.clone()),
        IndexExpr::Lit(s) => IndexExpr::Lit(s.clone()),
    }
}

/// Copies a variable reference.
fn clone_var_ref(v: &VarRef) -> (r: VarRef)
    ensures
        r.deep_view() == v.deep_view(),
{
    let mut indices: Vec<IndexExpr> = Vec::new();
    let n = v.indices.len();
    let mut i: usize = 0;
    while i < n
        invariant
            0 <= i <= n,
            n == v.indices@.len(),
            indices.deep_view() =~= v.indices.deep_view().subrange(0, i as int),
        decreases n - i,
    {
        let ghost old_dv = indices.deep_view();
        let e = clone_index_expr(&v.indices[i]);
        let ghost e_dv = e.deep_view();
        indices.push(e);
        proof {
            assert(v.indices.deep_view()[i as int] == v.indices@[i as int].deep_view());
            assert(indices.deep_view() =~= old_dv.push(e_dv));
            assert(indices.deep_view() =~= v.indices.deep_view().subrange(0, i + 1));
        }
        i = i + 1;
    }
    let r = VarRef { name: v.name.clone(), indices };
    proof {
        assert(v.indices.deep_view().subrange(0, v.indices.deep_view().len() as int)
            =~= v.indices.deep_view());
        assert(r.deep_view() =~= v.deep_view());
    }
    r
}

/// Copies one cache index value.
fn clone_cache_index_value(v: &CacheIndexValue) -> (r: CacheIndexValue)
    ensures
        r.deep_view() == v.deep_view(),
{
    match v {
        CacheIndexValue::Ident(s) => CacheIndexValue::Ident(s.clone()),
        CacheIndexValue::Lit(x) => CacheIndexValue::Lit(*x),
    }
}

/// Copies one cache index entry.
fn clone_cache_index_expr(e: &CacheIndexExpr) -> (r: CacheIndexExpr)
    ensures
        r.deep_view() == e.deep_view(),
{
    match e {
        CacheIndexExpr::Single(v) => CacheIndexExpr::Single(clone_cache_index_value(v)),
        CacheIndexExpr::Slice { start, end } => {
            let s2 = match start {
                Some(v) => Some(clone_cache_index_value(v)),
                None => None,
            };
            let e2 = match end {
                Some(v) => Some(clone_cache_index_value(v)),
                None => None,
            };
            CacheIndexExpr::Slice { start: s2, end: e2 }
        },
    }
}

/// Copies a cache access.
fn clone_cache_access(a: &CacheAccess) -> (r: CacheAccess)
    ensures
        r.deep_view() == a.deep_view(),
{
    let mut indices: Vec<CacheIndexExpr> = Vec::new();
    let n = a.indices.len();
    let mut i: usize = 0;
    while i < n
        invariant
            0 <= i <= n,
            n == a.indices@.len(),
            indices.deep_view() =~= a.indices.deep_view().subrange(0, i as int),
        decreases n - i,
    {
        let ghost old_dv = indices.deep_view();
        let e = clone_cache_index_expr(&a.indices[i]);
        let ghost e_dv = e.deep_view();
        indices.push(e);
        proof {
            assert(a.indices.deep_view()[i as int] == a.indices@[i as int].deep_view());
            assert(indices.deep_view() =~= old_dv.push(e_dv));
            assert(indices.deep_view() =~= a.indices.deep_view().subrange(0, i + 1));
        }
        i = i + 1;
    }
    let r = CacheAccess { name: a.name.clone(), indices, bracketed: a.bracketed };
    proof {
        assert(a.indices.deep_view().subrange(0, a.indices.deep_view().len() as int)
            =~= a.indices.deep_view());
        assert(r.deep_view() =~= a.deep_view());
    }
    r
}

/// Copies a list of identifiers.
pub(crate) fn clone_strings(v: &Vec<String>) -> (r: Vec<String>)
    ensures
        r.deep_view() == v.deep_view(),
{
    let mut out: Vec<String> = Vec::new();
    let n = v.len();
    let mut i: usize = 0;
    while i < n
        invariant
            0 <= i <= n,
            n == v@.len(),
            out.deep_view() =~= v.deep_view().subrange(0, i as int),
        decreases n - i,
    {
        let ghost old_dv = out.deep_view();
        let s = v[i].clone();
        let ghost s_view = s@;
        out.push(s);
        proof {
            assert(v.deep_view()[i as int] == v@[i as int]@);
            assert(out.deep_view() =~= old_dv.push(s_view));
            assert(out.deep_view() =~= v.deep_view().subrange(0, i + 1));
        }
        i = i + 1;
    }
    proof {
        assert(v.deep_view().subrange(0, v.deep_view().len() as int) =~= v.deep_view());
    }
    out
}

/// What assembling one node yields: dtypes are resolved, operation
/// settings validated, references rendered, and a loop body assembled
/// recursively.
pub open spec fn spec_node_instr(n: SpecNode) -> Built<SpecNodeInstr>
    decreases n,
{
    match n {
        SpecNode::Assign { name, dtype, dims } => match spec_match_dtype(dtype.text) {
            Some(d) => Built::Done(
                SpecNodeInstr::Assign { name, dtype: d, dims: spec_dims_text(dims) },
            ),
            None => Built::Fail("unsupported dtype"@, dtype.pos),
        },
        SpecNode::Op { name, inputs, settings, output } => match spec_op_attrs(settings) {
            Built::Done(attrs) => Built::Done(
                SpecNodeInstr::Op {
                    op: name.text,
                    attrs,
                    inputs: spec_var_refs_text(inputs),
                    output: spec_var_ref_text(output),
                },
            ),
            Built::Fail(m, q) => Built::Fail(m, q),
        },
        SpecNode::Branch { cond, then_block, else_block } => Built::Done(
            SpecNodeInstr::Branch { cond, then_block, else_block },
        ),
        SpecNode::Barrier => Built::Done(SpecNodeInstr::Barrier),
        SpecNode::Dep { after, before } => Built::Done(SpecNodeInstr::Dep { after, before }),
        SpecNode::CacheRead { src, dst } => Built::Done(
            SpecNodeInstr::CacheRead { src, dst: spec_var_ref_text(dst) },
        ),
        SpecNode::CacheWrite { src, dst } => Built::Done(
            SpecNodeInstr::CacheWrite { src: spec_var_ref_text(src), dst },
        ),
        SpecNode::CacheInc { target, amount } => Built::Done(
            SpecNodeInstr::CacheIncrement { target, amount },
        ),
        SpecNode::CacheDec { target, amount } => Built::Done(
            SpecNodeInstr::CacheDecrement { target, amount },
        ),
        SpecNode::CacheReset { target } => Built::Done(SpecNodeInstr::CacheReset { target }),
        SpecNode::Transfer { src, dst } => Built::Done(
            SpecNodeInstr::Transfer {
                src: spec_var_ref_text(src),
                dst: spec_var_ref_text(dst),
            },
        ),
        SpecNode::Loop { name, index, start, end, body } => match spec_node_instr_list(body) {
            Built::Done(l) => Built::Done(
                SpecNodeInstr::Loop {
                    name,
                    index,
                    start: spec_range_text(start),
                    end: spec_range_text(end),
                    body: l,
                },
            ),
            Built::Fail(m, q) => Built::Fail(m, q),
        },
        SpecNode::Yield { vars } => Built::Done(SpecNodeInstr::Yield { vars }),
        SpecNode::Await { vars } => Built::Done(SpecNodeInstr::Await { vars }),
        SpecNode::Return => Built::Done(SpecNodeInstr::Return),
    }
}

/// What assembling a node list yields, in order.
pub open spec fn spec_node_instr_list(s: Seq<SpecNode>) -> Built<Seq<SpecNodeInstr>>
    decreases s,
{
    if s.len() == 0 {
        Built::Done(Seq::<SpecNodeInstr>::empty())
    } else {
        match spec_node_instr(s[0]) {
            Built::Done(i) => match spec_node_instr_list(s.drop_first()) {
                Built::Done(l) => Built::Done(seq![i] + l),
                Built::Fail(m, q) => Built::Fail(m, q),
            },
            Built::Fail(m, q) => Built::Fail(m, q),
        }
    }
}

/// Assembles one node into its instruction.
pub fn node_kind_expr(n: &Node) -> (r: Result<NodeInstr, ParseError>)
    ensures
        builds_to(r, spec_node_instr(n.deep_view())),
    decreases *n,
{
    match n {
        Node::Assign { name, dtype, dims } => {
            match match_dtype(dtype) {
                Ok(d) => Ok(
                    NodeInstr::Assign { name: name.clone(), dtype: d, dims: dims_expr(dims) },
                ),
                Err(e) => Err(e),
            }
        },
        Node::Op { name, inputs, settings, output } => {
            match op_attrs_expr(settings) {
                Ok(attrs) => Ok(
                    NodeInstr::Op {
                        op: name.text.clone(),
                        attrs,
                        inputs: var_refs_strings(inputs),
                        output: var_ref_string(output),
                    },
                ),
                Err(e) => Err(e),
            }
        },
        Node::Branch { cond, then_block, else_block } => {
            let c = match cond {
                Some(s) => Some(s.clone()),
                None => None,
            };
            let e = match else_block {
                Some(s) => Some(s.clone()),
                None => None,
            };
            Ok(NodeInstr::Branch { cond: c, then_block: then_block.clone(), else_block: e })
        },
        Node::Barrier => Ok(NodeInstr::Barrier),
        Node::Dep { after, before } => Ok(
            NodeInstr::Dep { after: after.clone(), before: before.clone() },
        ),
        Node::CacheRead { src, dst } => Ok(
            NodeInstr::CacheRead { src: clone_cache_access(src), dst: var_ref_string(dst) },
        ),
        Node::CacheWrite { src, dst } => Ok(
            NodeInstr::CacheWrite { src: var_ref_string(src), dst: clone_cache_access(dst) },
        ),
        Node::CacheInc { target, amount } => Ok(
            NodeInstr::CacheIncrement { target: target.clone(), amount: *amount },
        ),
        Node::CacheDec { target, amount } => Ok(
            NodeInstr::CacheDecrement { target: target.clone(), amount: *amount },
        ),
        Node::CacheReset { target } => Ok(
            NodeInstr::CacheReset { target: clone_cache_access(target) },
        ),
        Node::Transfer { src, dst } => Ok(
            NodeInstr::Transfer { src: var_ref_string(src), dst: var_ref_string(dst) },
        ),
        Node::Loop { name, index, start, end, body } => {
            match loop_body_expr(body, 0) {
                Ok(instrs) => {
                    let r = NodeInstr::Loop {
                        name: name.clone(),
                        index: index.clone(),
                        start: range_value_string(start),
                        end: range_value_string(end),
                        body: instrs,
                    };
                    proof {
                        crate::ast::lemma_vec_nodes_dv(*body);
                        lemma_vec_node_instrs_dv(r->Loop_body);
                        assert(body.deep_view().skip(0) =~= body.deep_view());
                        assert(spec_node_instr(n.deep_view()) =~= Built::Done(r.deep_view()));
                    }
                    Ok(r)
                },
                Err(e) => {
                    proof {
                        crate::ast::lemma_vec_nodes_dv(*body);
                        assert(body.deep_view().skip(0) =~= body.deep_view());
                    }
                    Err(e)
                },
            }
        },
        Node::Yield { vars } => Ok(NodeInstr::Yield { vars: clone_strings(vars) }),
        Node::Await { vars } => Ok(NodeInstr::Await { vars: clone_strings(vars) }),
        Node::Return => Ok(NodeInstr::Return),
    }
}

/// Assembles the nodes of a loop body from index `i` onward.
pub fn loop_body_expr(body: &Vec<Node>, i: usize) -> (r: Result<Vec<NodeInstr>, ParseError>)
    requires
        i <= body@.len(),
    ensures
        builds_to(r, spec_node_instr_list(body.deep_view().skip(i as int))),
    decreases *body, body@.len() - i,
{
    if i >= body.len() {
        let out: Vec<NodeInstr> = Vec::new();
        proof {
            assert(body.deep_view().skip(i as int) =~= Seq::<SpecNode>::empty());
            assert(out.deep_view() =~= Seq::<SpecNodeInstr>::empty());
        }
        return Ok(out);
    }
    proof {
        assert(body.deep_view()[i as int] == body@[i as int].deep_view());
        assert(body.deep_view().skip(i as int)[0] == body.deep_view()[i as int]);
    }
    match node_kind_expr(&body[i]) {
        Ok(first) => {
            match loop_body_expr(body, i + 1) {
                Ok(mut rest) => {
                    let ghost first_dv = first.deep_view();
                    let ghost rest_dv = rest.deep_view();
                    rest.insert(0, first);
                    proof {
                        assert(rest.deep_view() =~= seq![first_dv] + rest_dv);
                        assert(body.deep_view().skip(i as int).drop_first()
                            =~= body.deep_view().skip(i as int + 1));
                    }
                    Ok(rest)
                },
                Err(e) => {
                    proof {
                        assert(body.deep_view().skip(i as int).drop_first()
                            =~= body.deep_view().skip(i as int + 1));
                    }
                    Err(e)
                },
            }
        },
        Err(e) => {
            proof {
                assert(body.deep_view().skip(i as int).drop_first() =~= body.deep_view().skip(
                    i as int + 1,
                ));
            }
            Err(e)
        },
    }
}

} // verus!
