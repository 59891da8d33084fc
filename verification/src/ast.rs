//! The abstract syntax tree of the DSL, with its mathematical model.
//!
//! Every executable type has a ghost mirror (the `Spec*` types) reached
//! through `deep_view`: strings become character sequences, vectors become
//! sequences, and token positions become integers. Contracts throughout the
//! library are stated over these mirrors.
use vstd::prelude::*;

verus! {

/// The lifetime/mutability class of a memory section.
#[derive(Clone, Copy, PartialEq, Eq, Structural, Debug)]
pub enum MemoryKind {
    Dynamic,
    Volatile,
    Constant,
    Persistent,
}

impl DeepView for MemoryKind {
    type V = MemoryKind;

    open spec fn deep_view(&self) -> MemoryKind {
        *self
    }
}

/// An identifier together with the token position it was read from.
///
/// The position is kept only where a later validation step may need to
/// blame the identifier (dtypes, operation names, setting names).
#[derive(Clone, Debug)]
pub struct Ident {
    pub text: String,
    pub pos: usize,
}

#[verifier::ext_equal]
pub struct SpecIdent {
    pub text: Seq<char>,
    pub pos: int,
}

impl DeepView for Ident {
    type V = SpecIdent;

    open spec fn deep_view(&self) -> SpecIdent {
        SpecIdent { text: self.text@, pos: self.pos as int }
    }
}

/// One atom of a dimension expression: an identifier or an integer literal
/// kept as its digit text.
#[derive(Clone, Debug)]
pub enum DimAtom {
    Ident(String),
    Lit(String),
}

#[verifier::ext_equal]
pub enum SpecDimAtom {
    Ident(Seq<char>),
    Lit(Seq<char>),
}

impl DeepView for DimAtom {
    type V = SpecDimAtom;

    open spec fn deep_view(&self) -> SpecDimAtom {
        match self {
            DimAtom::Ident(s) => SpecDimAtom::Ident(s@),
            DimAtom::Lit(s) => SpecDimAtom::Lit(s@),
        }
    }
}

/// One dimension expression: an atom, or a product of exactly two atoms.
#[derive(Clone, Debug)]
pub enum Dim {
    Ident(String),
    Lit(String),
    Mul { left: DimAtom, right: DimAtom },
}

#[verifier::ext_equal]
pub enum SpecDim {
    Ident(Seq<char>),
    Lit(Seq<char>),
    Mul { left: SpecDimAtom, right: SpecDimAtom },
}

impl DeepView for Dim {
    type V = SpecDim;

    open spec fn deep_view(&self) -> SpecDim {
        match self {
            Dim::Ident(s) => SpecDim::Ident(s@),
            Dim::Lit(s) => SpecDim::Lit(s@),
            Dim::Mul { left, right } => SpecDim::Mul {
                left: left.deep_view(),
                right: right.deep_view(),
            },
        }
    }
}

/// An initial value exactly as written: a literal text plus an explicit
/// negation flag, or a bool literal.
#[derive(Clone, Debug)]
pub enum InitValue {
    Float { lit: String, negative: bool },
    Int { lit: String, negative: bool },
    Bool { value: bool },
}

#[verifier::ext_equal]
pub enum SpecInitValue {
    Float { lit: Seq<char>, negative: bool },
    Int { lit: Seq<char>, negative: bool },
    Bool { value: bool },
}

impl DeepView for InitValue {
    type V = SpecInitValue;

    open spec fn deep_view(&self) -> SpecInitValue {
        match self {
            InitValue::Float { lit, negative } => SpecInitValue::Float {
                lit: lit@,
                negative: *negative,
            },
            InitValue::Int { lit, negative } => SpecInitValue::Int {
                lit: lit@,
                negative: *negative,
            },
            InitValue::Bool { value } => SpecInitValue::Bool { value: *value },
        }
    }
}

/// One `name = value` entry of a `@fixed(...)` attribute. The value is the
/// digit text of the integer literal; `pos` is that literal's position.
#[derive(Clone, Debug)]
pub struct FixedDim {
    pub name: String,
    pub value: String,
    pub pos: usize,
}

#[verifier::ext_equal]
pub struct SpecFixedDim {
    pub name: Seq<char>,
    pub value: Seq<char>,
    pub pos: int,
}

impl DeepView for FixedDim {
    type V = SpecFixedDim;

    open spec fn deep_view(&self) -> SpecFixedDim {
        SpecFixedDim { name: self.name@, value: self.value@, pos: self.pos as int }
    }
}

/// A named, typed, shaped storage slot with optional initial value and
/// storage metadata.
#[derive(Clone, Debug)]
pub struct VarDecl {
    pub name: String,
    pub dtype: Ident,
    pub dims: Vec<Dim>,
    pub init: Option<InitValue>,
    pub ref_name: Option<String>,
    pub pattern: Option<String>,
    pub table_indices: Vec<String>,
    pub table: bool,
    pub auto_dim: Vec<String>,
    pub fixed: Vec<FixedDim>,
}

#[verifier::ext_equal]
pub struct SpecVarDecl {
    pub name: Seq<char>,
    pub dtype: SpecIdent,
    pub dims: Seq<SpecDim>,
    pub init: Option<SpecInitValue>,
    pub ref_name: Option<Seq<char>>,
    pub pattern: Option<Seq<char>>,
    pub table_indices: Seq<Seq<char>>,
    pub table: bool,
    pub auto_dim: Seq<Seq<char>>,
    pub fixed: Seq<SpecFixedDim>,
}

impl DeepView for VarDecl {
    type V = SpecVarDecl;

    open spec fn deep_view(&self) -> SpecVarDecl {
        SpecVarDecl {
            name: self.name@,
            dtype: self.dtype.deep_view(),
            dims: self.dims.deep_view(),
            init: self.init.deep_view(),
            ref_name: self.ref_name.deep_view(),
            pattern: self.pattern.deep_view(),
            table_indices: self.table_indices.deep_view(),
            table: self.table,
            auto_dim: self.auto_dim.deep_view(),
            fixed: self.fixed.deep_view(),
        }
    }
}

/// One endpoint of a loop range: an identifier or an integer literal text.
#[derive(Clone, Debug)]
pub enum RangeValue {
    Ident(String),
    Lit(String),
}

#[verifier::ext_equal]
pub enum SpecRangeValue {
    Ident(Seq<char>),
    Lit(Seq<char>),
}

impl DeepView for RangeValue {
    type V = SpecRangeValue;

    open spec fn deep_view(&self) -> SpecRangeValue {
        match self {
            RangeValue::Ident(s) => SpecRangeValue::Ident(s@),
            RangeValue::Lit(s) => SpecRangeValue::Lit(s@),
        }
    }
}

/// One index of a variable reference: an identifier or an integer literal
/// text.
#[derive(Clone, Debug)]
pub enum IndexExpr {
    Ident(String),
    Lit(String),
}

#[verifier::ext_equal]
pub enum SpecIndexExpr {
    Ident(Seq<char>),
    Lit(Seq<char>),
}

impl DeepView for IndexExpr {
    type V = SpecIndexExpr;

    open spec fn deep_view(&self) -> SpecIndexExpr {
        match self {
            IndexExpr::Ident(s) => SpecIndexExpr::Ident(s@),
            IndexExpr::Lit(s) => SpecIndexExpr::Lit(s@),
        }
    }
}

/// An identifier with an optional non-empty bracketed index list.
#[derive(Clone, Debug)]
pub struct VarRef {
    pub name: String,
    pub indices: Vec<IndexExpr>,
}

#[verifier::ext_equal]
pub struct SpecVarRef {
    pub name: Seq<char>,
    pub indices: Seq<SpecIndexExpr>,
}

impl DeepView for VarRef {
    type V = SpecVarRef;

    open spec fn deep_view(&self) -> SpecVarRef {
        SpecVarRef { name: self.name@, indices: self.indices.deep_view() }
    }
}

/// One cache index value: an identifier, or a signed integer.
#[derive(Clone, Debug)]
pub enum CacheIndexValue {
    Ident(String),
    Lit(i64),
}

#[verifier::ext_equal]
pub enum SpecCacheIndexValue {
    Ident(Seq<char>),
    Lit(i64),
}

impl DeepView for CacheIndexValue {
    type V = SpecCacheIndexValue;

    open spec fn deep_view(&self) -> SpecCacheIndexValue {
        match self {
            CacheIndexValue::Ident(s) => SpecCacheIndexValue::Ident(s@),
            CacheIndexValue::Lit(v) => SpecCacheIndexValue::Lit(*v),
        }
    }
}

/// One cache index entry: a single value, or a slice with independently
/// optional bounds.
#[derive(Clone, Debug)]
pub enum CacheIndexExpr {
    Single(CacheIndexValue),
    Slice { start: Option<CacheIndexValue>, end: Option<CacheIndexValue> },
}

#[verifier::ext_equal]
pub enum SpecCacheIndexExpr {
    Single(SpecCacheIndexValue),
    Slice { start: Option<SpecCacheIndexValue>, end: Option<SpecCacheIndexValue> },
}

impl DeepView for CacheIndexExpr {
    type V = SpecCacheIndexExpr;

    open spec fn deep_view(&self) -> SpecCacheIndexExpr {
        match self {
            CacheIndexExpr::Single(v) => SpecCacheIndexExpr::Single(v.deep_view()),
            CacheIndexExpr::Slice { start, end } => SpecCacheIndexExpr::Slice {
                start: start.deep_view(),
                end: end.deep_view(),
            },
        }
    }
}

/// An addressed cache target: base name, optional bracketed index list, and
/// whether brackets were written.
#[derive(Clone, Debug)]
pub struct CacheAccess {
    pub name: String,
    pub indices: Vec<CacheIndexExpr>,
    pub bracketed: bool,
}

#[verifier::ext_equal]
pub struct SpecCacheAccess {
    pub name: Seq<char>,
    pub indices: Seq<SpecCacheIndexExpr>,
    pub bracketed: bool,
}

impl DeepView for CacheAccess {
    type V = SpecCacheAccess;

    open spec fn deep_view(&self) -> SpecCacheAccess {
        SpecCacheAccess {
            name: self.name@,
            indices: self.indices.deep_view(),
            bracketed: self.bracketed,
        }
    }
}

/// A float literal kept as written, with an explicit negation flag; the
/// `infinite` form stands for the identifier `inf`.
#[derive(Clone, Debug)]
pub struct FloatLit {
    pub text: String,
    pub negative: bool,
    pub infinite: bool,
}

#[verifier::ext_equal]
pub struct SpecFloatLit {
    pub text: Seq<char>,
    pub negative: bool,
    pub infinite: bool,
}

impl DeepView for FloatLit {
    type V = SpecFloatLit;

    open spec fn deep_view(&self) -> SpecFloatLit {
        SpecFloatLit { text: self.text@, negative: self.negative, infinite: self.infinite }
    }
}

/// The value of an operation setting.
#[derive(Clone, Debug)]
pub enum OpAttrValue {
    Float(FloatLit),
    Double(FloatLit),
    Int(i64),
    Bool(bool),
    Str(String),
    IntList(Vec<i64>),
    Var(Ident),
}

#[verifier::ext_equal]
pub enum SpecOpAttrValue {
    Float(SpecFloatLit),
    Double(SpecFloatLit),
    Int(i64),
    Bool(bool),
    Str(Seq<char>),
    IntList(Seq<i64>),
    Var(SpecIdent),
}

impl DeepView for OpAttrValue {
    type V = SpecOpAttrValue;

    open spec fn deep_view(&self) -> SpecOpAttrValue {
        match self {
            OpAttrValue::Float(f) => SpecOpAttrValue::Float(f.deep_view()),
            OpAttrValue::Double(f) => SpecOpAttrValue::Double(f.deep_view()),
            OpAttrValue::Int(v) => SpecOpAttrValue::Int(*v),
            OpAttrValue::Bool(b) => SpecOpAttrValue::Bool(*b),
            OpAttrValue::Str(s) => SpecOpAttrValue::Str(s@),
            OpAttrValue::IntList(v) => SpecOpAttrValue::IntList(v.deep_view()),
            OpAttrValue::Var(i) => SpecOpAttrValue::Var(i.deep_view()),
        }
    }
}

/// A named operation setting.
#[derive(Clone, Debug)]
pub struct OpSetting {
    pub name: Ident,
    pub value: OpAttrValue,
}

#[verifier::ext_equal]
pub struct SpecOpSetting {
    pub name: SpecIdent,
    pub value: SpecOpAttrValue,
}

impl DeepView for OpSetting {
    type V = SpecOpSetting;

    open spec fn deep_view(&self) -> SpecOpSetting {
        SpecOpSetting { name: self.name.deep_view(), value: self.value.deep_view() }
    }
}

/// One argument of an operation: a positional input or a named setting.
#[derive(Clone, Debug)]
pub enum OpArg {
    Input(VarRef),
    Setting(OpSetting),
}

#[verifier::ext_equal]
pub enum SpecOpArg {
    Input(SpecVarRef),
    Setting(SpecOpSetting),
}

impl DeepView for OpArg {
    type V = SpecOpArg;

    open spec fn deep_view(&self) -> SpecOpArg {
        match self {
            OpArg::Input(v) => SpecOpArg::Input(v.deep_view()),
            OpArg::Setting(s) => SpecOpArg::Setting(s.deep_view()),
        }
    }
}

/// One instruction inside a block. `Loop` is the only recursive kind: it
/// owns its ordered child nodes, forming a tree.
#[derive(Debug)]
pub enum Node {
    Assign { name: String, dtype: Ident, dims: Vec<Dim> },
    Op { name: Ident, inputs: Vec<VarRef>, settings: Vec<OpSetting>, output: VarRef },
    Branch { cond: Option<String>, then_block: String, else_block: Option<String> },
    Barrier,
    Dep { after: String, before: String },
    CacheRead { src: CacheAccess, dst: VarRef },
    CacheWrite { src: VarRef, dst: CacheAccess },
    CacheInc { target: String, amount: i64 },
    CacheDec { target: String, amount: i64 },
    CacheReset { target: CacheAccess },
    Transfer { src: VarRef, dst: VarRef },
    Loop { name: String, index: String, start: RangeValue, end: RangeValue, body: Vec<Node> },
    Yield { vars: Vec<String> },
    Await { vars: Vec<String> },
    Return,
}

#[verifier::ext_equal]
pub enum SpecNode {
    Assign { name: Seq<char>, dtype: SpecIdent, dims: Seq<SpecDim> },
    Op {
        name: SpecIdent,
        inputs: Seq<SpecVarRef>,
        settings: Seq<SpecOpSetting>,
        output: SpecVarRef,
    },
    Branch { cond: Option<Seq<char>>, then_block: Seq<char>, else_block: Option<Seq<char>> },
    Barrier,
    Dep { after: Seq<char>, before: Seq<char> },
    CacheRead { src: SpecCacheAccess, dst: SpecVarRef },
    CacheWrite { src: SpecVarRef, dst: SpecCacheAccess },
    CacheInc { target: Seq<char>, amount: i64 },
    CacheDec { target: Seq<char>, amount: i64 },
    CacheReset { target: SpecCacheAccess },
    Transfer { src: SpecVarRef, dst: SpecVarRef },
    Loop {
        name: Seq<char>,
        index: Seq<char>,
        start: SpecRangeValue,
        end: SpecRangeValue,
        body: Seq<SpecNode>,
    },
    Yield { vars: Seq<Seq<char>> },
    Await { vars: Seq<Seq<char>> },
    Return,
}

/// The ghost mirror of a node; recursion goes through the loop body.
pub open spec fn node_dv(n: Node) -> SpecNode
    decreases n,
{
    match n {
        Node::Assign { name, dtype, dims } => SpecNode::Assign {
            name: name@,
            dtype: dtype.deep_view(),
            dims: dims.deep_view(),
        },
        Node::Op { name, inputs, settings, output } => SpecNode::Op {
            name: name.deep_view(),
            inputs: inputs.deep_view(),
            settings: settings.deep_view(),
            output: output.deep_view(),
        },
        Node::Branch { cond, then_block, else_block } => SpecNode::Branch {
            cond: cond.deep_view(),
            then_block: then_block@,
            else_block: else_block.deep_view(),
        },
        Node::Barrier => SpecNode::Barrier,
        Node::Dep { after, before } => SpecNode::Dep { after: after@, before: before@ },
        Node::CacheRead { src, dst } => SpecNode::CacheRead {
            src: src.deep_view(),
            dst: dst.deep_view(),
        },
        Node::CacheWrite { src, dst } => SpecNode::CacheWrite {
            src: src.deep_view(),
            dst: dst.deep_view(),
        },
        Node::CacheInc { target, amount } => SpecNode::CacheInc { target: target@, amount },
        Node::CacheDec { target, amount } => SpecNode::CacheDec { target: target@, amount },
        Node::CacheReset { target } => SpecNode::CacheReset { target: target.deep_view() },
        Node::Transfer { src, dst } => SpecNode::Transfer {
            src: src.deep_view(),
            dst: dst.deep_view(),
        },
        Node::Loop { name, index, start, end, body } => SpecNode::Loop {
            name: name@,
            index: index@,
            start: start.deep_view(),
            end: end.deep_view(),
            body: nodes_dv(body@),
        },
        Node::Yield { vars } => SpecNode::Yield { vars: vars.deep_view() },
        Node::Await { vars } => SpecNode::Await { vars: vars.deep_view() },
        Node::Return => SpecNode::Return,
    }
}

/// The ghost mirror of a node sequence.
pub open spec fn nodes_dv(s: Seq<Node>) -> Seq<SpecNode>
    decreases s,
{
    if s.len() == 0 {
        Seq::<SpecNode>::empty()
    } else {
        nodes_dv(s.drop_last()).push(node_dv(s.last()))
    }
}

impl DeepView for Node {
    type V = SpecNode;

    open spec fn deep_view(&self) -> SpecNode {
        node_dv(*self)
    }
}

/// `nodes_dv` agrees with the element-wise mirror of a vector of nodes.
pub proof fn lemma_nodes_dv_len(s: Seq<Node>)
    ensures
        nodes_dv(s).len() == s.len(),
        forall|i: int| 0 <= i < s.len() ==> nodes_dv(s)[i] == node_dv(s[i]),
    decreases s,
{
    if s.len() > 0 {
        lemma_nodes_dv_len(s.drop_last());
    }
}

/// A vector of nodes deep-views to the same sequence `nodes_dv` gives.
pub proof fn lemma_vec_nodes_dv(v: Vec<Node>)
    ensures
        v.deep_view() == nodes_dv(v@),
{
    lemma_nodes_dv_len(v@);
    assert(v.deep_view() =~= nodes_dv(v@));
}

/// A named block of nodes.
#[derive(Debug)]
pub struct BlockSection {
    pub name: String,
    pub nodes: Vec<Node>,
}

#[verifier::ext_equal]
pub struct SpecBlockSection {
    pub name: Seq<char>,
    pub nodes: Seq<SpecNode>,
}

impl DeepView for BlockSection {
    type V = SpecBlockSection;

    open spec fn deep_view(&self) -> SpecBlockSection {
        SpecBlockSection { name: self.name@, nodes: self.nodes.deep_view() }
    }
}

/// A memory section: a kind tag plus its ordered declarations.
#[derive(Clone, Debug)]
pub struct MemorySection {
    pub kind: MemoryKind,
    pub vars: Vec<VarDecl>,
}

#[verifier::ext_equal]
pub struct SpecMemorySection {
    pub kind: MemoryKind,
    pub vars: Seq<SpecVarDecl>,
}

impl DeepView for MemorySection {
    type V = SpecMemorySection;

    open spec fn deep_view(&self) -> SpecMemorySection {
        SpecMemorySection { kind: self.kind, vars: self.vars.deep_view() }
    }
}

/// One top-level section.
#[derive(Debug)]
pub enum Section {
    Memory(MemorySection),
    Block(BlockSection),
}

#[verifier::ext_equal]
pub enum SpecSection {
    Memory(SpecMemorySection),
    Block(SpecBlockSection),
}

impl DeepView for Section {
    type V = SpecSection;

    open spec fn deep_view(&self) -> SpecSection {
        match self {
            Section::Memory(m) => SpecSection::Memory(m.deep_view()),
            Section::Block(b) => SpecSection::Block(b.deep_view()),
        }
    }
}

/// A whole parsed program: its ordered sections.
#[derive(Debug)]
pub struct GraphDsl {
    pub sections: Vec<Section>,
}

#[verifier::ext_equal]
pub struct SpecGraphDsl {
    pub sections: Seq<SpecSection>,
}

impl DeepView for GraphDsl {
    type V = SpecGraphDsl;

    open spec fn deep_view(&self) -> SpecGraphDsl {
        SpecGraphDsl { sections: self.sections.deep_view() }
    }
}

} // verus!
