//! Dimension expressions rendered as the strings the instruction stream
//! carries: an atom is its own text, a product is `left*right`.
use vstd::prelude::*;
use vstd::string::StringExecFns;

use crate::ast::{Dim, DimAtom, SpecDim, SpecDimAtom};

verus! {

/// The text of one dimension atom.
pub open spec fn spec_dim_atom_text(a: SpecDimAtom) -> Seq<char> {
    match a {
        SpecDimAtom::Ident(s) => s,
        SpecDimAtom::Lit(s) => s,
    }
}

/// The text of one dimension expression.
pub open spec fn spec_dim_text(d: SpecDim) -> Seq<char> {
    match d {
        SpecDim::Ident(s) => s,
        SpecDim::Lit(s) => s,
        SpecDim::Mul { left, right } => spec_dim_atom_text(left) + "*"@ + spec_dim_atom_text(
            right,
        ),
    }
}

/// The texts of a whole dimension list, in order.
pub open spec fn spec_dims_text(s: Seq<SpecDim>) -> Seq<Seq<char>> {
    Seq::new(s.len(), |i: int| spec_dim_text(s[i]))
}

/// Renders one dimension atom.
pub fn dim_atom_string(a: &DimAtom) -> (r: String)
    ensures
        r@ == spec_dim_atom_text(a.deep_view()),
{
    match a {
        DimAtom::Ident(s) => s.clone(),
        DimAtom::Lit(s) => s.clone(),
    }
}

/// Renders one dimension expression.
pub fn dim_string(d: &Dim) -> (r: String)
    ensures
        r@ == spec_dim_text(d.deep_view()),
{
    match d {
        Dim::Ident(s) => s.clone(),
        Dim::Lit(s) => s.clone(),
        Dim::Mul { left, right } => {
            let mut out = dim_atom_string(left);
            out.append("*");
            let rs = dim_atom_string(right);
            out.append(rs.as_str());
            out
        },
    }
}

/// Renders a whole dimension list.
pub fn dims_expr(dims: &Vec<Dim>) -> (r: Vec<String>)
    ensures
        r.deep_view() == spec_dims_text(dims.deep_view()),
{
    let mut out: Vec<String> = Vec::new();
    let n = dims.len();
    let mut i: usize = 0;
    while i < n
        invariant
            0 <= i <= n,
            n == dims@.len(),
            out.deep_view() =~= spec_dims_text(dims.deep_view()).subrange(0, i as int),
        decreases n - i,
    {
        let ghost old_out = out.deep_view();
        let s = dim_string(&dims[i]);
        let ghost s_view = s@;
        out.push(s);
        proof {
            assert(dims.deep_view()[i as int] == dims@[i as int].deep_view());
            assert(s_view == spec_dims_text(dims.deep_view())[i as int]);
            assert(out.deep_view() =~= old_out.push(s_view));
            assert(out.deep_view() =~= spec_dims_text(dims.deep_view()).subrange(0, i + 1));
        }
        i = i + 1;
    }
    proof {
        assert(spec_dims_text(dims.deep_view()).subrange(
            0,
            dims.deep_view().len() as int,
        ) =~= spec_dims_text(dims.deep_view()));
    }
    out
}

} // verus!
