//! General properties of the library, stated and proved once for all
//! inputs: serialization round-trips, the exactness of the per-dtype init
//! bounds, and the structural fidelity of loop assembly.
use vstd::prelude::*;

use crate::ast::{SpecDim, SpecDimAtom, SpecInitValue, SpecNode};
use crate::attributes::init::spec_parse_init_value;
use crate::codegen::memory::{dtype_is_int_family, int_dtype_max, int_dtype_min, int_init_ok, spec_int_scalar, spec_range_msg, spec_resolve_init, DType, SpecScalarValue};
use crate::num::{digits_val, is_digits};
use crate::codegen::node::{spec_node_instr, spec_node_instr_list, SpecNodeInstr};
use crate::error::{Built, Parsed};
use crate::parsers::dims::{spec_parse_dim_list, spec_parse_dims};
use crate::token::{Punct, SpecToken};

verus! {

/// The token a dimension atom serializes to.
pub open spec fn spec_dim_atom_tokens(a: SpecDimAtom) -> SpecToken {
    match a {
        SpecDimAtom::Ident(s) => SpecToken::Ident(s),
        SpecDimAtom::Lit(s) => SpecToken::Int(s),
    }
}

/// The tokens one dimension expression serializes to.
pub open spec fn spec_dim_tokens(d: SpecDim) -> Seq<SpecToken> {
    match d {
        SpecDim::Ident(s) => seq![SpecToken::Ident(s)],
        SpecDim::Lit(s) => seq![SpecToken::Int(s)],
        SpecDim::Mul { left, right } => seq![
            spec_dim_atom_tokens(left),
            SpecToken::Punct(Punct::Star),
            spec_dim_atom_tokens(right),
        ],
    }
}

/// The tokens of a dimension list's entries, each followed by a comma.
pub open spec fn spec_dims_tokens(s: Seq<SpecDim>) -> Seq<SpecToken>
    decreases s.len(),
{
    if s.len() == 0 {
        Seq::<SpecToken>::empty()
    } else {
        spec_dim_tokens(s[0]) + seq![SpecToken::Punct(Punct::Comma)] + spec_dims_tokens(
            s.drop_first(),
        )
    }
}

/// The tokens an init value serializes to: a parenthesized literal with
/// its explicit sign.
pub open spec fn spec_init_value_tokens(v: SpecInitValue) -> Seq<SpecToken> {
    match v {
        SpecInitValue::Float { lit, negative } => if negative {
            seq![
                SpecToken::Punct(Punct::OpenParen),
                SpecToken::Punct(Punct::Minus),
                SpecToken::Float(lit),
                SpecToken::Punct(Punct::CloseParen),
            ]
        } else {
            seq![
                SpecToken::Punct(Punct::OpenParen),
                SpecToken::Float(lit),
                SpecToken::Punct(Punct::CloseParen),
            ]
        },
        SpecInitValue::Int { lit, negative } => if negative {
            seq![
                SpecToken::Punct(Punct::OpenParen),
                SpecToken::Punct(Punct::Minus),
                SpecToken::Int(lit),
                SpecToken::Punct(Punct::CloseParen),
            ]
        } else {
            seq![
                SpecToken::Punct(Punct::OpenParen),
                SpecToken::Int(lit),
                SpecToken::Punct(Punct::CloseParen),
            ]
        },
        SpecInitValue::Bool { value } => seq![
            SpecToken::Punct(Punct::OpenParen),
            SpecToken::Ident(if value { "true"@ } else { "false"@ }),
            SpecToken::Punct(Punct::CloseParen),
        ],
    }
}

/// Parsing the entries of a serialized dimension list gives back exactly
/// the list that was serialized: the literal texts, identifiers and
/// products survive unchanged.
proof fn lemma_dim_list_round_trip(t: Seq<SpecToken>, pos: int, dims: Seq<SpecDim>)
    requires
        0 <= pos,
        pos + spec_dims_tokens(dims).len() + 1 <= t.len(),
        t.subrange(pos, pos + spec_dims_tokens(dims).len() + 1) == spec_dims_tokens(dims)
            + seq![SpecToken::Punct(Punct::CloseBracket)],
    ensures
        spec_parse_dim_list(t, pos) == Parsed::<Seq<SpecDim>>::Found(
            dims,
            pos + spec_dims_tokens(dims).len() + 1,
        ),
    decreases dims.len(),
{
    let body = spec_dims_tokens(dims) + seq![SpecToken::Punct(Punct::CloseBracket)];
    assert(forall|i: int| 0 <= i < body.len() ==> t[pos + i] == #[trigger] body[i]) by {
        assert(forall|i: int|
            0 <= i < body.len() ==> t.subrange(pos, pos + body.len() as int)[i]
                == #[trigger] body[i]);
    }
    if dims.len() == 0 {
        assert(t[pos] == SpecToken::Punct(Punct::CloseBracket));
        assert(spec_parse_dim_list(t, pos) == Parsed::<Seq<SpecDim>>::Found(
            Seq::<SpecDim>::empty(),
            pos + 1,
        ));
        assert(dims =~= Seq::<SpecDim>::empty());
    } else {
        let d0 = dims[0];
        let dtoks = spec_dim_tokens(d0);
        let k = dtoks.len() as int;
        let rest = dims.drop_first();
        assert(body[0] == dtoks[0]);
        let pos2 = pos + k + 1;
        assert(spec_dims_tokens(dims) == dtoks + seq![SpecToken::Punct(Punct::Comma)]
            + spec_dims_tokens(rest));
        assert forall|i: int| 0 <= i < k implies t[pos + i] == dtoks[i] by {
            assert(t[pos + i] == body[i]);
            assert(body[i] == spec_dims_tokens(dims)[i]);
            assert(spec_dims_tokens(dims)[i] == (dtoks + seq![
                SpecToken::Punct(Punct::Comma),
            ])[i]);
            assert((dtoks + seq![SpecToken::Punct(Punct::Comma)])[i] == dtoks[i]);
        }
        assert(t[pos + k] == SpecToken::Punct(Punct::Comma)) by {
            assert(t[pos + k] == body[k]);
            assert(body[k] == spec_dims_tokens(dims)[k]);
            assert(spec_dims_tokens(dims)[k] == (dtoks + seq![
                SpecToken::Punct(Punct::Comma),
            ])[k]);
        }
        assert(t.subrange(pos2, pos2 + spec_dims_tokens(rest).len() + 1) =~= spec_dims_tokens(rest)
            + seq![SpecToken::Punct(Punct::CloseBracket)]) by {
            assert(forall|i: int|
                0 <= i < spec_dims_tokens(rest).len() + 1 ==> t[pos2 + i] == #[trigger] (
                spec_dims_tokens(rest) + seq![SpecToken::Punct(Punct::CloseBracket)])[i]) by {
                assert(forall|i: int|
                    0 <= i < spec_dims_tokens(rest).len() + 1 ==> body[k + 1 + i] == #[trigger] (
                    spec_dims_tokens(rest) + seq![SpecToken::Punct(Punct::CloseBracket)])[i]);
            }
        }
        lemma_dim_list_round_trip(t, pos2, rest);
        match d0 {
            SpecDim::Ident(_s) => {
                assert(!(t[pos + 1] is Punct && t[pos + 1]->Punct_0 == Punct::Star));
                assert(spec_parse_dim_list(t, pos) == Parsed::<Seq<SpecDim>>::Found(
                    seq![d0] + rest,
                    pos2 + spec_dims_tokens(rest).len() + 1,
                ));
            },
            SpecDim::Lit(_s) => {
                assert(spec_parse_dim_list(t, pos) == Parsed::<Seq<SpecDim>>::Found(
                    seq![d0] + rest,
                    pos2 + spec_dims_tokens(rest).len() + 1,
                ));
            },
            SpecDim::Mul { left, right } => {
                assert(t[pos] == spec_dim_atom_tokens(left));
                assert(t[pos + 1] == SpecToken::Punct(Punct::Star));
                assert(t[pos + 2] == spec_dim_atom_tokens(right));
                assert(spec_parse_dim_list(t, pos) == Parsed::<Seq<SpecDim>>::Found(
                    seq![d0] + rest,
                    pos2 + spec_dims_tokens(rest).len() + 1,
                ));
            },
        }
        assert(seq![d0] + rest =~= dims);
    }
}

/// Round-trip law for dimension expressions: serializing any dimension
/// list back to tokens (bracketed, comma-separated) and parsing it again
/// yields exactly the same list, for every list and whatever follows it
/// in the token stream.
pub proof fn lemma_dims_round_trip(t: Seq<SpecToken>, pos: int, dims: Seq<SpecDim>)
    requires
        0 <= pos,
        pos + 2 + spec_dims_tokens(dims).len() <= t.len(),
        t[pos] == SpecToken::Punct(Punct::OpenBracket),
        t.subrange(pos + 1, pos + 2 + spec_dims_tokens(dims).len()) == spec_dims_tokens(dims)
            + seq![SpecToken::Punct(Punct::CloseBracket)],
    ensures
        spec_parse_dims(t, pos) == Parsed::<Seq<SpecDim>>::Found(
            dims,
            pos + 2 + spec_dims_tokens(dims).len(),
        ),
{
    lemma_dim_list_round_trip(t, pos + 1, dims);
}

/// Round-trip law for init values: serializing any init value (literal
/// text, explicit sign, parentheses) and parsing it again yields exactly
/// the same value, wherever it stands in the token stream.
pub proof fn lemma_init_value_round_trip(t: Seq<SpecToken>, pos: int, v: SpecInitValue)
    requires
        0 <= pos,
        pos + spec_init_value_tokens(v).len() <= t.len(),
        t.subrange(pos, pos + spec_init_value_tokens(v).len()) == spec_init_value_tokens(v),
    ensures
        spec_parse_init_value(t, pos) == Parsed::<SpecInitValue>::Found(
            v,
            pos + spec_init_value_tokens(v).len(),
        ),
{
    let toks = spec_init_value_tokens(v);
    assert(forall|i: int|
        0 <= i < toks.len() ==> t[pos + i] == #[trigger] toks[i]) by {
        assert(forall|i: int|
            0 <= i < toks.len() ==> t.subrange(pos, pos + toks.len() as int)[i]
                == #[trigger] toks[i]);
    }
    reveal_strlit("true");
    reveal_strlit("false");
    assert("true"@.len() != "false"@.len());
    assert("true"@ != "false"@);
}

/// The exact-bounds law of the dtype table: every encoding that accepts
/// integer inits accepts its own minimum and maximum, and rejects the
/// value one below the minimum and one above the maximum. For `t1`, whose
/// domain is exactly {-1, 1}, the bounds are -1 and 1.
pub proof fn lemma_int_init_bounds(d: DType)
    requires
        dtype_is_int_family(d),
    ensures
        int_init_ok(d, int_dtype_min(d)),
        int_init_ok(d, int_dtype_max(d)),
        !int_init_ok(d, int_dtype_min(d) - 1),
        !int_init_ok(d, int_dtype_max(d) + 1),
{
}

/// Resolving an integer init literal against an integer-family encoding
/// succeeds exactly on the in-range values: a literal whose signed value
/// lies in the encoding's domain resolves to the corresponding scalar,
/// and any other value fails with that encoding's range diagnostic.
pub proof fn lemma_resolve_init_exact(d: DType, lit: Seq<char>, negative: bool, dpos: int)
    requires
        dtype_is_int_family(d),
        is_digits(lit),
        digits_val(lit) <= i128::MAX,
    ensures
        ({
            let v = if negative {
                -digits_val(lit)
            } else {
                digits_val(lit)
            };
            let init = Some(SpecInitValue::Int { lit, negative });
            &&& int_init_ok(d, v) ==> spec_resolve_init(init, d, dpos) == Built::<
                Option<SpecScalarValue>,
            >::Done(Some(spec_int_scalar(d, v)))
            &&& !int_init_ok(d, v) ==> spec_resolve_init(init, d, dpos) == Built::<
                Option<SpecScalarValue>,
            >::Fail(spec_range_msg(d), dpos)
        }),
{
}

/// The instructions a successfully assembled node list consists of,
/// element by element.
pub proof fn lemma_node_instr_list_elems(s: Seq<SpecNode>)
    requires
        spec_node_instr_list(s) is Done,
    ensures
        spec_node_instr_list(s)->Done_0.len() == s.len(),
        forall|i: int|
            0 <= i < s.len() ==> spec_node_instr(#[trigger] s[i]) == Built::<
                SpecNodeInstr,
            >::Done(spec_node_instr_list(s)->Done_0[i]),
    decreases s.len(),
{
    if s.len() > 0 {
        lemma_node_instr_list_elems(s.drop_first());
        let l = spec_node_instr_list(s)->Done_0;
        let l2 = spec_node_instr_list(s.drop_first())->Done_0;
        assert(l == seq![spec_node_instr(s[0])->Done_0] + l2);
        assert(l[0] == spec_node_instr(s[0])->Done_0);
        assert(spec_node_instr(s[0]) == Built::<SpecNodeInstr>::Done(l[0]));
        assert(forall|i: int| 0 <= i < s.drop_first().len() ==> #[trigger] s.drop_first()[i]
            == s[i + 1]);
        assert(forall|i: int| 1 <= i < s.len() ==> #[trigger] l[i] == l2[i - 1]);
        assert forall|i: int| 0 <= i < s.len() implies spec_node_instr(#[trigger] s[i]) == Built::<
            SpecNodeInstr,
        >::Done(l[i]) by {
            if i > 0 {
                assert(s.drop_first()[i - 1] == s[i]);
                assert(spec_node_instr(s.drop_first()[i - 1]) == Built::<SpecNodeInstr>::Done(
                    l2[i - 1],
                ));
            }
        }
    }
}

/// Loop-assembly law: the assembled instruction for a loop node carries a
/// nested instruction list of the same length as the loop's body, whose
/// every element is the fully-built instruction of the corresponding body
/// node — at any nesting depth, since the statement applies again to each
/// nested loop.
pub proof fn lemma_loop_assembly_nests(n: SpecNode)
    requires
        n is Loop,
        spec_node_instr(n) is Done,
    ensures
        spec_node_instr(n)->Done_0 is Loop,
        spec_node_instr(n)->Done_0->Loop_body.len() == n->Loop_body.len(),
        forall|i: int|
            0 <= i < n->Loop_body.len() ==> spec_node_instr(
                #[trigger] n->Loop_body[i],
            ) == Built::<SpecNodeInstr>::Done(spec_node_instr(n)->Done_0->Loop_body[i]),
{
    lemma_node_instr_list_elems(n->Loop_body);
}

} // verus!
