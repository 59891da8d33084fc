//! The relu-shaped attribute builder: an optional `alpha` (default zero)
//! and `clamp_max` (default positive infinity); nothing else recognized.
use vstd::prelude::*;

use crate::ast::{FloatLit, Ident, OpSetting, SpecIdent, SpecOpSetting};
use crate::error::{builds_to, err_concat, Built, ParseError};
use crate::validation::ops::{attr_value_expr, find_dup, find_leftover2, find_named, spec_attr_value, spec_double_inf, spec_double_zero, spec_find_dup, spec_find_leftover2, spec_find_named, AttrValue, OpAttrs, SpecOpAttrs};

verus! {

/// What the relu builder yields: `alpha` defaulting to the double zero and
/// `clamp_max` defaulting to the double positive infinity; a duplicate or
/// unrecognized setting is a hard error.
pub open spec fn spec_relu_attrs(op: SpecIdent, s: Seq<SpecOpSetting>) -> Built<SpecOpAttrs> {
    match spec_find_dup(s, 0) {
        Some(j) => Built::Fail("duplicate setting: "@ + s[j].name.text, s[j].name.pos),
        None => match spec_find_leftover2(s, "alpha"@, "clamp_max"@, 0) {
            Some(j) => Built::Fail("unrecognized setting: "@ + s[j].name.text, s[j].name.pos),
            None => {
                let alpha = match spec_find_named(s, "alpha"@, 0) {
                    Some(i) => spec_attr_value(s[i].value),
                    None => spec_double_zero(),
                };
                let clamp_max = match spec_find_named(s, "clamp_max"@, 0) {
                    Some(i) => spec_attr_value(s[i].value),
                    None => spec_double_inf(),
                };
                Built::Done(SpecOpAttrs::Relu { alpha, clamp_max })
            },
        },
    }
}

/// Builds the relu attribute record for the operation named `op`.
pub fn build_attrs(op: &Ident, settings: &Vec<OpSetting>) -> (r: Result<OpAttrs, ParseError>)
    ensures
        builds_to(r, spec_relu_attrs(op.deep_view(), settings.deep_view())),
{
    match find_dup(settings) {
        Some(j) => {
            return Err(
                err_concat(
                    settings[j].name.pos,
                    "duplicate setting: ",
                    settings[j].name.text.as_str(),
                ),
            );
        },
        None => {},
    }
    match find_leftover2(settings, "alpha", "clamp_max") {
        Some(j) => {
            return Err(
                err_concat(
                    settings[j].name.pos,
                    "unrecognized setting: ",
                    settings[j].name.text.as_str(),
                ),
            );
        },
        None => {},
    }
    let alpha = match find_named(settings, "alpha") {
        Some(i) => attr_value_expr(&settings[i].value),
        None => AttrValue::Double(
            FloatLit { text: "0.0".to_owned(), negative: false, infinite: false },
        ),
    };
    let clamp_max = match find_named(settings, "clamp_max") {
        Some(i) => attr_value_expr(&settings[i].value),
        None => AttrValue::Double(
            FloatLit { text: "inf".to_owned(), negative: false, infinite: true },
        ),
    };
    Ok(OpAttrs::Relu { alpha, clamp_max })
}

} // verus!
