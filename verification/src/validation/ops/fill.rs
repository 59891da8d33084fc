//! The fill-shaped attribute builder: an optional `value` setting
//! defaulting to the double value zero; no other setting is recognized.
use vstd::prelude::*;

use crate::ast::{FloatLit, Ident, OpSetting, SpecIdent, SpecOpSetting};
use crate::error::{builds_to, err_concat, Built, ParseError};
use crate::validation::ops::{attr_value_expr, find_dup, find_leftover1, find_named, spec_attr_value, spec_double_zero, spec_find_dup, spec_find_leftover1, spec_find_named, AttrValue, OpAttrs, SpecOpAttrs};

verus! {

/// What the fill builder yields: the `value` setting when present, the
/// double zero otherwise; a duplicate or unrecognized setting is a hard
/// error.
pub open spec fn spec_fill_attrs(op: SpecIdent, s: Seq<SpecOpSetting>) -> Built<SpecOpAttrs> {
    match spec_find_dup(s, 0) {
        Some(j) => Built::Fail("duplicate setting: "@ + s[j].name.text, s[j].name.pos),
        None => match spec_find_leftover1(s, "value"@, 0) {
            Some(j) => Built::Fail("unrecognized setting: "@ + s[j].name.text, s[j].name.pos),
            None => {
                let value = match spec_find_named(s, "value"@, 0) {
                    Some(i) => spec_attr_value(s[i].value),
                    None => spec_double_zero(),
                };
                Built::Done(SpecOpAttrs::Fill { value })
            },
        },
    }
}

/// Builds the fill attribute record for the operation named `op`.
pub fn build_attrs(op: &Ident, settings: &Vec<OpSetting>) -> (r: Result<OpAttrs, ParseError>)
    ensures
        builds_to(r, spec_fill_attrs(op.deep_view(), settings.deep_view())),
{
    match find_dup(settings) {
        Some(j) => {
            return Err(
                err_concat(
                    settings[j].name.pos,
                    "duplicate setting: ",
                    settings[j].name.text.as_str(),
                ),
            );
        },
        None => {},
    }
    match find_leftover1(settings, "value") {
        Some(j) => {
            return Err(
                err_concat(
                    settings[j].name.pos,
                    "unrecognized setting: ",
                    settings[j].name.text.as_str(),
                ),
            );
        },
        None => {},
    }
    let value = match find_named(settings, "value") {
        Some(i) => attr_value_expr(&settings[i].value),
        None => AttrValue::Double(
            FloatLit { text: "0.0".to_owned(), negative: false, infinite: false },
        ),
    };
    Ok(OpAttrs::Fill { value })
}

} // verus!
