//! The accumulate-shaped attribute builder: an optional `acc` setting that
//! must name a dtype; no other setting is recognized.
use vstd::prelude::*;

use crate::ast::{Ident, OpAttrValue, OpSetting, SpecIdent, SpecOpSetting};
use crate::codegen::memory::{match_dtype, spec_match_dtype};
use crate::error::{builds_to, err_at, err_concat, Built, ParseError};
use crate::validation::ops::{find_dup, find_leftover1, find_named, spec_find_dup, spec_find_leftover1, spec_find_named, OpAttrs, SpecOpAttrs};

verus! {

/// What the accumulate builder yields: `OpAttrs::Empty` when `acc` is
/// absent, the named dtype when present; a duplicate, unrecognized or
/// non-dtype setting is a hard error.
pub open spec fn spec_accumulate_attrs(op: SpecIdent, s: Seq<SpecOpSetting>) -> Built<SpecOpAttrs> {
    match spec_find_dup(s, 0) {
        Some(j) => Built::Fail("duplicate setting: "@ + s[j].name.text, s[j].name.pos),
        None => match spec_find_leftover1(s, "acc"@, 0) {
            Some(j) => Built::Fail("unrecognized setting: "@ + s[j].name.text, s[j].name.pos),
            None => match spec_find_named(s, "acc"@, 0) {
                None => Built::Done(SpecOpAttrs::Empty),
                Some(i) => match s[i].value {
                    crate::ast::SpecOpAttrValue::Var(id) => match spec_match_dtype(id.text) {
                        Some(d) => Built::Done(SpecOpAttrs::Accumulate { dtype: d }),
                        None => Built::Fail("unsupported dtype"@, id.pos),
                    },
                    _ => Built::Fail("acc setting expects a dtype identifier like i32"@, op.pos),
                },
            },
        },
    }
}

/// Builds the accumulate attribute record for the operation named `op`.
pub fn build_attrs(op: &Ident, settings: &Vec<OpSetting>) -> (r: Result<OpAttrs, ParseError>)
    ensures
        builds_to(r, spec_accumulate_attrs(op.deep_view(), settings.deep_view())),
{
    match find_dup(settings) {
        Some(j) => {
            return Err(
                err_concat(
                    settings[j].name.pos,
                    "duplicate setting: ",
                    settings[j].name.text.as_str(),
                ),
            );
        },
        None => {},
    }
    match find_leftover1(settings, "acc") {
        Some(j) => {
            return Err(
                err_concat(
                    settings[j].name.pos,
                    "unrecognized setting: ",
                    settings[j].name.text.as_str(),
                ),
            );
        },
        None => {},
    }
    match find_named(settings, "acc") {
        None => Ok(OpAttrs::Empty),
        Some(i) => {
            match &settings[i].value {
                OpAttrValue::Var(id) => {
                    match match_dtype(id) {
                        Ok(d) => Ok(OpAttrs::Accumulate { dtype: d }),
                        Err(e) => Err(e),
                    }
                },
                _ => Err(err_at(op.pos, "acc setting expects a dtype identifier like i32")),
            }
        },
    }
}

} // verus!
