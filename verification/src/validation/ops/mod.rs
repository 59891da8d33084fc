//! Per-operation attribute records built from the named-setting list.
//! Duplicate setting names are a hard error; the generic path preserves
//! every setting, while specialized builders check operation-specific
//! required, optional and defaulted keys.
use vstd::prelude::*;

pub mod accumulate;
pub mod fill;
pub mod relu;

use crate::ast::{FloatLit, OpAttrValue, OpSetting, SpecFloatLit, SpecOpAttrValue, SpecOpSetting};
use crate::codegen::memory::{match_dtype, spec_match_dtype, DType};
use crate::error::{builds_to, err_at, err_concat, prepend_built, Built, ParseError};
use crate::token::str_eq;

verus! {

/// The value of one resolved operation attribute.
#[derive(Clone, Debug)]
pub enum AttrValue {
    Float(FloatLit),
    Double(FloatLit),
    Int(i64),
    Bool(bool),
    Str(String),
    IntList(Vec<i64>),
    Var(String),
    DType(DType),
}

#[verifier::ext_equal]
pub enum SpecAttrValue {
    Float(SpecFloatLit),
    Double(SpecFloatLit),
    Int(i64),
    Bool(bool),
    Str(Seq<char>),
    IntList(Seq<i64>),
    Var(Seq<char>),
    DType(DType),
}

impl DeepView for AttrValue {
    type V = SpecAttrValue;

    open spec fn deep_view(&self) -> SpecAttrValue {
        match self {
            AttrValue::Float(f) => SpecAttrValue::Float(f.deep_view()),
            AttrValue::Double(f) => SpecAttrValue::Double(f.deep_view()),
            AttrValue::Int(v) => SpecAttrValue::Int(*v),
            AttrValue::Bool(b) => SpecAttrValue::Bool(*b),
            AttrValue::Str(s) => SpecAttrValue::Str(s@),
            AttrValue::IntList(v) => SpecAttrValue::IntList(v.deep_view()),
            AttrValue::Var(s) => SpecAttrValue::Var(s@),
            AttrValue::DType(d) => SpecAttrValue::DType(*d),
        }
    }
}

/// One resolved name/value attribute record.
#[derive(Clone, Debug)]
pub struct OpAttr {
    pub name: String,
    pub value: AttrValue,
}

#[verifier::ext_equal]
pub struct SpecOpAttr {
    pub name: Seq<char>,
    pub value: SpecAttrValue,
}

impl DeepView for OpAttr {
    type V = SpecOpAttr;

    open spec fn deep_view(&self) -> SpecOpAttr {
        SpecOpAttr { name: self.name@, value: self.value.deep_view() }
    }
}

/// The attribute record attached to an operation instruction.
#[derive(Clone, Debug)]
pub enum OpAttrs {
    /// No operation-specific attributes.
    Empty,
    /// Every setting preserved as a generic name/value record.
    Generic(Vec<OpAttr>),
    Accumulate { dtype: DType },
    Fill { value: AttrValue },
    Relu { alpha: AttrValue, clamp_max: AttrValue },
}

#[verifier::ext_equal]
pub enum SpecOpAttrs {
    Empty,
    Generic(Seq<SpecOpAttr>),
    Accumulate { dtype: DType },
    Fill { value: SpecAttrValue },
    Relu { alpha: SpecAttrValue, clamp_max: SpecAttrValue },
}

impl DeepView for OpAttrs {
    type V = SpecOpAttrs;

    open spec fn deep_view(&self) -> SpecOpAttrs {
        match self {
            OpAttrs::Empty => SpecOpAttrs::Empty,
            OpAttrs::Generic(l) => SpecOpAttrs::Generic(l.deep_view()),
            OpAttrs::Accumulate { dtype } => SpecOpAttrs::Accumulate { dtype: *dtype },
            OpAttrs::Fill { value } => SpecOpAttrs::Fill { value: value.deep_view() },
            OpAttrs::Relu { alpha, clamp_max } => SpecOpAttrs::Relu {
                alpha: alpha.deep_view(),
                clamp_max: clamp_max.deep_view(),
            },
        }
    }
}

/// The double value zero, the default for several settings.
pub open spec fn spec_double_zero() -> SpecAttrValue {
    SpecAttrValue::Double(SpecFloatLit { text: "0.0"@, negative: false, infinite: false })
}

/// The double positive infinity, the default clamp bound.
pub open spec fn spec_double_inf() -> SpecAttrValue {
    SpecAttrValue::Double(SpecFloatLit { text: "inf"@, negative: false, infinite: true })
}

/// The generic mapping from a setting value to an attribute value.
pub open spec fn spec_attr_value(v: SpecOpAttrValue) -> SpecAttrValue {
    match v {
        SpecOpAttrValue::Float(f) => SpecAttrValue::Float(f),
        SpecOpAttrValue::Double(f) => SpecAttrValue::Double(f),
        SpecOpAttrValue::Int(x) => SpecAttrValue::Int(x),
        SpecOpAttrValue::Bool(b) => SpecAttrValue::Bool(b),
        SpecOpAttrValue::Str(s) => SpecAttrValue::Str(s),
        SpecOpAttrValue::IntList(l) => SpecAttrValue::IntList(l),
        SpecOpAttrValue::Var(id) => SpecAttrValue::Var(id.text),
    }
}

/// True when some setting before `j` has the same name as the one at `j`.
pub open spec fn spec_has_dup_before(s: Seq<SpecOpSetting>, j: int) -> bool {
    exists|i: int| 0 <= i < j && #[trigger] s[i].name.text == s[j].name.text
}

/// The first index at or after `j` whose name repeats an earlier one.
pub open spec fn spec_find_dup(s: Seq<SpecOpSetting>, j: int) -> Option<int>
    decreases s.len() - j,
{
    if j < 0 || j >= s.len() {
        None
    } else if spec_has_dup_before(s, j) {
        Some(j)
    } else {
        spec_find_dup(s, j + 1)
    }
}

/// The first index at or after `j` whose setting is named `name`.
pub open spec fn spec_find_named(s: Seq<SpecOpSetting>, name: Seq<char>, j: int) -> Option<int>
    decreases s.len() - j,
{
    if j < 0 || j >= s.len() {
        None
    } else if s[j].name.text == name {
        Some(j)
    } else {
        spec_find_named(s, name, j + 1)
    }
}

/// The first index at or after `j` whose setting name is not `a`.
pub open spec fn spec_find_leftover1(s: Seq<SpecOpSetting>, a: Seq<char>, j: int) -> Option<int>
    decreases s.len() - j,
{
    if j < 0 || j >= s.len() {
        None
    } else if s[j].name.text != a {
        Some(j)
    } else {
        spec_find_leftover1(s, a, j + 1)
    }
}

/// The first index at or after `j` whose setting name is neither `a` nor
/// `b`.
pub open spec fn spec_find_leftover2(
    s: Seq<SpecOpSetting>,
    a: Seq<char>,
    b: Seq<char>,
    j: int,
) -> Option<int>
    decreases s.len() - j,
{
    if j < 0 || j >= s.len() {
        None
    } else if s[j].name.text != a && s[j].name.text != b {
        Some(j)
    } else {
        spec_find_leftover2(s, a, b, j + 1)
    }
}

/// What resolving one setting yields on the generic path: `acc` and `to`
/// must name a dtype; everything else maps by shape.
pub open spec fn spec_setting_item(st: SpecOpSetting) -> Built<SpecOpAttr> {
    if st.name.text == "acc"@ || st.name.text == "to"@ {
        match st.value {
            SpecOpAttrValue::Var(id) => match spec_match_dtype(id.text) {
                Some(d) => Built::Done(
                    SpecOpAttr { name: st.name.text, value: SpecAttrValue::DType(d) },
                ),
                None => Built::Fail("unsupported dtype"@, id.pos),
            },
            _ => Built::Fail("acc must be a dtype identifier"@, st.name.pos),
        }
    } else {
        Built::Done(SpecOpAttr { name: st.name.text, value: spec_attr_value(st.value) })
    }
}

/// What resolving every setting in order yields on the generic path.
pub open spec fn spec_settings_items(s: Seq<SpecOpSetting>) -> Built<Seq<SpecOpAttr>>
    decreases s.len(),
{
    if s.len() == 0 {
        Built::Done(Seq::<SpecOpAttr>::empty())
    } else {
        match spec_setting_item(s[0]) {
            Built::Done(a) => match spec_settings_items(s.drop_first()) {
                Built::Done(l) => Built::Done(seq![a] + l),
                Built::Fail(m, q) => Built::Fail(m, q),
            },
            Built::Fail(m, q) => Built::Fail(m, q),
        }
    }
}

/// What the generic attribute path yields for a setting list: a duplicate
/// name is a hard error, else every setting becomes a name/value record.
pub open spec fn spec_op_attrs(s: Seq<SpecOpSetting>) -> Built<SpecOpAttrs> {
    match spec_find_dup(s, 0) {
        Some(j) => Built::Fail("duplicate setting: "@ + s[j].name.text, s[j].name.pos),
        None => match spec_settings_items(s) {
            Built::Done(l) => Built::Done(SpecOpAttrs::Generic(l)),
            Built::Fail(m, q) => Built::Fail(m, q),
        },
    }
}

/// Finds the first setting whose name repeats an earlier one.
pub fn find_dup(settings: &Vec<OpSetting>) -> (r: Option<usize>)
    ensures
        match r {
            Some(j) => spec_find_dup(settings.deep_view(), 0) == Some(j as int) && j
                < settings@.len(),
            None => spec_find_dup(settings.deep_view(), 0) is None,
        },
{
    let ghost s = settings.deep_view();
    let n = settings.len();
    let mut j: usize = 0;
    while j < n
        invariant
            0 <= j <= n,
            n == settings@.len(),
            s == settings.deep_view(),
            spec_find_dup(s, 0) == spec_find_dup(s, j as int),
        decreases n - j,
    {
        let mut i: usize = 0;
        while i < j
            invariant
                0 <= i <= j < n,
                n == settings@.len(),
                s == settings.deep_view(),
                spec_find_dup(s, 0) == spec_find_dup(s, j as int),
                forall|ii: int| 0 <= ii < i ==> #[trigger] s[ii].name.text != s[j as int].name.text,
            decreases j - i,
        {
            if str_eq(settings[i].name.text.as_str(), settings[j].name.text.as_str()) {
                proof {
                    assert(s[i as int].name.text == s[j as int].name.text);
                    assert(spec_has_dup_before(s, j as int));
                }
                return Some(j);
            }
            i = i + 1;
        }
        proof {
            assert(!spec_has_dup_before(s, j as int));
        }
        j = j + 1;
    }
    None
}

/// Finds the first setting with the given name.
pub fn find_named(settings: &Vec<OpSetting>, name: &str) -> (r: Option<usize>)
    ensures
        match r {
            Some(j) => spec_find_named(settings.deep_view(), name@, 0) == Some(j as int) && j
                < settings@.len(),
            None => spec_find_named(settings.deep_view(), name@, 0) is None,
        },
{
    let ghost s = settings.deep_view();
    let n = settings.len();
    let mut j: usize = 0;
    while j < n
        invariant
            0 <= j <= n,
            n == settings@.len(),
            s == settings.deep_view(),
            spec_find_named(s, name@, 0) == spec_find_named(s, name@, j as int),
        decreases n - j,
    {
        if str_eq(settings[j].name.text.as_str(), name) {
            return Some(j);
        }
        j = j + 1;
    }
    None
}

/// Finds the first setting whose name is not `a`.
pub fn find_leftover1(settings: &Vec<OpSetting>, a: &str) -> (r: Option<usize>)
    ensures
        match r {
            Some(j) => spec_find_leftover1(settings.deep_view(), a@, 0) == Some(j as int) && j
                < settings@.len(),
            None => spec_find_leftover1(settings.deep_view(), a@, 0) is None,
        },
{
    let ghost s = settings.deep_view();
    let n = settings.len();
    let mut j: usize = 0;
    while j < n
        invariant
            0 <= j <= n,
            n == settings@.len(),
            s == settings.deep_view(),
            spec_find_leftover1(s, a@, 0) == spec_find_leftover1(s, a@, j as int),
        decreases n - j,
    {
        if !str_eq(settings[j].name.text.as_str(), a) {
            return Some(j);
        }
        j = j + 1;
    }
    None
}

/// Finds the first setting whose name is neither `a` nor `b`.
pub fn find_leftover2(settings: &Vec<OpSetting>, a: &str, b: &str) -> (r: Option<usize>)
    ensures
        match r {
            Some(j) => spec_find_leftover2(settings.deep_view(), a@, b@, 0) == Some(j as int) && j
                < settings@.len(),
            None => spec_find_leftover2(settings.deep_view(), a@, b@, 0) is None,
        },
{
    let ghost s = settings.deep_view();
    let n = settings.len();
    let mut j: usize = 0;
    while j < n
        invariant
            0 <= j <= n,
            n == settings@.len(),
            s == settings.deep_view(),
            spec_find_leftover2(s, a@, b@, 0) == spec_find_leftover2(s, a@, b@, j as int),
        decreases n - j,
    {
        if !str_eq(settings[j].name.text.as_str(), a) && !str_eq(
            settings[j].name.text.as_str(),
            b,
        ) {
            return Some(j);
        }
        j = j + 1;
    }
    None
}

/// Maps a setting value to the attribute value it stands for.
pub fn attr_value_expr(v: &OpAttrValue) -> (r: AttrValue)
    ensures
        r.deep_view() == spec_attr_value(v.deep_view()),
{
    match v {
        OpAttrValue::Float(f) => AttrValue::Float(
            FloatLit { text: f.text.clone(), negative: f.negative, infinite: f.infinite },
        ),
        OpAttrValue::Double(f) => AttrValue::Double(
            FloatLit { text: f.text.clone(), negative: f.negative, infinite: f.infinite },
        ),
        OpAttrValue::Int(x) => AttrValue::Int(*x),
        OpAttrValue::Bool(b) => AttrValue::Bool(*b),
        OpAttrValue::Str(s) => AttrValue::Str(s.clone()),
        OpAttrValue::IntList(l) => {
            let r = AttrValue::IntList(l.clone());
            proof {
                assert(r.deep_view() =~= spec_attr_value(v.deep_view()));
            }
            r
        },
        OpAttrValue::Var(id) => AttrValue::Var(id.text.clone()),
    }
}

/// Resolves one setting on the generic path.
fn setting_item(st: &OpSetting) -> (r: Result<OpAttr, ParseError>)
    ensures
        builds_to(r, spec_setting_item(st.deep_view())),
{
    if str_eq(st.name.text.as_str(), "acc") || str_eq(st.name.text.as_str(), "to") {
        match &st.value {
            OpAttrValue::Var(id) => {
                match match_dtype(id) {
                    Ok(d) => Ok(OpAttr { name: st.name.text.clone(), value: AttrValue::DType(d) }),
                    Err(e) => Err(e),
                }
            },
            _ => Err(err_at(st.name.pos, "acc must be a dtype identifier")),
        }
    } else {
        Ok(OpAttr { name: st.name.text.clone(), value: attr_value_expr(&st.value) })
    }
}

/// Builds the generic attribute record: rejects duplicate setting names,
/// then preserves every setting as a name/value record in order.
pub fn op_attrs_expr(settings: &Vec<OpSetting>) -> (r: Result<OpAttrs, ParseError>)
    ensures
        builds_to(r, spec_op_attrs(settings.deep_view())),
{
    let ghost s = settings.deep_view();
    match find_dup(settings) {
        Some(j) => {
            return Err(
                err_concat(settings[j].name.pos, "duplicate setting: ", settings[j].name.text.as_str()),
            );
        },
        None => {},
    }
    let n = settings.len();
    let mut items: Vec<OpAttr> = Vec::new();
    let mut i: usize = 0;
    proof {
        assert(s.skip(0) =~= s);
        assert(items.deep_view() =~= Seq::<SpecOpAttr>::empty());
        assert(prepend_built(items.deep_view(), spec_settings_items(s)) =~= spec_settings_items(
            s,
        ));
    }
    loop
        invariant
            0 <= i <= n,
            n == settings@.len(),
            s == settings.deep_view(),
            spec_find_dup(s, 0) is None,
            spec_settings_items(s) == prepend_built(
                items.deep_view(),
                spec_settings_items(s.skip(i as int)),
            ),
        decreases n - i,
    {
        if i >= n {
            proof {
                assert(s.skip(n as int) =~= Seq::<SpecOpSetting>::empty());
                assert(items.deep_view() + Seq::<SpecOpAttr>::empty() =~= items.deep_view());
            }
            return Ok(OpAttrs::Generic(items));
        }
        let ghost old_items = items.deep_view();
        match setting_item(&settings[i]) {
            Ok(a) => {
                let ghost a_dv = a.deep_view();
                items.push(a);
                proof {
                    assert(s.skip(i as int)[0] == s[i as int]);
                    assert(s.skip(i as int).drop_first() =~= s.skip(i as int + 1));
                    assert(items.deep_view() =~= old_items + seq![a_dv]);
                    let rest = spec_settings_items(s.skip(i as int + 1));
                    assert(spec_settings_items(s.skip(i as int)) == prepend_built(
                        seq![a_dv],
                        rest,
                    ));
                    assert(prepend_built(old_items, prepend_built(seq![a_dv], rest))
                        =~= prepend_built(items.deep_view(), rest));
                }
                i = i + 1;
            },
            Err(e) => {
                proof {
                    assert(s.skip(i as int)[0] == s[i as int]);
                }
                return Err(e);
            },
        }
    }
}

} // verus!
