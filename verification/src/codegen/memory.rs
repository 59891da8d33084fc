//! Dtype resolution and init-value validation: the closed scalar-encoding
//! table, and the exact representable range of each encoding.
use vstd::prelude::*;

use crate::ast::{FloatLit, Ident, InitValue, SpecFloatLit, SpecInitValue};
use crate::error::{builds_to, err_at, Built, ParseError};
use crate::num::{digits_val, is_digits, parse_i128_digits};
use crate::token::str_eq;

verus! {

/// The closed scalar-encoding enumeration.
#[derive(Clone, Copy, PartialEq, Eq, Structural, Debug)]
pub enum DType {
    I8,
    I16,
    I32,
    I64,
    U8,
    U16,
    U32,
    U64,
    F8,
    F16,
    BF16,
    F32,
    F64,
    Bool,
    Bitset,
    I4,
    I2,
    I1,
    U4,
    U2,
    U1,
    T2,
    T1,
}

impl DeepView for DType {
    type V = DType;

    open spec fn deep_view(&self) -> DType {
        *self
    }
}

/// A resolved initial value. Integer encodings carry the checked machine
/// value; floating encodings carry the literal exactly as written.
#[derive(Clone, Debug)]
pub enum ScalarValue {
    I8(i8),
    I16(i16),
    I32(i32),
    I64(i64),
    U8(u8),
    U16(u16),
    U32(u32),
    U64(u64),
    Bool(bool),
    Bitset(u8),
    I4(i8),
    I2(i8),
    I1(i8),
    U4(u8),
    U2(u8),
    U1(u8),
    T2(i8),
    T1(i8),
    F8(FloatLit),
    F16(FloatLit),
    BF16(FloatLit),
    F32(FloatLit),
    F64(FloatLit),
}

#[verifier::ext_equal]
pub enum SpecScalarValue {
    I8(i8),
    I16(i16),
    I32(i32),
    I64(i64),
    U8(u8),
    U16(u16),
    U32(u32),
    U64(u64),
    Bool(bool),
    Bitset(u8),
    I4(i8),
    I2(i8),
    I1(i8),
    U4(u8),
    U2(u8),
    U1(u8),
    T2(i8),
    T1(i8),
    F8(SpecFloatLit),
    F16(SpecFloatLit),
    BF16(SpecFloatLit),
    F32(SpecFloatLit),
    F64(SpecFloatLit),
}

impl DeepView for ScalarValue {
    type V = SpecScalarValue;

    open spec fn deep_view(&self) -> SpecScalarValue {
        match self {
            ScalarValue::I8(v) => SpecScalarValue::I8(*v),
            ScalarValue::I16(v) => SpecScalarValue::I16(*v),
            ScalarValue::I32(v) => SpecScalarValue::I32(*v),
            ScalarValue::I64(v) => SpecScalarValue::I64(*v),
            ScalarValue::U8(v) => SpecScalarValue::U8(*v),
            ScalarValue::U16(v) => SpecScalarValue::U16(*v),
            ScalarValue::U32(v) => SpecScalarValue::U32(*v),
            ScalarValue::U64(v) => SpecScalarValue::U64(*v),
            ScalarValue::Bool(v) => SpecScalarValue::Bool(*v),
            ScalarValue::Bitset(v) => SpecScalarValue::Bitset(*v),
            ScalarValue::I4(v) => SpecScalarValue::I4(*v),
            ScalarValue::I2(v) => SpecScalarValue::I2(*v),
            ScalarValue::I1(v) => SpecScalarValue::I1(*v),
            ScalarValue::U4(v) => SpecScalarValue::U4(*v),
            ScalarValue::U2(v) => SpecScalarValue::U2(*v),
            ScalarValue::U1(v) => SpecScalarValue::U1(*v),
            ScalarValue::T2(v) => SpecScalarValue::T2(*v),
            ScalarValue::T1(v) => SpecScalarValue::T1(*v),
            ScalarValue::F8(f) => SpecScalarValue::F8(f.deep_view()),
            ScalarValue::F16(f) => SpecScalarValue::F16(f.deep_view()),
            ScalarValue::BF16(f) => SpecScalarValue::BF16(f.deep_view()),
            ScalarValue::F32(f) => SpecScalarValue::F32(f.deep_view()),
            ScalarValue::F64(f) => SpecScalarValue::F64(f.deep_view()),
        }
    }
}

/// The dtype a type identifier names, if any.
pub open spec fn spec_match_dtype(s: Seq<char>) -> Option<DType> {
    if s == "i8"@ {
        Some(DType::I8)
    } else if s == "i16"@ {
        Some(DType::I16)
    } else if s == "i32"@ {
        Some(DType::I32)
    } else if s == "i64"@ {
        Some(DType::I64)
    } else if s == "u8"@ {
        Some(DType::U8)
    } else if s == "u16"@ {
        Some(DType::U16)
    } else if s == "u32"@ {
        Some(DType::U32)
    } else if s == "u64"@ {
        Some(DType::U64)
    } else if s == "f8"@ {
        Some(DType::F8)
    } else if s == "f16"@ {
        Some(DType::F16)
    } else if s == "bf16"@ {
        Some(DType::BF16)
    } else if s == "f32"@ {
        Some(DType::F32)
    } else if s == "f64"@ {
        Some(DType::F64)
    } else if s == "bool"@ {
        Some(DType::Bool)
    } else if s == "bitset"@ {
        Some(DType::Bitset)
    } else if s == "i4"@ {
        Some(DType::I4)
    } else if s == "i2"@ {
        Some(DType::I2)
    } else if s == "i1"@ {
        Some(DType::I1)
    } else if s == "u4"@ {
        Some(DType::U4)
    } else if s == "u2"@ {
        Some(DType::U2)
    } else if s == "u1"@ {
        Some(DType::U1)
    } else if s == "t2"@ {
        Some(DType::T2)
    } else if s == "t1"@ {
        Some(DType::T1)
    } else {
        None
    }
}

/// True for the floating encodings.
pub open spec fn dtype_is_float(d: DType) -> bool {
    d == DType::F8 || d == DType::F16 || d == DType::BF16 || d == DType::F32 || d == DType::F64
}

/// True for the encodings that accept an integer-literal init.
pub open spec fn dtype_is_int_family(d: DType) -> bool {
    !dtype_is_float(d)
}

/// True when the integer `v` lies in the exact representable domain of
/// the encoding `d`. The ternary `t2` allows {-1, 0, 1}; `t1` allows
/// exactly {-1, 1}; `bool` allows {0, 1}; `bitset` packs eight booleans.
pub open spec fn int_init_ok(d: DType, v: int) -> bool {
    match d {
        DType::I8 => -128 <= v <= 127,
        DType::I16 => -32768 <= v <= 32767,
        DType::I32 => -0x8000_0000 <= v <= 0x7fff_ffff,
        DType::I64 => i64::MIN <= v <= i64::MAX,
        DType::U8 => 0 <= v <= 255,
        DType::U16 => 0 <= v <= 65535,
        DType::U32 => 0 <= v <= 0xffff_ffff,
        DType::U64 => 0 <= v <= u64::MAX,
        DType::Bool => 0 <= v <= 1,
        DType::Bitset => 0 <= v <= 255,
        DType::I4 => -8 <= v <= 7,
        DType::I2 => -2 <= v <= 1,
        DType::I1 => -1 <= v <= 0,
        DType::U4 => 0 <= v <= 15,
        DType::U2 => 0 <= v <= 3,
        DType::U1 => 0 <= v <= 1,
        DType::T2 => -1 <= v <= 1,
        DType::T1 => v == -1 || v == 1,
        _ => false,
    }
}

/// The least integer the encoding `d` accepts as an init value.
pub open spec fn int_dtype_min(d: DType) -> int {
    match d {
        DType::I8 => -128,
        DType::I16 => -32768,
        DType::I32 => -0x8000_0000,
        DType::I64 => i64::MIN as int,
        DType::U8 => 0,
        DType::U16 => 0,
        DType::U32 => 0,
        DType::U64 => 0,
        DType::Bool => 0,
        DType::Bitset => 0,
        DType::I4 => -8,
        DType::I2 => -2,
        DType::I1 => -1,
        DType::U4 => 0,
        DType::U2 => 0,
        DType::U1 => 0,
        DType::T2 => -1,
        _ => -1,
    }
}

/// The greatest integer the encoding `d` accepts as an init value.
pub open spec fn int_dtype_max(d: DType) -> int {
    match d {
        DType::I8 => 127,
        DType::I16 => 32767,
        DType::I32 => 0x7fff_ffff,
        DType::I64 => i64::MAX as int,
        DType::U8 => 255,
        DType::U16 => 65535,
        DType::U32 => 0xffff_ffff,
        DType::U64 => u64::MAX as int,
        DType::Bool => 1,
        DType::Bitset => 255,
        DType::I4 => 7,
        DType::I2 => 1,
        DType::I1 => 0,
        DType::U4 => 15,
        DType::U2 => 3,
        DType::U1 => 1,
        DType::T2 => 1,
        _ => 1,
    }
}

/// The resolved scalar for an in-range integer init.
pub open spec fn spec_int_scalar(d: DType, v: int) -> SpecScalarValue {
    match d {
        DType::I8 => SpecScalarValue::I8(v as i8),
        DType::I16 => SpecScalarValue::I16(v as i16),
        DType::I32 => SpecScalarValue::I32(v as i32),
        DType::I64 => SpecScalarValue::I64(v as i64),
        DType::U8 => SpecScalarValue::U8(v as u8),
        DType::U16 => SpecScalarValue::U16(v as u16),
        DType::U32 => SpecScalarValue::U32(v as u32),
        DType::U64 => SpecScalarValue::U64(v as u64),
        DType::Bool => SpecScalarValue::Bool(v != 0),
        DType::Bitset => SpecScalarValue::Bitset(v as u8),
        DType::I4 => SpecScalarValue::I4(v as i8),
        DType::I2 => SpecScalarValue::I2(v as i8),
        DType::I1 => SpecScalarValue::I1(v as i8),
        DType::U4 => SpecScalarValue::U4(v as u8),
        DType::U2 => SpecScalarValue::U2(v as u8),
        DType::U1 => SpecScalarValue::U1(v as u8),
        DType::T2 => SpecScalarValue::T2(v as i8),
        _ => SpecScalarValue::T1(v as i8),
    }
}

/// The diagnostic for an out-of-range integer init on the encoding `d`.
pub open spec fn spec_range_msg(d: DType) -> Seq<char> {
    match d {
        DType::I8 => "i8 init out of range"@,
        DType::I16 => "i16 init out of range"@,
        DType::I32 => "i32 init out of range"@,
        DType::I64 => "i64 init out of range"@,
        DType::U8 => "u8 init out of range"@,
        DType::U16 => "u16 init out of range"@,
        DType::U32 => "u32 init out of range"@,
        DType::U64 => "u64 init out of range"@,
        DType::Bool => "bool init must be 0 or 1"@,
        DType::Bitset => "bitset init out of range"@,
        DType::I4 => "i4 init out of range"@,
        DType::I2 => "i2 init out of range"@,
        DType::I1 => "i1 init out of range"@,
        DType::U4 => "u4 init out of range"@,
        DType::U2 => "u2 init out of range"@,
        DType::U1 => "u1 init out of range"@,
        DType::T2 => "t2 init out of range"@,
        _ => "t1 init must be -1 or 1"@,
    }
}

/// The resolved scalar for a float init on the floating encoding `d`.
pub open spec fn spec_float_scalar(d: DType, f: SpecFloatLit) -> SpecScalarValue {
    match d {
        DType::F8 => SpecScalarValue::F8(f),
        DType::F16 => SpecScalarValue::F16(f),
        DType::BF16 => SpecScalarValue::BF16(f),
        DType::F32 => SpecScalarValue::F32(f),
        _ => SpecScalarValue::F64(f),
    }
}

/// What resolving an optional init value against the encoding `d` yields.
/// No init is always valid. A float literal requires a floating encoding;
/// an integer literal requires an integer, bool or bitset encoding and an
/// in-range value; a bool literal requires the bool encoding. `dpos` is
/// the dtype identifier's position, which diagnostics blame.
pub open spec fn spec_resolve_init(init: Option<SpecInitValue>, d: DType, dpos: int) -> Built<
    Option<SpecScalarValue>,
> {
    match init {
        None => Built::Done(None),
        Some(SpecInitValue::Float { lit, negative }) => if dtype_is_float(d) {
            Built::Done(
                Some(
                    spec_float_scalar(
                        d,
                        SpecFloatLit { text: lit, negative, infinite: false },
                    ),
                ),
            )
        } else {
            Built::Fail("float init requires f8/bf16/f16/f32/f64 dtype"@, dpos)
        },
        Some(SpecInitValue::Int { lit, negative }) => if !(is_digits(lit) && digits_val(lit)
            <= i128::MAX) {
            Built::Fail("number too large to fit in target type"@, dpos)
        } else {
            let v = if negative {
                -digits_val(lit)
            } else {
                digits_val(lit)
            };
            if dtype_is_float(d) {
                Built::Fail("integer init requires integer/bool/bitset dtype"@, dpos)
            } else if int_init_ok(d, v) {
                Built::Done(Some(spec_int_scalar(d, v)))
            } else {
                Built::Fail(spec_range_msg(d), dpos)
            }
        },
        Some(SpecInitValue::Bool { value }) => if d == DType::Bool {
            Built::Done(Some(SpecScalarValue::Bool(value)))
        } else {
            Built::Fail("bool init requires bool dtype"@, dpos)
        },
    }
}

/// Resolves a dtype identifier against the closed encoding table.
pub fn match_dtype(dtype: &Ident) -> (r: Result<DType, ParseError>)
    ensures
        match r {
            Ok(d) => spec_match_dtype(dtype.text@) == Some(d),
            Err(e) => spec_match_dtype(dtype.text@) is None && e.msg@ == "unsupported dtype"@
                && e.pos == dtype.pos,
        },
{
    let s = dtype.text.as_str();
    if str_eq(s, "i8") {
        Ok(DType::I8)
    } else if str_eq(s, "i16") {
        Ok(DType::I16)
    } else if str_eq(s, "i32") {
        Ok(DType::I32)
    } else if str_eq(s, "i64") {
        Ok(DType::I64)
    } else if str_eq(s, "u8") {
        Ok(DType::U8)
    } else if str_eq(s, "u16") {
        Ok(DType::U16)
    } else if str_eq(s, "u32") {
        Ok(DType::U32)
    } else if str_eq(s, "u64") {
        Ok(DType::U64)
    } else if str_eq(s, "f8") {
        Ok(DType::F8)
    } else if str_eq(s, "f16") {
        Ok(DType::F16)
    } else if str_eq(s, "bf16") {
        Ok(DType::BF16)
    } else if str_eq(s, "f32") {
        Ok(DType::F32)
    } else if str_eq(s, "f64") {
        Ok(DType::F64)
    } else if str_eq(s, "bool") {
        Ok(DType::Bool)
    } else if str_eq(s, "bitset") {
        Ok(DType::Bitset)
    } else if str_eq(s, "i4") {
        Ok(DType::I4)
    } else if str_eq(s, "i2") {
        Ok(DType::I2)
    } else if str_eq(s, "i1") {
        Ok(DType::I1)
    } else if str_eq(s, "u4") {
        Ok(DType::U4)
    } else if str_eq(s, "u2") {
        Ok(DType::U2)
    } else if str_eq(s, "u1") {
        Ok(DType::U1)
    } else if str_eq(s, "t2") {
        Ok(DType::T2)
    } else if str_eq(s, "t1") {
        Ok(DType::T1)
    } else {
        Err(err_at(dtype.pos, "unsupported dtype"))
    }
}

/// Resolves an optional init value against the already-resolved dtype,
/// checking the literal kind and the exact representable range.
pub fn init_expr(init: &Option<InitValue>, d: DType, dpos: usize) -> (r: Result<
    Option<ScalarValue>,
    ParseError,
>)
    ensures
        builds_to(r, spec_resolve_init(init.deep_view(), d, dpos as int)),
{
    let iv = match init {
        None => {
            return Ok(None);
        },
        Some(iv) => iv,
    };
    match iv {
        InitValue::Float { lit, negative } => {
            let f = FloatLit { text: lit.clone(), negative: *negative, infinite: false };
            match d {
                DType::F8 => Ok(Some(ScalarValue::F8(f))),
                DType::F16 => Ok(Some(ScalarValue::F16(f))),
                DType::BF16 => Ok(Some(ScalarValue::BF16(f))),
                DType::F32 => Ok(Some(ScalarValue::F32(f))),
                DType::F64 => Ok(Some(ScalarValue::F64(f))),
                _ => Err(err_at(dpos, "float init requires f8/bf16/f16/f32/f64 dtype")),
            }
        },
        InitValue::Int { lit, negative } => {
            let mag = match parse_i128_digits(lit) {
                Some(v) => v,
                None => {
                    return Err(err_at(dpos, "number too large to fit in target type"));
                },
            };
            let v: i128 = if *negative {
                -mag
            } else {
                mag
            };
            match d {
                DType::I8 => if -128 <= v && v <= 127 {
                    Ok(Some(ScalarValue::I8(v as i8)))
                } else {
                    Err(err_at(dpos, "i8 init out of range"))
                },
                DType::I16 => if -32768 <= v && v <= 32767 {
                    Ok(Some(ScalarValue::I16(v as i16)))
                } else {
                    Err(err_at(dpos, "i16 init out of range"))
                },
                DType::I32 => if -0x8000_0000i128 <= v && v <= 0x7fff_ffff {
                    Ok(Some(ScalarValue::I32(v as i32)))
                } else {
                    Err(err_at(dpos, "i32 init out of range"))
                },
                DType::I64 => if i64::MIN as i128 <= v && v <= i64::MAX as i128 {
                    Ok(Some(ScalarValue::I64(v as i64)))
                } else {
                    Err(err_at(dpos, "i64 init out of range"))
                },
                DType::U8 => if 0 <= v && v <= 255 {
                    Ok(Some(ScalarValue::U8(v as u8)))
                } else {
                    Err(err_at(dpos, "u8 init out of range"))
                },
                DType::U16 => if 0 <= v && v <= 65535 {
                    Ok(Some(ScalarValue::U16(v as u16)))
                } else {
                    Err(err_at(dpos, "u16 init out of range"))
                },
                DType::U32 => if 0 <= v && v <= 0xffff_ffff {
                    Ok(Some(ScalarValue::U32(v as u32)))
                } else {
                    Err(err_at(dpos, "u32 init out of range"))
                },
                DType::U64 => if 0 <= v && v <= u64::MAX as i128 {
                    Ok(Some(ScalarValue::U64(v as u64)))
                } else {
                    Err(err_at(dpos, "u64 init out of range"))
                },
                DType::Bool => if 0 <= v && v <= 1 {
                    Ok(Some(ScalarValue::Bool(v != 0)))
                } else {
                    Err(err_at(dpos, "bool init must be 0 or 1"))
                },
                DType::Bitset => if 0 <= v && v <= 255 {
                    Ok(Some(ScalarValue::Bitset(v as u8)))
                } else {
                    Err(err_at(dpos, "bitset init out of range"))
                },
                DType::I4 => if -8 <= v && v <= 7 {
                    Ok(Some(ScalarValue::I4(v as i8)))
                } else {
                    Err(err_at(dpos, "i4 init out of range"))
                },
                DType::I2 => if -2 <= v && v <= 1 {
                    Ok(Some(ScalarValue::I2(v as i8)))
                } else {
                    Err(err_at(dpos, "i2 init out of range"))
                },
                DType::I1 => if -1 <= v && v <= 0 {
                    Ok(Some(ScalarValue::I1(v as i8)))
                } else {
                    Err(err_at(dpos, "i1 init out of range"))
                },
                DType::U4 => if 0 <= v && v <= 15 {
                    Ok(Some(ScalarValue::U4(v as u8)))
                } else {
                    Err(err_at(dpos, "u4 init out of range"))
                },
                DType::U2 => if 0 <= v && v <= 3 {
                    Ok(Some(ScalarValue::U2(v as u8)))
                } else {
                    Err(err_at(dpos, "u2 init out of range"))
                },
                DType::U1 => if 0 <= v && v <= 1 {
                    Ok(Some(ScalarValue::U1(v as u8)))
                } else {
                    Err(err_at(dpos, "u1 init out of range"))
                },
                DType::T2 => if -1 <= v && v <= 1 {
                    Ok(Some(ScalarValue::T2(v as i8)))
                } else {
                    Err(err_at(dpos, "t2 init out of range"))
                },
                DType::T1 => if v == -1 || v == 1 {
                    Ok(Some(ScalarValue::T1(v as i8)))
                } else {
                    Err(err_at(dpos, "t1 init must be -1 or 1"))
                },
                _ => Err(err_at(dpos, "integer init requires integer/bool/bitset dtype")),
            }
        },
        InitValue::Bool { value } => {
            match d {
                DType::Bool => Ok(Some(ScalarValue::Bool(*value))),
                _ => Err(err_at(dpos, "bool init requires bool dtype")),
            }
        },
    }
}

} // verus!
