//! Base-10 digit strings and their values.
//!
//! Integer literals travel through the parser as digit text; these helpers
//! give the text its mathematical value and read it into machine integers,
//! rejecting anything that does not fit.
use vstd::prelude::*;

verus! {

/// True for a decimal digit character.
pub open spec fn is_digit(c: char) -> bool {
    '0' <= c && c <= '9'
}

/// True when `s` is a non-empty string of decimal digits.
pub open spec fn is_digits(s: Seq<char>) -> bool {
    s.len() > 0 && forall|i: int| 0 <= i < s.len() ==> is_digit(#[trigger] s[i])
}

/// The value of a digit string read in base 10.
pub open spec fn digits_val(s: Seq<char>) -> int
    decreases s.len(),
{
    if s.len() == 0 {
        0
    } else {
        digits_val(s.drop_last()) * 10 + (s.last() as int - '0' as int)
    }
}

/// Extending a digit prefix by one character multiplies its value by ten
/// and adds the digit.
proof fn lemma_digits_val_extend(s: Seq<char>, i: int)
    requires
        0 <= i < s.len(),
    ensures
        digits_val(s.subrange(0, i + 1)) == digits_val(s.subrange(0, i)) * 10 + (s[i] as int
            - '0' as int),
{
    assert(s.subrange(0, i + 1).drop_last() =~= s.subrange(0, i));
    assert(s.subrange(0, i + 1).last() == s[i]);
}

/// The value of a digit string never falls below the value of any prefix.
proof fn lemma_digits_val_prefix_le(s: Seq<char>, i: int)
    requires
        0 <= i <= s.len(),
        forall|j: int| 0 <= j < s.len() ==> is_digit(#[trigger] s[j]),
        digits_val(s.subrange(0, i)) >= 0,
    ensures
        digits_val(s) >= digits_val(s.subrange(0, i)),
    decreases s.len() - i,
{
    if i == s.len() {
        assert(s.subrange(0, i) =~= s);
    } else {
        lemma_digits_val_extend(s, i);
        lemma_digits_val_prefix_le(s, i + 1);
    }
}

/// Reads a digit string as an `i64`, or nothing when the text is not all
/// digits or its value exceeds `i64::MAX`.
pub fn parse_i64_digits(s: &String) -> (r: Option<i64>)
    ensures
        match r {
            Some(v) => is_digits(s@) && v == digits_val(s@) && v >= 0,
            None => !(is_digits(s@) && digits_val(s@) <= i64::MAX),
        },
{
    let text = s.as_str();
    let n = text.unicode_len();
    if n == 0 {
        return None;
    }
    let mut acc: i64 = 0;
    let mut i: usize = 0;
    while i < n
        invariant
            0 <= i <= n,
            n == s@.len(),
            text@ == s@,
            forall|j: int| 0 <= j < i ==> is_digit(#[trigger] s@[j]),
            acc == digits_val(s@.subrange(0, i as int)),
            0 <= acc,
        decreases n - i,
    {
        let c = text.get_char(i);
        if !('0' <= c && c <= '9') {
            return None;
        }
        let d: i64 = (c as u32 - '0' as u32) as i64;
        proof {
            lemma_digits_val_extend(s@, i as int);
        }
        if acc > (i64::MAX - d) / 10 {
            proof {
                assert(digits_val(s@.subrange(0, i as int + 1)) > i64::MAX);
                if is_digits(s@) {
                    lemma_digits_val_prefix_le(s@, i as int + 1);
                }
            }
            return None;
        }
        acc = acc * 10 + d;
        i = i + 1;
    }
    proof {
        assert(s@.subrange(0, n as int) =~= s@);
    }
    Some(acc)
}

/// Reads a digit string as an `i128`, or nothing when the text is not all
/// digits or its value exceeds `i128::MAX`.
pub fn parse_i128_digits(s: &String) -> (r: Option<i128>)
    ensures
        match r {
            Some(v) => is_digits(s@) && v == digits_val(s@) && v >= 0,
            None => !(is_digits(s@) && digits_val(s@) <= i128::MAX),
        },
{
    let text = s.as_str();
    let n = text.unicode_len();
    if n == 0 {
        return None;
    }
    let mut acc: i128 = 0;
    let mut i: usize = 0;
    while i < n
        invariant
            0 <= i <= n,
            n == s@.len(),
            text@ == s@,
            forall|j: int| 0 <= j < i ==> is_digit(#[trigger] s@[j]),
            acc == digits_val(s@.subrange(0, i as int)),
            0 <= acc,
        decreases n - i,
    {
        let c = text.get_char(i);
        if !('0' <= c && c <= '9') {
            return None;
        }
        let d: i128 = (c as u32 - '0' as u32) as i128;
        proof {
            lemma_digits_val_extend(s@, i as int);
        }
        if acc > (i128::MAX - d) / 10 {
            proof {
                assert(digits_val(s@.subrange(0, i as int + 1)) > i128::MAX);
                if is_digits(s@) {
                    lemma_digits_val_prefix_le(s@, i as int + 1);
                }
            }
            return None;
        }
        acc = acc * 10 + d;
        i = i + 1;
    }
    proof {
        assert(s@.subrange(0, n as int) =~= s@);
    }
    Some(acc)
}

/// Reads a digit string as a `usize`, or nothing when the text is not all
/// digits or its value exceeds `usize::MAX`.
pub fn parse_usize_digits(s: &String) -> (r: Option<usize>)
    ensures
        match r {
            Some(v) => is_digits(s@) && v == digits_val(s@),
            None => !(is_digits(s@) && digits_val(s@) <= usize::MAX),
        },
{
    let text = s.as_str();
    let n = text.unicode_len();
    if n == 0 {
        return None;
    }
    let mut acc: usize = 0;
    let mut i: usize = 0;
    while i < n
        invariant
            0 <= i <= n,
            n == s@.len(),
            text@ == s@,
            forall|j: int| 0 <= j < i ==> is_digit(#[trigger] s@[j]),
            acc == digits_val(s@.subrange(0, i as int)),
        decreases n - i,
    {
        let c = text.get_char(i);
        if !('0' <= c && c <= '9') {
            return None;
        }
        let d: usize = (c as u32 - '0' as u32) as usize;
        proof {
            lemma_digits_val_extend(s@, i as int);
        }
        if acc > (usize::MAX - d) / 10 {
            proof {
                assert(digits_val(s@.subrange(0, i as int + 1)) > usize::MAX);
                if is_digits(s@) {
                    lemma_digits_val_prefix_le(s@, i as int + 1);
                }
            }
            return None;
        }
        acc = acc * 10 + d;
        i = i + 1;
    }
    proof {
        assert(s@.subrange(0, n as int) =~= s@);
    }
    Some(acc)
}

} // verus!
