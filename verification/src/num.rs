use vstd::prelude::*;
use rustc_apfloat::Float;
use core::str::FromStr;

verus! {

// Numeric values flow through evaluation as the bit patterns of IEEE 754
// double-precision numbers, held in `u64`. The operations below are performed
// by rustc_apfloat's software implementation of that format, the same one the
// Rust compiler uses to evaluate double-precision arithmetic at compile time.

/// The IEEE 754 binary64 sum of the values with bit patterns `a` and `b`,
/// rounded to nearest, ties to even.
pub uninterp spec fn add_bits(a: u64, b: u64) -> u64;

/// The IEEE 754 binary64 difference of the values with bit patterns `a` and `b`.
pub uninterp spec fn sub_bits(a: u64, b: u64) -> u64;

/// The IEEE 754 binary64 product of the values with bit patterns `a` and `b`.
pub uninterp spec fn mul_bits(a: u64, b: u64) -> u64;

/// The IEEE 754 binary64 quotient of the values with bit patterns `a` and `b`.
/// Division by zero gives an infinity or a NaN bit pattern, never an error.
pub uninterp spec fn div_bits(a: u64, b: u64) -> u64;

/// The value with bit pattern `a`, truncated toward zero to a signed 64-bit
/// integer: the fractional part is discarded, out-of-range values saturate,
/// and NaN gives zero.
pub uninterp spec fn trunc_bits(a: u64) -> i64;

/// The bit pattern of the IEEE 754 binary64 value nearest to the signed
/// 64-bit integer `v`, ties to even.
pub uninterp spec fn bits_of_i64(v: i64) -> u64;

/// The bit pattern of the IEEE 754 binary64 value nearest to the decimal
/// number written in `s`, or `None` when `s` is not a decimal number.
pub uninterp spec fn dec_of(s: Seq<char>) -> Option<u64>;

pub open spec fn is_digit(c: char) -> bool {
    '0' <= c && c <= '9'
}

pub open spec fn all_digits(s: Seq<char>) -> bool {
    forall|i: int| 0 <= i < s.len() ==> is_digit(#[trigger] s[i])
}

/// An exponent part without its leading `e`/`E`: an optional sign followed by
/// at least one decimal digit.
pub open spec fn is_exp_tail(t: Seq<char>) -> bool {
    if t.len() > 0 && (t[0] == '+' || t[0] == '-') {
        t.len() > 1 && all_digits(t.subrange(1, t.len() as int))
    } else {
        t.len() > 0 && all_digits(t)
    }
}

/// `s` split at `d` (end of the integer digits) and `e` (start of the
/// exponent part) is a decimal numeric token: one or more digits, an optional
/// `.` followed by digits, and an optional exponent part.
pub open spec fn is_dec_token_at(s: Seq<char>, d: int, e: int) -> bool {
    &&& 1 <= d <= e <= s.len()
    &&& all_digits(s.subrange(0, d))
    &&& (d == e || (s[d] == '.' && all_digits(s.subrange(d + 1, e))))
    &&& (e == s.len() || ((s[e] == 'e' || s[e] == 'E') && is_exp_tail(
        s.subrange(e + 1, s.len() as int),
    )))
}

/// `s` is a plain decimal numeric token, integer or floating-point, such as
/// `13`, `1.5`, `2.` or `25e-4`.
pub open spec fn is_dec_token(s: Seq<char>) -> bool {
    exists|d: int, e: int| is_dec_token_at(s, d, e)
}

/// Relies on rustc_apfloat's binary64 addition (`Double::add_r`, reached
/// through `core::ops::Add`, rounding to nearest, ties to even): the result
/// depends on the operand bit patterns alone.
#[verifier::external_body]
pub(crate) fn add_f(a: u64, b: u64) -> (r: u64)
    ensures
        r == add_bits(a, b),
{
    let fa = rustc_apfloat::ieee::Double::from_bits(a as u128);
    let fb = rustc_apfloat::ieee::Double::from_bits(b as u128);
    (fa + fb).value.to_bits() as u64
}

/// Relies on rustc_apfloat's binary64 subtraction (`Double::sub_r`, reached
/// through `core::ops::Sub`): the result depends on the operand bit patterns
/// alone.
#[verifier::external_body]
pub(crate) fn sub_f(a: u64, b: u64) -> (r: u64)
    ensures
        r == sub_bits(a, b),
{
    let fa = rustc_apfloat::ieee::Double::from_bits(a as u128);
    let fb = rustc_apfloat::ieee::Double::from_bits(b as u128);
    (fa - fb).value.to_bits() as u64
}

/// Relies on rustc_apfloat's binary64 multiplication (`Double::mul_r`,
/// reached through `core::ops::Mul`): the result depends on the operand bit
/// patterns alone.
#[verifier::external_body]
pub(crate) fn mul_f(a: u64, b: u64) -> (r: u64)
    ensures
        r == mul_bits(a, b),
{
    let fa = rustc_apfloat::ieee::Double::from_bits(a as u128);
    let fb = rustc_apfloat::ieee::Double::from_bits(b as u128);
    (fa * fb).value.to_bits() as u64
}

/// Relies on rustc_apfloat's binary64 division (`Double::div_r`, reached
/// through `core::ops::Div`): the result depends on the operand bit patterns
/// alone; division by zero returns an infinity or NaN value, never a failure.
#[verifier::external_body]
pub(crate) fn div_f(a: u64, b: u64) -> (r: u64)
    ensures
        r == div_bits(a, b),
{
    let fa = rustc_apfloat::ieee::Double::from_bits(a as u128);
    let fb = rustc_apfloat::ieee::Double::from_bits(b as u128);
    (fa / fb).value.to_bits() as u64
}

/// Relies on rustc_apfloat's `Double::to_i128` with 64-bit width (rounding
/// toward zero): it documents that NaN gives zero and out-of-range values
/// give the minimal or maximal 64-bit integer, so the result always fits in
/// `i64` and depends on the bit pattern alone.
#[verifier::external_body]
pub(crate) fn trunc_f(a: u64) -> (r: i64)
    ensures
        r == trunc_bits(a),
{
    let v = rustc_apfloat::ieee::Double::from_bits(a as u128).to_i128(64).value;
    v as i64
}

/// Relies on rustc_apfloat's `Double::from_i128` (rounding to nearest, ties
/// to even): the result depends on the integer alone.
#[verifier::external_body]
pub(crate) fn float_of_i64(v: i64) -> (r: u64)
    ensures
        r == bits_of_i64(v),
{
    rustc_apfloat::ieee::Double::from_i128(v as i128).value.to_bits() as u64
}

/// Relies on rustc_apfloat's `Double::from_str` (round to nearest, ties to
/// even): the result depends on the text alone, and its decimal scanner
/// (`from_decimal_string`) accepts every string made of digits, an optional
/// `.` with trailing digits, and an optional signed exponent, returning `Err`
/// rather than panicking on anything else.
#[verifier::external_body]
pub(crate) fn parse_dec(s: &str) -> (r: Option<u64>)
    ensures
        r == dec_of(s@),
        is_dec_token(s@) ==> r is Some,
{
    match rustc_apfloat::ieee::Double::from_str(s) {
        Ok(d) => Some(d.to_bits() as u64),
        Err(_) => None,
    }
}

} // verus!
