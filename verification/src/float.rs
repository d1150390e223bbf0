//! Sixty-four-bit IEEE-754 numbers, carried as their bit patterns.
//!
//! The scripting language has a single numeric type: an IEEE-754 binary64
//! value.  The library stores such a number as its 64-bit pattern (`u64`) and
//! performs arithmetic, comparison, parsing and formatting through the
//! software float implementation of the `rustc_apfloat` crate, which works on
//! bit patterns directly.  Each operation is deterministic in its arguments,
//! so its result is given a name (an uninterpreted spec function) that the
//! rest of the library's contracts build on.

use vstd::prelude::*;

use rustc_apfloat::Float;
use rustc_apfloat::ieee::Double;

verus! {

/// The bits of the IEEE-754 binary64 sum of `a` and `b` (round to nearest, ties to even).
pub uninterp spec fn f64_add(a: u64, b: u64) -> u64;

/// The bits of the IEEE-754 binary64 difference of `a` and `b`.
pub uninterp spec fn f64_sub(a: u64, b: u64) -> u64;

/// The bits of the IEEE-754 binary64 product of `a` and `b`.
pub uninterp spec fn f64_mul(a: u64, b: u64) -> u64;

/// The bits of the IEEE-754 binary64 quotient of `a` and `b`.
pub uninterp spec fn f64_div(a: u64, b: u64) -> u64;

/// The IEEE-754 comparison of the numbers with bits `a` and `b`,
/// encoded as 0 (less), 1 (equal), 2 (greater) or 3 (unordered).
pub uninterp spec fn f64_cmp(a: u64, b: u64) -> u8;

/// The decimal rendering of the number with bits `b`.
pub uninterp spec fn f64_display(b: u64) -> Seq<char>;

/// The bits of the binary64 value nearest to the decimal text `s`
/// (zero if `s` is not a decimal number).
pub uninterp spec fn f64_parse(s: Seq<char>) -> u64;

/// The bits of the binary64 value nearest to the integer `n`.
pub uninterp spec fn f64_of_u64(n: u64) -> u64;

/// The bits of the IEEE-754 negation of `b`: the sign bit is flipped and
/// nothing else changes.
pub open spec fn f64_neg(b: u64) -> u64 {
    b ^ 0x8000_0000_0000_0000
}

/// IEEE-754 equality of the numbers with bits `a` and `b`.
pub open spec fn f64_eq(a: u64, b: u64) -> bool {
    f64_cmp(a, b) == 1
}

/// IEEE-754 `a < b`.
pub open spec fn f64_lt(a: u64, b: u64) -> bool {
    f64_cmp(a, b) == 0
}

/// IEEE-754 `a <= b`.
pub open spec fn f64_le(a: u64, b: u64) -> bool {
    f64_cmp(a, b) == 0 || f64_cmp(a, b) == 1
}

/// IEEE-754 `a > b`.
pub open spec fn f64_gt(a: u64, b: u64) -> bool {
    f64_cmp(a, b) == 2
}

/// IEEE-754 `a >= b`.
pub open spec fn f64_ge(a: u64, b: u64) -> bool {
    f64_cmp(a, b) == 2 || f64_cmp(a, b) == 1
}

/// Relies on `rustc_apfloat::ieee::Double`: `from_bits`, the `Add` impl
/// (round to nearest, ties to even) and `to_bits`.
#[verifier::external_body]
pub fn add_bits(a: u64, b: u64) -> (r: u64)
    ensures
        r == f64_add(a, b),
{
    let x = Double::from_bits(a as u128);
    let y = Double::from_bits(b as u128);
    (x + y).value.to_bits() as u64
}

/// Relies on `rustc_apfloat::ieee::Double`: `from_bits`, the `Sub` impl and `to_bits`.
#[verifier::external_body]
pub fn sub_bits(a: u64, b: u64) -> (r: u64)
    ensures
        r == f64_sub(a, b),
{
    let x = Double::from_bits(a as u128);
    let y = Double::from_bits(b as u128);
    (x - y).value.to_bits() as u64
}

/// Relies on `rustc_apfloat::ieee::Double`: `from_bits`, the `Mul` impl and `to_bits`.
#[verifier::external_body]
pub fn mul_bits(a: u64, b: u64) -> (r: u64)
    ensures
        r == f64_mul(a, b),
{
    let x = Double::from_bits(a as u128);
    let y = Double::from_bits(b as u128);
    (x * y).value.to_bits() as u64
}

/// Relies on `rustc_apfloat::ieee::Double`: `from_bits`, the `Div` impl and `to_bits`.
#[verifier::external_body]
pub fn div_bits(a: u64, b: u64) -> (r: u64)
    ensures
        r == f64_div(a, b),
{
    let x = Double::from_bits(a as u128);
    let y = Double::from_bits(b as u128);
    (x / y).value.to_bits() as u64
}

/// Relies on `rustc_apfloat::ieee::Double::partial_cmp`, which implements the
/// IEEE-754 comparison predicate and returns `None` exactly when one operand
/// is NaN; the four cases are encoded as 0, 1, 2, 3.
#[verifier::external_body]
pub fn cmp_bits(a: u64, b: u64) -> (r: u8)
    ensures
        r == f64_cmp(a, b),
        r <= 3,
{
    let x = Double::from_bits(a as u128);
    let y = Double::from_bits(b as u128);
    match x.partial_cmp(&y) {
        Some(core::cmp::Ordering::Less) => 0,
        Some(core::cmp::Ordering::Equal) => 1,
        Some(core::cmp::Ordering::Greater) => 2,
        None => 3,
    }
}

/// Relies on the `core::fmt::Display` impl of `rustc_apfloat::ieee::Double`,
/// which prints the value's decimal form ("42", "2.5", "NaN").
#[verifier::external_body]
pub fn display_bits(b: u64) -> (r: String)
    ensures
        r@ == f64_display(b),
{
    let x = Double::from_bits(b as u128);
    format!("{}", x)
}

/// Relies on the `core::str::FromStr` impl of `rustc_apfloat::ieee::Double`,
/// which converts decimal text to the nearest binary64 value; text it cannot
/// parse is mapped to the zero bit pattern.
#[verifier::external_body]
pub fn parse_bits(s: &str) -> (r: u64)
    ensures
        r == f64_parse(s@),
{
    match s.parse::<Double>() {
        Ok(d) => d.to_bits() as u64,
        Err(_) => 0,
    }
}

/// Relies on `rustc_apfloat::ieee::Double::from_u128` (round to nearest,
/// ties to even) and `to_bits`.
#[verifier::external_body]
pub fn u64_bits(n: u64) -> (r: u64)
    ensures
        r == f64_of_u64(n),
{
    Double::from_u128(n as u128).value.to_bits() as u64
}

/// IEEE-754 negation: flips the sign bit of `b` and changes nothing else.
pub fn neg_bits(b: u64) -> (r: u64)
    ensures
        r == f64_neg(b),
{
    b ^ 0x8000_0000_0000_0000
}

/// Relies on `std::time::SystemTime::now` and `duration_since` to read the
/// wall clock; the number of whole seconds since the Unix epoch, or zero if
/// the clock reads earlier than the epoch.  Nothing can be promised of the
/// value.
#[verifier::external_body]
pub fn clock_seconds() -> u64 {
    match std::time::SystemTime::now().duration_since(std::time::SystemTime::UNIX_EPOCH) {
        Ok(d) => d.as_secs(),
        Err(_) => 0,
    }
}

} // verus!
