//! IEEE-754 binary64 arithmetic over raw bit patterns.
//!
//! The quantity types of this crate store a value as the bit pattern of an
//! IEEE-754 binary64 number, held in a `u64`. Arithmetic and comparison on
//! such values are carried out by `rustc_apfloat`, a software implementation
//! of IEEE-754 arithmetic, rounding to nearest with ties to even. This module
//! wraps those calls and names their results, so that the quantity types'
//! contracts can speak about them.

use rustc_apfloat::Float;
use rustc_apfloat::ieee::Double;
use vstd::prelude::*;

verus! {

/// The bit pattern of positive zero.
pub const POS_ZERO: u64 = 0;

/// The bit pattern of one half.
pub const ONE_HALF: u64 = 0x3FE0_0000_0000_0000;

/// Mask of every bit of a binary64 bit pattern but the sign bit.
pub const SIGN_MASK: u64 = 0x7FFF_FFFF_FFFF_FFFF;

/// The bit pattern of the binary64 sum of the values with bit patterns
/// `a` and `b`.
pub uninterp spec fn add_bits(a: u64, b: u64) -> u64;

/// The bit pattern of the binary64 difference of the values with bit
/// patterns `a` and `b`.
pub uninterp spec fn sub_bits(a: u64, b: u64) -> u64;

/// The bit pattern of the binary64 product of the values with bit patterns
/// `a` and `b`.
pub uninterp spec fn mul_bits(a: u64, b: u64) -> u64;

/// The bit pattern of the binary64 quotient of the values with bit patterns
/// `a` and `b`.
pub uninterp spec fn div_bits(a: u64, b: u64) -> u64;

/// How the values with bit patterns `a` and `b` compare in the IEEE-754
/// partial order: `None` exactly when the two values are unordered.
pub uninterp spec fn cmp_bits(a: u64, b: u64) -> Option<core::cmp::Ordering>;

/// Whether the values with bit patterns `a` and `b` are equal as binary64
/// numbers. This is value equality, not bit equality: positive and negative
/// zero are equal, and nothing is equal to a not-a-number value.
pub open spec fn eq_bits(a: u64, b: u64) -> bool {
    cmp_bits(a, b) == Some(core::cmp::Ordering::Equal)
}

/// Whether the value with bit pattern `a` is less than the one with bit
/// pattern `b` as binary64 numbers.
pub open spec fn lt_bits(a: u64, b: u64) -> bool {
    cmp_bits(a, b) == Some(core::cmp::Ordering::Less)
}

/// The bit pattern of the absolute value of the value with bit pattern `a`:
/// the same pattern with the sign bit cleared.
pub open spec fn abs_bits(a: u64) -> u64 {
    a & SIGN_MASK
}

/// An absolute value never carries a minus sign: the absolute value of any
/// bit pattern has a clear sign bit, so it is a non-negative number or a
/// quiet not-a-number, and taking the absolute value twice is the same as
/// taking it once.
pub proof fn lemma_abs_bits(a: u64)
    ensures
        abs_bits(a) < 0x8000_0000_0000_0000,
        abs_bits(abs_bits(a)) == abs_bits(a),
{
    assert((a & 0x7FFF_FFFF_FFFF_FFFFu64) < 0x8000_0000_0000_0000u64) by (bit_vector);
    assert((a & 0x7FFF_FFFF_FFFF_FFFFu64) & 0x7FFF_FFFF_FFFF_FFFFu64 == a
        & 0x7FFF_FFFF_FFFF_FFFFu64) by (bit_vector);
}

/// Relies on `rustc_apfloat`'s `Add` for `ieee::Double`: binary64 addition,
/// rounding to nearest, ties to even.
#[verifier::external_body]
pub(crate) fn add(a: u64, b: u64) -> (r: u64)
    ensures
        r == add_bits(a, b),
{
    let x = Double::from_bits(a as u128);
    let y = Double::from_bits(b as u128);
    (x + y).value.to_bits() as u64
}

/// Relies on `rustc_apfloat`'s `Sub` for `ieee::Double`: binary64
/// subtraction, rounding to nearest, ties to even.
#[verifier::external_body]
pub(crate) fn sub(a: u64, b: u64) -> (r: u64)
    ensures
        r == sub_bits(a, b),
{
    let x = Double::from_bits(a as u128);
    let y = Double::from_bits(b as u128);
    (x - y).value.to_bits() as u64
}

/// Relies on `rustc_apfloat`'s `Mul` for `ieee::Double`: binary64
/// multiplication, rounding to nearest, ties to even.
#[verifier::external_body]
pub(crate) fn mul(a: u64, b: u64) -> (r: u64)
    ensures
        r == mul_bits(a, b),
{
    let x = Double::from_bits(a as u128);
    let y = Double::from_bits(b as u128);
    (x * y).value.to_bits() as u64
}

/// Relies on `rustc_apfloat`'s `Div` for `ieee::Double`: binary64 division,
/// rounding to nearest, ties to even.
#[verifier::external_body]
pub(crate) fn div(a: u64, b: u64) -> (r: u64)
    ensures
        r == div_bits(a, b),
{
    let x = Double::from_bits(a as u128);
    let y = Double::from_bits(b as u128);
    (x / y).value.to_bits() as u64
}

/// Relies on `rustc_apfloat`'s `PartialOrd` for `ieee::Double`: the IEEE-754
/// partial order, in which a not-a-number value compares with nothing.
#[verifier::external_body]
pub(crate) fn partial_cmp(a: u64, b: u64) -> (r: Option<core::cmp::Ordering>)
    ensures
        r == cmp_bits(a, b),
{
    Double::from_bits(a as u128).partial_cmp(&Double::from_bits(b as u128))
}

/// Relies on `rustc_apfloat`'s `PartialEq` for `ieee::Double`, which is
/// defined as its `partial_cmp` returning `Equal`.
#[verifier::external_body]
pub(crate) fn eq(a: u64, b: u64) -> (r: bool)
    ensures
        r == eq_bits(a, b),
{
    Double::from_bits(a as u128) == Double::from_bits(b as u128)
}

} // verus!
