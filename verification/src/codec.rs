//! Decimal text form of binary64 bit patterns.
//!
//! Quantities are interchanged as a bare decimal number: a JSON-compatible
//! numeric literal with no envelope or unit tag. This module holds that
//! number grammar as a specification, an executable recogniser verified
//! against it, and the trusted calls into `rustc_apfloat` that convert
//! between a numeral and the binary64 bit pattern it denotes.

use rustc_apfloat::Float;
use rustc_apfloat::ieee::Double;
use vstd::prelude::*;
use vstd::string::StringSliceAdditionalSpecFns;

verus! {

/// The error returned when decoding a quantity value from text fails.
#[derive(Clone, Copy, Debug, PartialEq, Eq, Structural)]
pub struct DecodeError;

/// Whether `b` is the code of a decimal digit.
pub open spec fn is_digit(b: u8) -> bool {
    0x30 <= b && b <= 0x39
}

/// The first position at or after `i` that does not hold a decimal digit,
/// or the end of `bs` where digits reach it.
pub open spec fn digits_end(bs: Seq<u8>, i: int) -> int
    decreases bs.len() - i,
{
    if 0 <= i && i < bs.len() && is_digit(bs[i]) {
        digits_end(bs, i + 1)
    } else {
        i
    }
}

/// The position after the optional leading minus sign.
pub open spec fn sign_end(bs: Seq<u8>) -> int {
    if bs.len() > 0 && bs[0] == 0x2D {
        1
    } else {
        0
    }
}

/// The position after the integer part: a single `0`, or digits with no
/// leading zero. Equal to `sign_end(bs)` where there is no integer part.
pub open spec fn int_part_end(bs: Seq<u8>) -> int {
    let i = sign_end(bs);
    if i < bs.len() && bs[i] == 0x30 {
        i + 1
    } else {
        digits_end(bs, i)
    }
}

/// The position after the optional fraction part at `i`: a point followed
/// by at least one digit. Equal to `i` where there is none.
pub open spec fn frac_end(bs: Seq<u8>, i: int) -> int {
    if i < bs.len() && bs[i] == 0x2E && digits_end(bs, i + 1) > i + 1 {
        digits_end(bs, i + 1)
    } else {
        i
    }
}

/// The position after the optional exponent part at `i`: `e` or `E`, an
/// optional sign, and at least one digit. Equal to `i` where there is none.
pub open spec fn exp_end(bs: Seq<u8>, i: int) -> int {
    if i < bs.len() && (bs[i] == 0x65 || bs[i] == 0x45) {
        let j = if i + 1 < bs.len() && (bs[i + 1] == 0x2B || bs[i + 1] == 0x2D) {
            i + 2
        } else {
            i + 1
        };
        if digits_end(bs, j) > j {
            digits_end(bs, j)
        } else {
            i
        }
    } else {
        i
    }
}

/// Whether `bs` is a decimal number: an optional minus sign, an integer
/// part with no leading zero, an optional fraction part and an optional
/// exponent part, with nothing following them.
pub open spec fn is_number(bs: Seq<u8>) -> bool {
    int_part_end(bs) > sign_end(bs) && exp_end(bs, frac_end(bs, int_part_end(bs))) == bs.len()
}

/// The first position at or after `i` in `b` that holds no decimal digit.
fn skip_digits(b: &[u8], i: usize) -> (r: usize)
    requires
        i <= b@.len(),
    ensures
        r == digits_end(b@, i as int),
        i <= r <= b@.len(),
{
    let mut j: usize = i;
    while j < b.len() && 0x30 <= b[j] && b[j] <= 0x39
        invariant
            i <= j <= b@.len(),
            digits_end(b@, i as int) == digits_end(b@, j as int),
        decreases b@.len() - j,
    {
        j = j + 1;
    }
    j
}

/// Whether `s` is a decimal number in the interchange grammar.
pub fn is_number_text(s: &str) -> (r: bool)
    ensures
        r == is_number(s.spec_bytes()),
{
    let b: &[u8] = s.as_bytes();
    let n: usize = b.len();
    let sign: usize = if n > 0 && b[0] == 0x2D {
        1
    } else {
        0
    };
    let ip: usize = if sign < n && b[sign] == 0x30 {
        sign + 1
    } else {
        skip_digits(b, sign)
    };
    if ip == sign {
        return false;
    }
    let fr: usize = if ip < n && b[ip] == 0x2E {
        let d = skip_digits(b, ip + 1);
        if d > ip + 1 {
            d
        } else {
            ip
        }
    } else {
        ip
    };
    let ex: usize = if fr < n && (b[fr] == 0x65 || b[fr] == 0x45) {
        let j: usize = if fr + 1 < n && (b[fr + 1] == 0x2B || b[fr + 1] == 0x2D) {
            fr + 2
        } else {
            fr + 1
        };
        let d = skip_digits(b, j);
        if d > j {
            d
        } else {
            fr
        }
    } else {
        fr
    };
    ex == n
}

/// The decimal numeral that `rustc_apfloat` prints for the binary64 value
/// with bit pattern `a`.
pub uninterp spec fn text_of_bits(a: u64) -> Seq<char>;

/// The binary64 bit pattern that `rustc_apfloat` reads from the numeral
/// with the bytes `bs`, rounded to nearest, or `None` where it reads none.
pub uninterp spec fn bits_of_text(bs: Seq<u8>) -> Option<u64>;

/// Relies on `rustc_apfloat`'s `Display` for `ieee::Double`: a decimal
/// numeral for the value, printed from the bit pattern alone.
#[verifier::external_body]
pub(crate) fn encode(a: u64) -> (r: String)
    ensures
        r@ == text_of_bits(a),
{
    format!("{}", Double::from_bits(a as u128))
}

/// Relies on `rustc_apfloat`'s `FromStr` for `ieee::Double`: reads a
/// decimal numeral of the form `dddd.dddd[eE][+-]ddd` to the nearest
/// binary64 value, and errs on empty or otherwise malformed text rather
/// than panicking.
#[verifier::external_body]
pub(crate) fn parse(s: &str) -> (r: Option<u64>)
    ensures
        r == bits_of_text(s.spec_bytes()),
{
    match s.parse::<Double>() {
        Ok(d) => Some(d.to_bits() as u64),
        Err(_) => None,
    }
}

/// Reads a binary64 bit pattern from its interchange form, a bare decimal
/// number; text outside the number grammar is refused.
pub fn decode_bits(s: &str) -> (r: Result<u64, DecodeError>)
    ensures
        !is_number(s.spec_bytes()) ==> r == Err::<u64, DecodeError>(DecodeError),
        is_number(s.spec_bytes()) ==> (match bits_of_text(s.spec_bytes()) {
            Some(b) => r == Ok::<u64, DecodeError>(b),
            None => r == Err::<u64, DecodeError>(DecodeError),
        }),
{
    if !is_number_text(s) {
        return Err(DecodeError);
    }
    match parse(s) {
        Some(b) => Ok(b),
        None => Err(DecodeError),
    }
}

} // verus!
