//! SI units used in air navigation.
//!
//! See ICAO Annex 5 Chapter 3.

use crate::binary64;
use crate::binary64::{abs_bits, add_bits, cmp_bits, eq_bits, sub_bits, POS_ZERO, SIGN_MASK};
use crate::codec;
use crate::codec::{bits_of_text, is_number, text_of_bits, DecodeError};
use vstd::prelude::*;
use vstd::string::StringSliceAdditionalSpecFns;

verus! {

/// A `Metres` `newtype` for representing distance.
///
/// The field holds the IEEE-754 binary64 bit pattern of the distance in
/// metres.
#[derive(Clone, Copy, Debug)]
pub struct Metres(pub u64);

impl Metres {
    /// The absolute value.
    pub fn abs(self) -> (r: Self)
        ensures
            r.0 == abs_bits(self.0),
    {
        Metres(self.0 & SIGN_MASK)
    }

    /// Adds `other` to the value in place; the same as `*self = *self + other`.
    pub fn add_assign(&mut self, other: Self)
        ensures
            final(self).0 == add_bits(old(self).0, other.0),
    {
        *self = *self + other;
    }

    /// Subtracts `other` from the value in place; the same as
    /// `*self = *self - other`.
    pub fn sub_assign(&mut self, other: Self)
        ensures
            final(self).0 == sub_bits(old(self).0, other.0),
    {
        *self = *self - other;
    }

    /// The value in its interchange form: a bare decimal number.
    pub fn to_text(&self) -> (r: String)
        ensures
            r@ == text_of_bits(self.0),
    {
        codec::encode(self.0)
    }

    /// Reads a value from its interchange form, a bare decimal number; text
    /// outside the number grammar is refused.
    pub fn from_text(s: &str) -> (r: Result<Self, DecodeError>)
        ensures
            !is_number(s.spec_bytes()) ==> r == Err::<Metres, DecodeError>(DecodeError),
            is_number(s.spec_bytes()) ==> (match bits_of_text(s.spec_bytes()) {
                Some(b) => r == Ok::<Metres, DecodeError>(Metres(b)),
                None => r == Err::<Metres, DecodeError>(DecodeError),
            }),
    {
        match codec::decode_bits(s) {
            Ok(b) => Ok(Metres(b)),
            Err(e) => Err(e),
        }
    }
}

impl Default for Metres {
    /// The zero distance.
    fn default() -> (r: Self)
        ensures
            r.0 == POS_ZERO,
    {
        Metres(POS_ZERO)
    }
}

impl core::ops::Add for Metres {
    type Output = Metres;

    fn add(self, rhs: Self) -> (r: Self) {
        Metres(binary64::add(self.0, rhs.0))
    }
}

impl vstd::std_specs::ops::AddSpecImpl for Metres {
    open spec fn obeys_add_spec() -> bool {
        true
    }

    open spec fn add_req(self, rhs: Self) -> bool {
        true
    }

    open spec fn add_spec(self, rhs: Self) -> Self {
        Metres(add_bits(self.0, rhs.0))
    }
}

impl core::ops::Sub for Metres {
    type Output = Metres;

    fn sub(self, rhs: Self) -> (r: Self) {
        Metres(binary64::sub(self.0, rhs.0))
    }
}

impl vstd::std_specs::ops::SubSpecImpl for Metres {
    open spec fn obeys_sub_spec() -> bool {
        true
    }

    open spec fn sub_req(self, rhs: Self) -> bool {
        true
    }

    open spec fn sub_spec(self, rhs: Self) -> Self {
        Metres(sub_bits(self.0, rhs.0))
    }
}

impl core::ops::Neg for Metres {
    type Output = Metres;

    fn neg(self) -> (r: Self) {
        Metres(binary64::sub(POS_ZERO, self.0))
    }
}

impl vstd::std_specs::ops::NegSpecImpl for Metres {
    open spec fn obeys_neg_spec() -> bool {
        true
    }

    open spec fn neg_req(self) -> bool {
        true
    }

    open spec fn neg_spec(self) -> Self {
        Metres(sub_bits(POS_ZERO, self.0))
    }
}

impl PartialEq for Metres {
    fn eq(&self, other: &Self) -> (r: bool) {
        binary64::eq(self.0, other.0)
    }
}

impl vstd::std_specs::cmp::PartialEqSpecImpl for Metres {
    open spec fn obeys_eq_spec() -> bool {
        true
    }

    open spec fn eq_spec(&self, other: &Self) -> bool {
        eq_bits(self.0, other.0)
    }
}

impl PartialOrd for Metres {
    fn partial_cmp(&self, other: &Self) -> (r: Option<core::cmp::Ordering>) {
        binary64::partial_cmp(self.0, other.0)
    }
}

impl vstd::std_specs::cmp::PartialOrdSpecImpl for Metres {
    open spec fn obeys_partial_cmp_spec() -> bool {
        true
    }

    open spec fn partial_cmp_spec(&self, other: &Self) -> Option<core::cmp::Ordering> {
        cmp_bits(self.0, other.0)
    }
}

/// A `MetresPerSecond` `newtype` for representing speed.
///
/// The field holds the IEEE-754 binary64 bit pattern of the speed in metres
/// per second.
#[derive(Clone, Copy, Debug)]
pub struct MetresPerSecond(pub u64);

impl MetresPerSecond {
    /// The absolute value.
    pub fn abs(self) -> (r: Self)
        ensures
            r.0 == abs_bits(self.0),
    {
        MetresPerSecond(self.0 & SIGN_MASK)
    }

    /// Adds `other` to the value in place; the same as `*self = *self + other`.
    pub fn add_assign(&mut self, other: Self)
        ensures
            final(self).0 == add_bits(old(self).0, other.0),
    {
        *self = *self + other;
    }

    /// Subtracts `other` from the value in place; the same as
    /// `*self = *self - other`.
    pub fn sub_assign(&mut self, other: Self)
        ensures
            final(self).0 == sub_bits(old(self).0, other.0),
    {
        *self = *self - other;
    }

    /// The value in its interchange form: a bare decimal number.
    pub fn to_text(&self) -> (r: String)
        ensures
            r@ == text_of_bits(self.0),
    {
        codec::encode(self.0)
    }

    /// Reads a value from its interchange form, a bare decimal number; text
    /// outside the number grammar is refused.
    pub fn from_text(s: &str) -> (r: Result<Self, DecodeError>)
        ensures
            !is_number(s.spec_bytes()) ==> r == Err::<MetresPerSecond, DecodeError>(DecodeError),
            is_number(s.spec_bytes()) ==> (match bits_of_text(s.spec_bytes()) {
                Some(b) => r == Ok::<MetresPerSecond, DecodeError>(MetresPerSecond(b)),
                None => r == Err::<MetresPerSecond, DecodeError>(DecodeError),
            }),
    {
        match codec::decode_bits(s) {
            Ok(b) => Ok(MetresPerSecond(b)),
            Err(e) => Err(e),
        }
    }
}

impl Default for MetresPerSecond {
    /// The zero speed.
    fn default() -> (r: Self)
        ensures
            r.0 == POS_ZERO,
    {
        MetresPerSecond(POS_ZERO)
    }
}

impl core::ops::Add for MetresPerSecond {
    type Output = MetresPerSecond;

    fn add(self, rhs: Self) -> (r: Self) {
        MetresPerSecond(binary64::add(self.0, rhs.0))
    }
}

impl vstd::std_specs::ops::AddSpecImpl for MetresPerSecond {
    open spec fn obeys_add_spec() -> bool {
        true
    }

    open spec fn add_req(self, rhs: Self) -> bool {
        true
    }

    open spec fn add_spec(self, rhs: Self) -> Self {
        MetresPerSecond(add_bits(self.0, rhs.0))
    }
}

impl core::ops::Sub for MetresPerSecond {
    type Output = MetresPerSecond;

    fn sub(self, rhs: Self) -> (r: Self) {
        MetresPerSecond(binary64::sub(self.0, rhs.0))
    }
}

impl vstd::std_specs::ops::SubSpecImpl for MetresPerSecond {
    open spec fn obeys_sub_spec() -> bool {
        true
    }

    open spec fn sub_req(self, rhs: Self) -> bool {
        true
    }

    open spec fn sub_spec(self, rhs: Self) -> Self {
        MetresPerSecond(sub_bits(self.0, rhs.0))
    }
}

impl core::ops::Neg for MetresPerSecond {
    type Output = MetresPerSecond;

    fn neg(self) -> (r: Self) {
        MetresPerSecond(binary64::sub(POS_ZERO, self.0))
    }
}

impl vstd::std_specs::ops::NegSpecImpl for MetresPerSecond {
    open spec fn obeys_neg_spec() -> bool {
        true
    }

    open spec fn neg_req(self) -> bool {
        true
    }

    open spec fn neg_spec(self) -> Self {
        MetresPerSecond(sub_bits(POS_ZERO, self.0))
    }
}

impl PartialEq for MetresPerSecond {
    fn eq(&self, other: &Self) -> (r: bool) {
        binary64::eq(self.0, other.0)
    }
}

impl vstd::std_specs::cmp::PartialEqSpecImpl for MetresPerSecond {
    open spec fn obeys_eq_spec() -> bool {
        true
    }

    open spec fn eq_spec(&self, other: &Self) -> bool {
        eq_bits(self.0, other.0)
    }
}

impl PartialOrd for MetresPerSecond {
    fn partial_cmp(&self, other: &Self) -> (r: Option<core::cmp::Ordering>) {
        binary64::partial_cmp(self.0, other.0)
    }
}

impl vstd::std_specs::cmp::PartialOrdSpecImpl for MetresPerSecond {
    open spec fn obeys_partial_cmp_spec() -> bool {
        true
    }

    open spec fn partial_cmp_spec(&self, other: &Self) -> Option<core::cmp::Ordering> {
        cmp_bits(self.0, other.0)
    }
}

/// A `MetresPerSecondSquared` `newtype` for representing acceleration.
///
/// The field holds the IEEE-754 binary64 bit pattern of the acceleration in
/// metres per second squared.
#[derive(Clone, Copy, Debug)]
pub struct MetresPerSecondSquared(pub u64);

impl MetresPerSecondSquared {
    /// The value in its interchange form: a bare decimal number.
    pub fn to_text(&self) -> (r: String)
        ensures
            r@ == text_of_bits(self.0),
    {
        codec::encode(self.0)
    }

    /// Reads a value from its interchange form, a bare decimal number; text
    /// outside the number grammar is refused.
    pub fn from_text(s: &str) -> (r: Result<Self, DecodeError>)
        ensures
            !is_number(s.spec_bytes()) ==> r == Err::<MetresPerSecondSquared, DecodeError>(
                DecodeError,
            ),
            is_number(s.spec_bytes()) ==> (match bits_of_text(s.spec_bytes()) {
                Some(b) => r == Ok::<MetresPerSecondSquared, DecodeError>(MetresPerSecondSquared(b)),
                None => r == Err::<MetresPerSecondSquared, DecodeError>(DecodeError),
            }),
    {
        match codec::decode_bits(s) {
            Ok(b) => Ok(MetresPerSecondSquared(b)),
            Err(e) => Err(e),
        }
    }
}

impl Default for MetresPerSecondSquared {
    /// The zero acceleration.
    fn default() -> (r: Self)
        ensures
            r.0 == POS_ZERO,
    {
        MetresPerSecondSquared(POS_ZERO)
    }
}

impl PartialEq for MetresPerSecondSquared {
    fn eq(&self, other: &Self) -> (r: bool) {
        binary64::eq(self.0, other.0)
    }
}

impl vstd::std_specs::cmp::PartialEqSpecImpl for MetresPerSecondSquared {
    open spec fn obeys_eq_spec() -> bool {
        true
    }

    open spec fn eq_spec(&self, other: &Self) -> bool {
        eq_bits(self.0, other.0)
    }
}

impl PartialOrd for MetresPerSecondSquared {
    fn partial_cmp(&self, other: &Self) -> (r: Option<core::cmp::Ordering>) {
        binary64::partial_cmp(self.0, other.0)
    }
}

impl vstd::std_specs::cmp::PartialOrdSpecImpl for MetresPerSecondSquared {
    open spec fn obeys_partial_cmp_spec() -> bool {
        true
    }

    open spec fn partial_cmp_spec(&self, other: &Self) -> Option<core::cmp::Ordering> {
        cmp_bits(self.0, other.0)
    }
}

/// A `Kelvin` `newtype` for representing temperature.
///
/// The field holds the IEEE-754 binary64 bit pattern of the temperature in
/// kelvins.
#[derive(Clone, Copy, Debug)]
pub struct Kelvin(pub u64);

impl Kelvin {
    /// Adds `other` to the value in place; the same as `*self = *self + other`.
    pub fn add_assign(&mut self, other: Self)
        ensures
            final(self).0 == add_bits(old(self).0, other.0),
    {
        *self = *self + other;
    }

    /// Subtracts `other` from the value in place; the same as
    /// `*self = *self - other`.
    pub fn sub_assign(&mut self, other: Self)
        ensures
            final(self).0 == sub_bits(old(self).0, other.0),
    {
        *self = *self - other;
    }

    /// The value in its interchange form: a bare decimal number.
    pub fn to_text(&self) -> (r: String)
        ensures
            r@ == text_of_bits(self.0),
    {
        codec::encode(self.0)
    }

    /// Reads a value from its interchange form, a bare decimal number; text
    /// outside the number grammar is refused.
    pub fn from_text(s: &str) -> (r: Result<Self, DecodeError>)
        ensures
            !is_number(s.spec_bytes()) ==> r == Err::<Kelvin, DecodeError>(DecodeError),
            is_number(s.spec_bytes()) ==> (match bits_of_text(s.spec_bytes()) {
                Some(b) => r == Ok::<Kelvin, DecodeError>(Kelvin(b)),
                None => r == Err::<Kelvin, DecodeError>(DecodeError),
            }),
    {
        match codec::decode_bits(s) {
            Ok(b) => Ok(Kelvin(b)),
            Err(e) => Err(e),
        }
    }
}

impl core::ops::Add for Kelvin {
    type Output = Kelvin;

    fn add(self, rhs: Self) -> (r: Self) {
        Kelvin(binary64::add(self.0, rhs.0))
    }
}

impl vstd::std_specs::ops::AddSpecImpl for Kelvin {
    open spec fn obeys_add_spec() -> bool {
        true
    }

    open spec fn add_req(self, rhs: Self) -> bool {
        true
    }

    open spec fn add_spec(self, rhs: Self) -> Self {
        Kelvin(add_bits(self.0, rhs.0))
    }
}

impl core::ops::Sub for Kelvin {
    type Output = Kelvin;

    fn sub(self, rhs: Self) -> (r: Self) {
        Kelvin(binary64::sub(self.0, rhs.0))
    }
}

impl vstd::std_specs::ops::SubSpecImpl for Kelvin {
    open spec fn obeys_sub_spec() -> bool {
        true
    }

    open spec fn sub_req(self, rhs: Self) -> bool {
        true
    }

    open spec fn sub_spec(self, rhs: Self) -> Self {
        Kelvin(sub_bits(self.0, rhs.0))
    }
}

impl core::ops::Neg for Kelvin {
    type Output = Kelvin;

    fn neg(self) -> (r: Self) {
        Kelvin(binary64::sub(POS_ZERO, self.0))
    }
}

impl vstd::std_specs::ops::NegSpecImpl for Kelvin {
    open spec fn obeys_neg_spec() -> bool {
        true
    }

    open spec fn neg_req(self) -> bool {
        true
    }

    open spec fn neg_spec(self) -> Self {
        Kelvin(sub_bits(POS_ZERO, self.0))
    }
}

impl PartialEq for Kelvin {
    fn eq(&self, other: &Self) -> (r: bool) {
        binary64::eq(self.0, other.0)
    }
}

impl vstd::std_specs::cmp::PartialEqSpecImpl for Kelvin {
    open spec fn obeys_eq_spec() -> bool {
        true
    }

    open spec fn eq_spec(&self, other: &Self) -> bool {
        eq_bits(self.0, other.0)
    }
}

impl PartialOrd for Kelvin {
    fn partial_cmp(&self, other: &Self) -> (r: Option<core::cmp::Ordering>) {
        binary64::partial_cmp(self.0, other.0)
    }
}

impl vstd::std_specs::cmp::PartialOrdSpecImpl for Kelvin {
    open spec fn obeys_partial_cmp_spec() -> bool {
        true
    }

    open spec fn partial_cmp_spec(&self, other: &Self) -> Option<core::cmp::Ordering> {
        cmp_bits(self.0, other.0)
    }
}

/// A `Pascals` `newtype` for representing pressure.
///
/// The field holds the IEEE-754 binary64 bit pattern of the pressure in
/// pascals.
#[derive(Clone, Copy, Debug)]
pub struct Pascals(pub u64);

impl Pascals {
    /// The value in its interchange form: a bare decimal number.
    pub fn to_text(&self) -> (r: String)
        ensures
            r@ == text_of_bits(self.0),
    {
        codec::encode(self.0)
    }

    /// Reads a value from its interchange form, a bare decimal number; text
    /// outside the number grammar is refused.
    pub fn from_text(s: &str) -> (r: Result<Self, DecodeError>)
        ensures
            !is_number(s.spec_bytes()) ==> r == Err::<Pascals, DecodeError>(DecodeError),
            is_number(s.spec_bytes()) ==> (match bits_of_text(s.spec_bytes()) {
                Some(b) => r == Ok::<Pascals, DecodeError>(Pascals(b)),
                None => r == Err::<Pascals, DecodeError>(DecodeError),
            }),
    {
        match codec::decode_bits(s) {
            Ok(b) => Ok(Pascals(b)),
            Err(e) => Err(e),
        }
    }
}

impl PartialEq for Pascals {
    fn eq(&self, other: &Self) -> (r: bool) {
        binary64::eq(self.0, other.0)
    }
}

impl vstd::std_specs::cmp::PartialEqSpecImpl for Pascals {
    open spec fn obeys_eq_spec() -> bool {
        true
    }

    open spec fn eq_spec(&self, other: &Self) -> bool {
        eq_bits(self.0, other.0)
    }
}

impl PartialOrd for Pascals {
    fn partial_cmp(&self, other: &Self) -> (r: Option<core::cmp::Ordering>) {
        binary64::partial_cmp(self.0, other.0)
    }
}

impl vstd::std_specs::cmp::PartialOrdSpecImpl for Pascals {
    open spec fn obeys_partial_cmp_spec() -> bool {
        true
    }

    open spec fn partial_cmp_spec(&self, other: &Self) -> Option<core::cmp::Ordering> {
        cmp_bits(self.0, other.0)
    }
}

/// A `Kilograms` `newtype` for representing mass.
///
/// The field holds the IEEE-754 binary64 bit pattern of the mass in
/// kilograms.
#[derive(Clone, Copy, Debug)]
pub struct Kilograms(pub u64);

impl Kilograms {
    /// Adds `other` to the value in place; the same as `*self = *self + other`.
    pub fn add_assign(&mut self, other: Self)
        ensures
            final(self).0 == add_bits(old(self).0, other.0),
    {
        *self = *self + other;
    }

    /// Subtracts `other` from the value in place; the same as
    /// `*self = *self - other`.
    pub fn sub_assign(&mut self, other: Self)
        ensures
            final(self).0 == sub_bits(old(self).0, other.0),
    {
        *self = *self - other;
    }

    /// The value in its interchange form: a bare decimal number.
    pub fn to_text(&self) -> (r: String)
        ensures
            r@ == text_of_bits(self.0),
    {
        codec::encode(self.0)
    }

    /// Reads a value from its interchange form, a bare decimal number; text
    /// outside the number grammar is refused.
    pub fn from_text(s: &str) -> (r: Result<Self, DecodeError>)
        ensures
            !is_number(s.spec_bytes()) ==> r == Err::<Kilograms, DecodeError>(DecodeError),
            is_number(s.spec_bytes()) ==> (match bits_of_text(s.spec_bytes()) {
                Some(b) => r == Ok::<Kilograms, DecodeError>(Kilograms(b)),
                None => r == Err::<Kilograms, DecodeError>(DecodeError),
            }),
    {
        match codec::decode_bits(s) {
            Ok(b) => Ok(Kilograms(b)),
            Err(e) => Err(e),
        }
    }
}

impl Default for Kilograms {
    /// The zero mass.
    fn default() -> (r: Self)
        ensures
            r.0 == POS_ZERO,
    {
        Kilograms(POS_ZERO)
    }
}

impl core::ops::Add for Kilograms {
    type Output = Kilograms;

    fn add(self, rhs: Self) -> (r: Self) {
        Kilograms(binary64::add(self.0, rhs.0))
    }
}

impl vstd::std_specs::ops::AddSpecImpl for Kilograms {
    open spec fn obeys_add_spec() -> bool {
        true
    }

    open spec fn add_req(self, rhs: Self) -> bool {
        true
    }

    open spec fn add_spec(self, rhs: Self) -> Self {
        Kilograms(add_bits(self.0, rhs.0))
    }
}

impl core::ops::Sub for Kilograms {
    type Output = Kilograms;

    fn sub(self, rhs: Self) -> (r: Self) {
        Kilograms(binary64::sub(self.0, rhs.0))
    }
}

impl vstd::std_specs::ops::SubSpecImpl for Kilograms {
    open spec fn obeys_sub_spec() -> bool {
        true
    }

    open spec fn sub_req(self, rhs: Self) -> bool {
        true
    }

    open spec fn sub_spec(self, rhs: Self) -> Self {
        Kilograms(sub_bits(self.0, rhs.0))
    }
}

impl core::ops::Neg for Kilograms {
    type Output = Kilograms;

    fn neg(self) -> (r: Self) {
        Kilograms(binary64::sub(POS_ZERO, self.0))
    }
}

impl vstd::std_specs::ops::NegSpecImpl for Kilograms {
    open spec fn obeys_neg_spec() -> bool {
        true
    }

    open spec fn neg_req(self) -> bool {
        true
    }

    open spec fn neg_spec(self) -> Self {
        Kilograms(sub_bits(POS_ZERO, self.0))
    }
}

impl PartialEq for Kilograms {
    fn eq(&self, other: &Self) -> (r: bool) {
        binary64::eq(self.0, other.0)
    }
}

impl vstd::std_specs::cmp::PartialEqSpecImpl for Kilograms {
    open spec fn obeys_eq_spec() -> bool {
        true
    }

    open spec fn eq_spec(&self, other: &Self) -> bool {
        eq_bits(self.0, other.0)
    }
}

impl PartialOrd for Kilograms {
    fn partial_cmp(&self, other: &Self) -> (r: Option<core::cmp::Ordering>) {
        binary64::partial_cmp(self.0, other.0)
    }
}

impl vstd::std_specs::cmp::PartialOrdSpecImpl for Kilograms {
    open spec fn obeys_partial_cmp_spec() -> bool {
        true
    }

    open spec fn partial_cmp_spec(&self, other: &Self) -> Option<core::cmp::Ordering> {
        cmp_bits(self.0, other.0)
    }
}

/// A `KilogramsPerCubicMetre` `newtype` for representing density.
///
/// The field holds the IEEE-754 binary64 bit pattern of the density in
/// kilograms per cubic metre.
#[derive(Clone, Copy, Debug)]
pub struct KilogramsPerCubicMetre(pub u64);

impl KilogramsPerCubicMetre {
    /// The value in its interchange form: a bare decimal number.
    pub fn to_text(&self) -> (r: String)
        ensures
            r@ == text_of_bits(self.0),
    {
        codec::encode(self.0)
    }

    /// Reads a value from its interchange form, a bare decimal number; text
    /// outside the number grammar is refused.
    pub fn from_text(s: &str) -> (r: Result<Self, DecodeError>)
        ensures
            !is_number(s.spec_bytes()) ==> r == Err::<KilogramsPerCubicMetre, DecodeError>(
                DecodeError,
            ),
            is_number(s.spec_bytes()) ==> (match bits_of_text(s.spec_bytes()) {
                Some(b) => r == Ok::<KilogramsPerCubicMetre, DecodeError>(
                    KilogramsPerCubicMetre(b),
                ),
                None => r == Err::<KilogramsPerCubicMetre, DecodeError>(DecodeError),
            }),
    {
        match codec::decode_bits(s) {
            Ok(b) => Ok(KilogramsPerCubicMetre(b)),
            Err(e) => Err(e),
        }
    }
}

impl PartialEq for KilogramsPerCubicMetre {
    fn eq(&self, other: &Self) -> (r: bool) {
        binary64::eq(self.0, other.0)
    }
}

impl vstd::std_specs::cmp::PartialEqSpecImpl for KilogramsPerCubicMetre {
    open spec fn obeys_eq_spec() -> bool {
        true
    }

    open spec fn eq_spec(&self, other: &Self) -> bool {
        eq_bits(self.0, other.0)
    }
}

impl PartialOrd for KilogramsPerCubicMetre {
    fn partial_cmp(&self, other: &Self) -> (r: Option<core::cmp::Ordering>) {
        binary64::partial_cmp(self.0, other.0)
    }
}

impl vstd::std_specs::cmp::PartialOrdSpecImpl for KilogramsPerCubicMetre {
    open spec fn obeys_partial_cmp_spec() -> bool {
        true
    }

    open spec fn partial_cmp_spec(&self, other: &Self) -> Option<core::cmp::Ordering> {
        cmp_bits(self.0, other.0)
    }
}

} // verus!
