//! Non-SI units used in air navigation and conversions to their SI
//! equivalents.
//!
//! See ICAO Annex 5 Chapter 3, Table 3-3 and Chapter 4, Table 4-1.

use crate::binary64;
use crate::binary64::{
    abs_bits, add_bits, cmp_bits, div_bits, eq_bits, mul_bits, sub_bits, ONE_HALF, POS_ZERO,
    SIGN_MASK,
};
use crate::codec;
use crate::codec::{bits_of_text, is_number, text_of_bits, DecodeError};
use crate::si;
use vstd::prelude::*;
use vstd::string::StringSliceAdditionalSpecFns;

verus! {

/// The length of a nautical mile (NM) in metres (m): the bit pattern of the
/// binary64 value 1852.
///
/// Definition from ICAO Annex 5 Table 3-3.
pub const METRES_PER_NAUTICAL_MILE: u64 = 0x409C_F000_0000_0000;

/// The length of a foot (ft) in metres (m): the bit pattern of the binary64
/// value 0.3048.
///
/// Definition from ICAO Annex 5 Table 3-3.
pub const METRES_PER_FOOT: u64 = 0x3FD3_81D7_DBF4_87FD;

/// The conversion factor to knots (kt) from metres per second (m/s): the
/// bit pattern of the binary64 quotient of the metres in a nautical mile by
/// the seconds in an hour, 1852 / 3600.
///
/// The derived quotient is used because it is more precise than the ICAO
/// definition: 0.514 444.
pub const METRES_PER_SECOND_TO_KNOTS: u64 = 0x3FE0_7654_320F_EDCC;

/// The height of one flight level in feet: the bit pattern of the binary64
/// value 100.
pub const FEET_PER_FLIGHT_LEVEL: u64 = 0x4059_0000_0000_0000;

/// A `NauticalMiles` `newtype` for representing distance.
///
/// Used in navigation, generally for distances in excess of `4 000` m. The
/// field holds the IEEE-754 binary64 bit pattern of the distance in
/// nautical miles.
#[derive(Clone, Copy, Debug)]
pub struct NauticalMiles(pub u64);

impl NauticalMiles {
    /// The absolute value.
    pub fn abs(self) -> (r: Self)
        ensures
            r.0 == abs_bits(self.0),
    {
        NauticalMiles(self.0 & SIGN_MASK)
    }

    /// Half of the value.
    pub fn half(self) -> (r: Self)
        ensures
            r.0 == mul_bits(ONE_HALF, self.0),
    {
        NauticalMiles(binary64::mul(ONE_HALF, self.0))
    }

    /// Adds `other` to the value in place; the same as `*self = *self + other`.
    pub fn add_assign(&mut self, other: Self)
        ensures
            final(self).0 == add_bits(old(self).0, other.0),
    {
        *self = *self + other;
    }

    /// Subtracts `other` from the value in place; the same as
    /// `*self = *self - other`.
    pub fn sub_assign(&mut self, other: Self)
        ensures
            final(self).0 == sub_bits(old(self).0, other.0),
    {
        *self = *self - other;
    }

    /// The value in its interchange form: a bare decimal number.
    pub fn to_text(&self) -> (r: String)
        ensures
            r@ == text_of_bits(self.0),
    {
        codec::encode(self.0)
    }

    /// Reads a value from its interchange form, a bare decimal number; text
    /// outside the number grammar is refused.
    pub fn from_text(s: &str) -> (r: Result<Self, DecodeError>)
        ensures
            !is_number(s.spec_bytes()) ==> r == Err::<NauticalMiles, DecodeError>(DecodeError),
            is_number(s.spec_bytes()) ==> (match bits_of_text(s.spec_bytes()) {
                Some(b) => r == Ok::<NauticalMiles, DecodeError>(NauticalMiles(b)),
                None => r == Err::<NauticalMiles, DecodeError>(DecodeError),
            }),
    {
        match codec::decode_bits(s) {
            Ok(b) => Ok(NauticalMiles(b)),
            Err(e) => Err(e),
        }
    }
}

impl Default for NauticalMiles {
    /// The zero distance.
    fn default() -> (r: Self)
        ensures
            r.0 == POS_ZERO,
    {
        NauticalMiles(POS_ZERO)
    }
}

impl core::ops::Add for NauticalMiles {
    type Output = NauticalMiles;

    fn add(self, rhs: Self) -> (r: Self) {
        NauticalMiles(binary64::add(self.0, rhs.0))
    }
}

impl vstd::std_specs::ops::AddSpecImpl for NauticalMiles {
    open spec fn obeys_add_spec() -> bool {
        true
    }

    open spec fn add_req(self, rhs: Self) -> bool {
        true
    }

    open spec fn add_spec(self, rhs: Self) -> Self {
        NauticalMiles(add_bits(self.0, rhs.0))
    }
}

impl core::ops::Sub for NauticalMiles {
    type Output = NauticalMiles;

    fn sub(self, rhs: Self) -> (r: Self) {
        NauticalMiles(binary64::sub(self.0, rhs.0))
    }
}

impl vstd::std_specs::ops::SubSpecImpl for NauticalMiles {
    open spec fn obeys_sub_spec() -> bool {
        true
    }

    open spec fn sub_req(self, rhs: Self) -> bool {
        true
    }

    open spec fn sub_spec(self, rhs: Self) -> Self {
        NauticalMiles(sub_bits(self.0, rhs.0))
    }
}

impl core::ops::Neg for NauticalMiles {
    type Output = NauticalMiles;

    fn neg(self) -> (r: Self) {
        NauticalMiles(binary64::sub(POS_ZERO, self.0))
    }
}

impl vstd::std_specs::ops::NegSpecImpl for NauticalMiles {
    open spec fn obeys_neg_spec() -> bool {
        true
    }

    open spec fn neg_req(self) -> bool {
        true
    }

    open spec fn neg_spec(self) -> Self {
        NauticalMiles(sub_bits(POS_ZERO, self.0))
    }
}

impl PartialEq for NauticalMiles {
    fn eq(&self, other: &Self) -> (r: bool) {
        binary64::eq(self.0, other.0)
    }
}

impl vstd::std_specs::cmp::PartialEqSpecImpl for NauticalMiles {
    open spec fn obeys_eq_spec() -> bool {
        true
    }

    open spec fn eq_spec(&self, other: &Self) -> bool {
        eq_bits(self.0, other.0)
    }
}

impl PartialOrd for NauticalMiles {
    fn partial_cmp(&self, other: &Self) -> (r: Option<core::cmp::Ordering>) {
        binary64::partial_cmp(self.0, other.0)
    }
}

impl vstd::std_specs::cmp::PartialOrdSpecImpl for NauticalMiles {
    open spec fn obeys_partial_cmp_spec() -> bool {
        true
    }

    open spec fn partial_cmp_spec(&self, other: &Self) -> Option<core::cmp::Ordering> {
        cmp_bits(self.0, other.0)
    }
}

impl From<si::Metres> for NauticalMiles {
    /// The distance in nautical miles: the metres divided by the length of
    /// a nautical mile.
    fn from(a: si::Metres) -> (r: Self) {
        NauticalMiles(binary64::div(a.0, METRES_PER_NAUTICAL_MILE))
    }
}

impl vstd::std_specs::convert::FromSpecImpl<si::Metres> for NauticalMiles {
    open spec fn obeys_from_spec() -> bool {
        true
    }

    open spec fn from_spec(a: si::Metres) -> Self {
        NauticalMiles(div_bits(a.0, METRES_PER_NAUTICAL_MILE))
    }
}

impl From<NauticalMiles> for si::Metres {
    /// The distance in metres: the nautical miles multiplied by the length
    /// of a nautical mile.
    fn from(a: NauticalMiles) -> (r: Self) {
        si::Metres(binary64::mul(a.0, METRES_PER_NAUTICAL_MILE))
    }
}

impl vstd::std_specs::convert::FromSpecImpl<NauticalMiles> for si::Metres {
    open spec fn obeys_from_spec() -> bool {
        true
    }

    open spec fn from_spec(a: NauticalMiles) -> Self {
        si::Metres(mul_bits(a.0, METRES_PER_NAUTICAL_MILE))
    }
}

/// A `Feet` `newtype` for representing altitude.
///
/// Used to report aircraft altitude below the transition altitude. The
/// field holds the IEEE-754 binary64 bit pattern of the altitude in feet.
#[derive(Clone, Copy, Debug)]
pub struct Feet(pub u64);

impl Feet {
    /// The absolute value.
    pub fn abs(self) -> (r: Self)
        ensures
            r.0 == abs_bits(self.0),
    {
        Feet(self.0 & SIGN_MASK)
    }

    /// Half of the value.
    pub fn half(self) -> (r: Self)
        ensures
            r.0 == mul_bits(ONE_HALF, self.0),
    {
        Feet(binary64::mul(ONE_HALF, self.0))
    }

    /// Adds `other` to the value in place; the same as `*self = *self + other`.
    pub fn add_assign(&mut self, other: Self)
        ensures
            final(self).0 == add_bits(old(self).0, other.0),
    {
        *self = *self + other;
    }

    /// Subtracts `other` from the value in place; the same as
    /// `*self = *self - other`.
    pub fn sub_assign(&mut self, other: Self)
        ensures
            final(self).0 == sub_bits(old(self).0, other.0),
    {
        *self = *self - other;
    }

    /// The value in its interchange form: a bare decimal number.
    pub fn to_text(&self) -> (r: String)
        ensures
            r@ == text_of_bits(self.0),
    {
        codec::encode(self.0)
    }

    /// Reads a value from its interchange form, a bare decimal number; text
    /// outside the number grammar is refused.
    pub fn from_text(s: &str) -> (r: Result<Self, DecodeError>)
        ensures
            !is_number(s.spec_bytes()) ==> r == Err::<Feet, DecodeError>(DecodeError),
            is_number(s.spec_bytes()) ==> (match bits_of_text(s.spec_bytes()) {
                Some(b) => r == Ok::<Feet, DecodeError>(Feet(b)),
                None => r == Err::<Feet, DecodeError>(DecodeError),
            }),
    {
        match codec::decode_bits(s) {
            Ok(b) => Ok(Feet(b)),
            Err(e) => Err(e),
        }
    }
}

impl Default for Feet {
    /// The zero altitude.
    fn default() -> (r: Self)
        ensures
            r.0 == POS_ZERO,
    {
        Feet(POS_ZERO)
    }
}

impl core::ops::Add for Feet {
    type Output = Feet;

    fn add(self, rhs: Self) -> (r: Self) {
        Feet(binary64::add(self.0, rhs.0))
    }
}

impl vstd::std_specs::ops::AddSpecImpl for Feet {
    open spec fn obeys_add_spec() -> bool {
        true
    }

    open spec fn add_req(self, rhs: Self) -> bool {
        true
    }

    open spec fn add_spec(self, rhs: Self) -> Self {
        Feet(add_bits(self.0, rhs.0))
    }
}

impl core::ops::Sub for Feet {
    type Output = Feet;

    fn sub(self, rhs: Self) -> (r: Self) {
        Feet(binary64::sub(self.0, rhs.0))
    }
}

impl vstd::std_specs::ops::SubSpecImpl for Feet {
    open spec fn obeys_sub_spec() -> bool {
        true
    }

    open spec fn sub_req(self, rhs: Self) -> bool {
        true
    }

    open spec fn sub_spec(self, rhs: Self) -> Self {
        Feet(sub_bits(self.0, rhs.0))
    }
}

impl core::ops::Neg for Feet {
    type Output = Feet;

    fn neg(self) -> (r: Self) {
        Feet(binary64::sub(POS_ZERO, self.0))
    }
}

impl vstd::std_specs::ops::NegSpecImpl for Feet {
    open spec fn obeys_neg_spec() -> bool {
        true
    }

    open spec fn neg_req(self) -> bool {
        true
    }

    open spec fn neg_spec(self) -> Self {
        Feet(sub_bits(POS_ZERO, self.0))
    }
}

impl PartialEq for Feet {
    fn eq(&self, other: &Self) -> (r: bool) {
        binary64::eq(self.0, other.0)
    }
}

impl vstd::std_specs::cmp::PartialEqSpecImpl for Feet {
    open spec fn obeys_eq_spec() -> bool {
        true
    }

    open spec fn eq_spec(&self, other: &Self) -> bool {
        eq_bits(self.0, other.0)
    }
}

impl PartialOrd for Feet {
    fn partial_cmp(&self, other: &Self) -> (r: Option<core::cmp::Ordering>) {
        binary64::partial_cmp(self.0, other.0)
    }
}

impl vstd::std_specs::cmp::PartialOrdSpecImpl for Feet {
    open spec fn obeys_partial_cmp_spec() -> bool {
        true
    }

    open spec fn partial_cmp_spec(&self, other: &Self) -> Option<core::cmp::Ordering> {
        cmp_bits(self.0, other.0)
    }
}

impl From<si::Metres> for Feet {
    /// The altitude in feet: the metres divided by the length of a foot.
    fn from(a: si::Metres) -> (r: Self) {
        Feet(binary64::div(a.0, METRES_PER_FOOT))
    }
}

impl vstd::std_specs::convert::FromSpecImpl<si::Metres> for Feet {
    open spec fn obeys_from_spec() -> bool {
        true
    }

    open spec fn from_spec(a: si::Metres) -> Self {
        Feet(div_bits(a.0, METRES_PER_FOOT))
    }
}

impl From<Feet> for si::Metres {
    /// The altitude in metres: the feet multiplied by the length of a foot.
    fn from(a: Feet) -> (r: Self) {
        si::Metres(binary64::mul(a.0, METRES_PER_FOOT))
    }
}

impl vstd::std_specs::convert::FromSpecImpl<Feet> for si::Metres {
    open spec fn obeys_from_spec() -> bool {
        true
    }

    open spec fn from_spec(a: Feet) -> Self {
        si::Metres(mul_bits(a.0, METRES_PER_FOOT))
    }
}

/// A `Knots` `newtype` for representing speed.
///
/// A conversion of 1 kt = 0.5 m/s is used in ICAO Annexes for the
/// representation of wind speed. The field holds the IEEE-754 binary64 bit
/// pattern of the speed in knots.
#[derive(Clone, Copy, Debug)]
pub struct Knots(pub u64);

impl Knots {
    /// The absolute value.
    pub fn abs(self) -> (r: Self)
        ensures
            r.0 == abs_bits(self.0),
    {
        Knots(self.0 & SIGN_MASK)
    }

    /// Half of the value.
    pub fn half(self) -> (r: Self)
        ensures
            r.0 == mul_bits(ONE_HALF, self.0),
    {
        Knots(binary64::mul(ONE_HALF, self.0))
    }

    /// Adds `other` to the value in place; the same as `*self = *self + other`.
    pub fn add_assign(&mut self, other: Self)
        ensures
            final(self).0 == add_bits(old(self).0, other.0),
    {
        *self = *self + other;
    }

    /// Subtracts `other` from the value in place; the same as
    /// `*self = *self - other`.
    pub fn sub_assign(&mut self, other: Self)
        ensures
            final(self).0 == sub_bits(old(self).0, other.0),
    {
        *self = *self - other;
    }

    /// The value in its interchange form: a bare decimal number.
    pub fn to_text(&self) -> (r: String)
        ensures
            r@ == text_of_bits(self.0),
    {
        codec::encode(self.0)
    }

    /// Reads a value from its interchange form, a bare decimal number; text
    /// outside the number grammar is refused.
    pub fn from_text(s: &str) -> (r: Result<Self, DecodeError>)
        ensures
            !is_number(s.spec_bytes()) ==> r == Err::<Knots, DecodeError>(DecodeError),
            is_number(s.spec_bytes()) ==> (match bits_of_text(s.spec_bytes()) {
                Some(b) => r == Ok::<Knots, DecodeError>(Knots(b)),
                None => r == Err::<Knots, DecodeError>(DecodeError),
            }),
    {
        match codec::decode_bits(s) {
            Ok(b) => Ok(Knots(b)),
            Err(e) => Err(e),
        }
    }
}

impl Default for Knots {
    /// The zero speed.
    fn default() -> (r: Self)
        ensures
            r.0 == POS_ZERO,
    {
        Knots(POS_ZERO)
    }
}

impl core::ops::Add for Knots {
    type Output = Knots;

    fn add(self, rhs: Self) -> (r: Self) {
        Knots(binary64::add(self.0, rhs.0))
    }
}

impl vstd::std_specs::ops::AddSpecImpl for Knots {
    open spec fn obeys_add_spec() -> bool {
        true
    }

    open spec fn add_req(self, rhs: Self) -> bool {
        true
    }

    open spec fn add_spec(self, rhs: Self) -> Self {
        Knots(add_bits(self.0, rhs.0))
    }
}

impl core::ops::Sub for Knots {
    type Output = Knots;

    fn sub(self, rhs: Self) -> (r: Self) {
        Knots(binary64::sub(self.0, rhs.0))
    }
}

impl vstd::std_specs::ops::SubSpecImpl for Knots {
    open spec fn obeys_sub_spec() -> bool {
        true
    }

    open spec fn sub_req(self, rhs: Self) -> bool {
        true
    }

    open spec fn sub_spec(self, rhs: Self) -> Self {
        Knots(sub_bits(self.0, rhs.0))
    }
}

impl core::ops::Neg for Knots {
    type Output = Knots;

    fn neg(self) -> (r: Self) {
        Knots(binary64::sub(POS_ZERO, self.0))
    }
}

impl vstd::std_specs::ops::NegSpecImpl for Knots {
    open spec fn obeys_neg_spec() -> bool {
        true
    }

    open spec fn neg_req(self) -> bool {
        true
    }

    open spec fn neg_spec(self) -> Self {
        Knots(sub_bits(POS_ZERO, self.0))
    }
}

impl PartialEq for Knots {
    fn eq(&self, other: &Self) -> (r: bool) {
        binary64::eq(self.0, other.0)
    }
}

impl vstd::std_specs::cmp::PartialEqSpecImpl for Knots {
    open spec fn obeys_eq_spec() -> bool {
        true
    }

    open spec fn eq_spec(&self, other: &Self) -> bool {
        eq_bits(self.0, other.0)
    }
}

impl PartialOrd for Knots {
    fn partial_cmp(&self, other: &Self) -> (r: Option<core::cmp::Ordering>) {
        binary64::partial_cmp(self.0, other.0)
    }
}

impl vstd::std_specs::cmp::PartialOrdSpecImpl for Knots {
    open spec fn obeys_partial_cmp_spec() -> bool {
        true
    }

    open spec fn partial_cmp_spec(&self, other: &Self) -> Option<core::cmp::Ordering> {
        cmp_bits(self.0, other.0)
    }
}

impl From<si::MetresPerSecond> for Knots {
    /// The speed in knots: the metres per second divided by the conversion
    /// factor.
    fn from(a: si::MetresPerSecond) -> (r: Self) {
        Knots(binary64::div(a.0, METRES_PER_SECOND_TO_KNOTS))
    }
}

impl vstd::std_specs::convert::FromSpecImpl<si::MetresPerSecond> for Knots {
    open spec fn obeys_from_spec() -> bool {
        true
    }

    open spec fn from_spec(a: si::MetresPerSecond) -> Self {
        Knots(div_bits(a.0, METRES_PER_SECOND_TO_KNOTS))
    }
}

impl From<Knots> for si::MetresPerSecond {
    /// The speed in metres per second: the knots multiplied by the
    /// conversion factor.
    fn from(a: Knots) -> (r: Self) {
        si::MetresPerSecond(binary64::mul(a.0, METRES_PER_SECOND_TO_KNOTS))
    }
}

impl vstd::std_specs::convert::FromSpecImpl<Knots> for si::MetresPerSecond {
    open spec fn obeys_from_spec() -> bool {
        true
    }

    open spec fn from_spec(a: Knots) -> Self {
        si::MetresPerSecond(mul_bits(a.0, METRES_PER_SECOND_TO_KNOTS))
    }
}

/// A `FlightLevel` `newtype` for representing altitude above the transition
/// altitude, in units of 100 feet.
///
/// A flight level has no direct SI conversion: it converts to and from
/// `Feet`, and an altitude in metres is reached by composing that with the
/// `Feet` conversions. The field holds the IEEE-754 binary64 bit pattern of
/// the flight level.
#[derive(Clone, Copy, Debug)]
pub struct FlightLevel(pub u64);

impl FlightLevel {
    /// The value in its interchange form: a bare decimal number.
    pub fn to_text(&self) -> (r: String)
        ensures
            r@ == text_of_bits(self.0),
    {
        codec::encode(self.0)
    }

    /// Reads a value from its interchange form, a bare decimal number; text
    /// outside the number grammar is refused.
    pub fn from_text(s: &str) -> (r: Result<Self, DecodeError>)
        ensures
            !is_number(s.spec_bytes()) ==> r == Err::<FlightLevel, DecodeError>(DecodeError),
            is_number(s.spec_bytes()) ==> (match bits_of_text(s.spec_bytes()) {
                Some(b) => r == Ok::<FlightLevel, DecodeError>(FlightLevel(b)),
                None => r == Err::<FlightLevel, DecodeError>(DecodeError),
            }),
    {
        match codec::decode_bits(s) {
            Ok(b) => Ok(FlightLevel(b)),
            Err(e) => Err(e),
        }
    }
}

impl PartialEq for FlightLevel {
    fn eq(&self, other: &Self) -> (r: bool) {
        binary64::eq(self.0, other.0)
    }
}

impl vstd::std_specs::cmp::PartialEqSpecImpl for FlightLevel {
    open spec fn obeys_eq_spec() -> bool {
        true
    }

    open spec fn eq_spec(&self, other: &Self) -> bool {
        eq_bits(self.0, other.0)
    }
}

impl PartialOrd for FlightLevel {
    fn partial_cmp(&self, other: &Self) -> (r: Option<core::cmp::Ordering>) {
        binary64::partial_cmp(self.0, other.0)
    }
}

impl vstd::std_specs::cmp::PartialOrdSpecImpl for FlightLevel {
    open spec fn obeys_partial_cmp_spec() -> bool {
        true
    }

    open spec fn partial_cmp_spec(&self, other: &Self) -> Option<core::cmp::Ordering> {
        cmp_bits(self.0, other.0)
    }
}

impl From<Feet> for FlightLevel {
    /// The flight level: the feet divided by the height of one flight
    /// level.
    fn from(a: Feet) -> (r: Self) {
        FlightLevel(binary64::div(a.0, FEET_PER_FLIGHT_LEVEL))
    }
}

impl vstd::std_specs::convert::FromSpecImpl<Feet> for FlightLevel {
    open spec fn obeys_from_spec() -> bool {
        true
    }

    open spec fn from_spec(a: Feet) -> Self {
        FlightLevel(div_bits(a.0, FEET_PER_FLIGHT_LEVEL))
    }
}

impl From<FlightLevel> for Feet {
    /// The altitude in feet: the flight level multiplied by the height of
    /// one flight level.
    fn from(a: FlightLevel) -> (r: Self) {
        Feet(binary64::mul(a.0, FEET_PER_FLIGHT_LEVEL))
    }
}

impl vstd::std_specs::convert::FromSpecImpl<FlightLevel> for Feet {
    open spec fn obeys_from_spec() -> bool {
        true
    }

    open spec fn from_spec(a: FlightLevel) -> Self {
        Feet(mul_bits(a.0, FEET_PER_FLIGHT_LEVEL))
    }
}

} // verus!
