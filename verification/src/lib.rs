//! Units for air navigation as defined in ICAO Annex 5.
//!
//! The library defines the SI units used by the International Standard
//! Atmosphere, the non-SI units of ICAO Annex 5 Table 3-3, and flight levels.
//! It uses the newtype idiom to represent ICAO units and the `From` trait to
//! convert between SI and non-SI units with the conversion factors of
//! ICAO Annex 5 Table 3-3.
//!
//! Every quantity is a single-field wrapper around the IEEE-754 binary64 bit
//! pattern of its value, held as a `u64`. Arithmetic, comparison and the
//! decimal text form of those values are performed in software by
//! `rustc_apfloat`; the `binary64` and `codec` modules wrap those calls and
//! give their results names that the quantity types' contracts are stated
//! over.

pub mod binary64;
pub mod codec;
pub mod non_si;
pub mod si;
