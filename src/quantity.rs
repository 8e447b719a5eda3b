//! Track distance as a fixed-point quantity.
//!
//! A `Distance` counts whole millimetres, so comparisons and differences
//! along the track coordinate are exact.

use vstd::prelude::*;

verus! {

/// Millimetres in one metre.
pub const MILLIMETERS_PER_METER: i64 = 1000;

/// Millimetres in one centimetre.
pub const MILLIMETERS_PER_CENTIMETER: i64 = 10;

/// A signed distance along the track, in millimetres.
#[derive(Debug, Clone, Copy, PartialEq, Eq, Structural, PartialOrd, Ord)]
pub struct Distance {
    /// Magnitude in millimetres
    pub millimeters: i64,
}

impl View for Distance {
    type V = int;

    open spec fn view(&self) -> int {
        self.millimeters as int
    }
}

/// Whether `v` fits in an `i64`.
pub open spec fn fits_i64(v: int) -> bool {
    i64::MIN <= v <= i64::MAX
}

impl Distance {
    /// A distance of `value` millimetres.
    pub fn from_millimeters(value: i64) -> (r: Distance)
        ensures
            r@ == value,
    {
        Distance { millimeters: value }
    }

    /// A distance of `value` centimetres.
    pub fn from_centimeters(value: i64) -> (r: Distance)
        requires
            fits_i64(value * MILLIMETERS_PER_CENTIMETER),
        ensures
            r@ == value * MILLIMETERS_PER_CENTIMETER,
    {
        Distance { millimeters: value * MILLIMETERS_PER_CENTIMETER }
    }

    /// A distance of `value` metres.
    pub fn from_meters(value: i64) -> (r: Distance)
        requires
            fits_i64(value * MILLIMETERS_PER_METER),
        ensures
            r@ == value * MILLIMETERS_PER_METER,
    {
        Distance { millimeters: value * MILLIMETERS_PER_METER }
    }

    /// The distance in millimetres.
    pub fn as_millimeters(&self) -> (r: i64)
        ensures
            r == self@,
    {
        self.millimeters
    }

    /// `self - other`, the signed offset from `other` to `self`.
    pub fn minus(&self, other: &Distance) -> (r: Distance)
        requires
            fits_i64(self@ - other@),
        ensures
            r@ == self@ - other@,
    {
        Distance { millimeters: self.millimeters - other.millimeters }
    }
}

impl Default for Distance {
    /// The zero distance.
    fn default() -> (r: Distance)
        ensures
            r@ == 0,
    {
        Distance { millimeters: 0 }
    }
}

} // verus!
