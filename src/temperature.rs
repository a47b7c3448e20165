//! Exact temperatures.
//!
//! The cooler reports whole degrees plus ninths of a degree, and hwmon files
//! report millidegrees. One unit here is a ninth of a millidegree, so both are
//! held exactly and compare exactly.

use vstd::prelude::*;

verus! {

/// Divisor of the fractional status byte: the device counts ninths of a degree.
pub const FRACTION_DIVISOR: i64 = 9;

/// Units in one millidegree.
pub const UNITS_PER_MILLIDEGREE: i64 = FRACTION_DIVISOR;

/// Units in one ninth of a degree.
pub const UNITS_PER_FRACTION: i64 = 1000;

/// Units in one degree Celsius.
pub const UNITS_PER_DEGREE: i64 = FRACTION_DIVISOR * UNITS_PER_FRACTION;

/// A temperature in ninths of a millidegree Celsius.
#[derive(Clone, Copy, Debug, PartialEq, Eq, Structural)]
pub struct Temperature {
    pub units: i64,
}

impl Temperature {
    /// The floor of aggregation: zero degrees.
    pub fn zero() -> (r: Temperature)
        ensures
            r.units == 0,
    {
        Temperature { units: 0 }
    }

    /// A temperature read from a hwmon file, given in millidegrees.
    pub fn from_millidegrees(milli: i32) -> (r: Temperature)
        ensures
            r.units == milli * UNITS_PER_MILLIDEGREE,
    {
        Temperature { units: milli as i64 * UNITS_PER_MILLIDEGREE }
    }

    /// A temperature of the status frame: whole degrees and ninths of a degree.
    pub fn from_status_bytes(whole: u8, ninths: u8) -> (r: Temperature)
        ensures
            r.units == whole * UNITS_PER_DEGREE + ninths * UNITS_PER_FRACTION,
    {
        Temperature { units: whole as i64 * UNITS_PER_DEGREE + ninths as i64 * UNITS_PER_FRACTION }
    }

    /// The exact sum of three temperatures, three times their mean: it
    /// changes exactly when the mean does.
    pub fn sum3(a: Temperature, b: Temperature, c: Temperature) -> (r: i128)
        ensures
            r == a.units + b.units + c.units,
    {
        a.units as i128 + b.units as i128 + c.units as i128
    }

    /// The warmer of two temperatures.
    pub fn warmer(self, other: Temperature) -> (r: Temperature)
        ensures
            r.units == if self.units >= other.units { self.units } else { other.units },
    {
        if self.units >= other.units {
            self
        } else {
            other
        }
    }
}

} // verus!
