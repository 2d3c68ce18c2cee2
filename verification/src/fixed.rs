//! Fixed-point numbers with six decimal places.
use vstd::prelude::*;

verus! {

/// How many millionths make one.
pub const MICROS_PER_UNIT: i64 = 1_000_000;

/// A real quantity, stored as a whole number of millionths.
///
/// Speeds are percentages, so full speed is `Fixed { micros: 100_000_000 }`.
#[derive(Clone, Copy, Debug, PartialEq, Eq, Structural)]
pub struct Fixed {
    pub micros: i64,
}

/// The number of millionths that the whole number `n` amounts to.
pub open spec fn micros_of(n: int) -> int {
    n * 1_000_000
}

/// The value of `x` when it is cut off at the bounds `lo` and `hi`:
/// values above `hi` become `hi`, values below `lo` become `lo`.
pub open spec fn clamp(x: int, lo: int, hi: int) -> int {
    if x > hi {
        hi
    } else if x < lo {
        lo
    } else {
        x
    }
}

/// The value of `x` cut off at the range of a `Fixed`.
pub open spec fn saturate(x: int) -> int {
    clamp(x, i64::MIN as int, i64::MAX as int)
}

impl Fixed {
    /// The fixed-point number zero.
    pub fn zero() -> (r: Fixed)
        ensures
            r.micros == 0,
    {
        Fixed { micros: 0 }
    }

    /// The fixed-point number that equals the whole number `n`.
    pub fn from_int(n: i32) -> (r: Fixed)
        ensures
            r.micros == micros_of(n as int),
    {
        let wide: i64 = n as i64;
        Fixed { micros: wide * MICROS_PER_UNIT }
    }

    /// The fixed-point number with the given count of millionths.
    pub fn from_micros(micros: i64) -> (r: Fixed)
        ensures
            r.micros == micros,
    {
        Fixed { micros }
    }

    /// The nearest fixed-point number to the wide value `x`: `x` itself
    /// where it fits, else the end of the range on the side of `x`.
    pub fn saturating(x: i128) -> (r: Fixed)
        ensures
            r.micros == saturate(x as int),
    {
        if x > i64::MAX as i128 {
            Fixed { micros: i64::MAX }
        } else if x < i64::MIN as i128 {
            Fixed { micros: i64::MIN }
        } else {
            Fixed { micros: x as i64 }
        }
    }
}

} // verus!
