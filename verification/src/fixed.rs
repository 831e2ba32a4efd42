//! Decimal fixed-point scalars.
//!
//! A [`Fix`] holds a real value as an integer count of units of `1/SCALE`;
//! with `SCALE = 10_000` the resolution is `0.0001`. All parameter
//! components, shape coefficients, bounds and temperatures of this library
//! are `Fix` values, so arithmetic on them is exact integer arithmetic.

use vstd::prelude::*;

verus! {

/// Number of fixed-point units per whole unit: a `Fix` with `units == SCALE`
/// has the value one.
pub const SCALE: i64 = 10_000;

/// Magnitude cap on the units of every scalar an objective accepts
/// (coefficients, parameter components, bounds). It keeps every intermediate
/// product of the degree-four surface polynomial inside `i128`.
pub const MAX_UNITS: i64 = 10_000_000;

/// A real number held as `units / SCALE`.
#[derive(Clone, Copy, Debug, PartialEq, Eq, Structural)]
pub struct Fix {
    pub units: i64,
}

impl Fix {
    /// The value `whole`, exactly.
    pub fn from_whole(whole: i64) -> (r: Fix)
        requires
            -1_000_000_000 <= whole <= 1_000_000_000,
        ensures
            r.units == whole * SCALE,
    {
        Fix { units: whole * SCALE }
    }

    /// True when the magnitude is within [`MAX_UNITS`], the range every
    /// objective accepts.
    pub open spec fn bounded(self) -> bool {
        -MAX_UNITS <= self.units <= MAX_UNITS
    }
}

/// A wide fixed-point result of evaluating the surface or its derivatives.
/// Which power of `1/SCALE` one unit stands for depends on the producing
/// operation and is stated in its contract.
#[derive(Clone, Copy, Debug, PartialEq, Eq, Structural)]
pub struct Wide {
    pub units: i128,
}

/// The units of each component, as mathematical integers.
pub open spec fn units_seq(s: Seq<Fix>) -> Seq<int> {
    s.map(|_i: int, f: Fix| f.units as int)
}

/// Every component's magnitude is within [`MAX_UNITS`].
pub open spec fn all_bounded(s: Seq<Fix>) -> bool {
    forall|i: int| 0 <= i < s.len() ==> #[trigger] s[i].bounded()
}

/// `v` forced into the interval `[lo, hi]`.
pub open spec fn clamped(v: int, lo: int, hi: int) -> int {
    if v < lo {
        lo
    } else if v > hi {
        hi
    } else {
        v
    }
}

/// Forces `v` into the interval `[lo, hi]`.
pub fn clamp_units(v: i64, lo: i64, hi: i64) -> (r: i64)
    requires
        lo <= hi,
    ensures
        r == clamped(v as int, lo as int, hi as int),
        lo <= r <= hi,
{
    if v < lo {
        lo
    } else if v > hi {
        hi
    } else {
        v
    }
}

} // verus!
