//! Typed failures of the objective functions.

use vstd::prelude::*;

verus! {

/// Everything an objective call or a constructor can report.
#[derive(Clone, Copy, Debug, PartialEq, Eq, Structural)]
pub enum Error {
    /// A parameter vector did not have the dimensionality the objective
    /// expects: `expected` components were needed, `found` were given.
    InvalidInput { expected: usize, found: usize },
    /// A flat derivative buffer of length `found` cannot be reshaped into a
    /// square matrix needing `expected` entries.
    ShapeError { expected: usize, found: usize },
    /// A construction-time invariant was violated: bounds sequences of
    /// unequal length, a lower bound above its upper bound, or a scalar
    /// outside the accepted range.
    InvalidConstruction,
}

} // verus!
