//! Square matrices built from flat row-major buffers.
//!
//! Reshaping a flat derivative buffer into a matrix is the one genuinely
//! fallible boundary of the objective: it must be rejected with a
//! [`Error::ShapeError`](crate::error::Error) whenever the buffer length is
//! not the square of the requested side, never truncated silently.

use crate::error::Error;
use crate::fixed::Wide;
use vstd::prelude::*;

verus! {

/// A square matrix of [`Wide`] entries, stored flat in row-major order.
#[derive(Debug)]
pub struct SquareMatrix {
    side: usize,
    data: Vec<Wide>,
}

impl SquareMatrix {
    /// The invariant every constructed matrix has: the flat buffer holds
    /// exactly `side * side` entries.
    pub closed spec fn wf(self) -> bool {
        self.data@.len() == self.side * self.side
    }

    /// The side length.
    pub closed spec fn spec_side(self) -> int {
        self.side as int
    }

    /// The entry at row `i`, column `j`, as a mathematical integer.
    pub closed spec fn entry(self, i: int, j: int) -> int {
        self.data@[i * self.side + j].units as int
    }

    /// Reshapes a flat row-major buffer into a `side` by `side` matrix.
    /// Fails with a `ShapeError` if and only if the buffer length is not
    /// exactly `side * side`.
    pub fn from_flat(side: usize, data: Vec<Wide>) -> (r: Result<SquareMatrix, Error>)
        ensures
            r is Ok <==> data@.len() == (side as int) * (side as int),
            r matches Ok(m) ==> m.wf() && m.spec_side() == side && forall|i: int, j: int|
                0 <= i < side && 0 <= j < side ==> #[trigger] m.entry(i, j) == data@[i * (
                side as int) + j].units,
            r matches Err(e) ==> e == (Error::ShapeError { expected: side, found: data.len() }),
    {
        match side.checked_mul(side) {
            Some(need) if need == data.len() => Ok(SquareMatrix { side, data }),
            _ => {
                proof {
                    if data@.len() == (side as int) * (side as int) {
                        assert((side as int) * (side as int) <= usize::MAX as int);
                    }
                }
                Err(Error::ShapeError { expected: side, found: data.len() })
            },
        }
    }

    /// The side length of the matrix.
    pub fn side(&self) -> (r: usize)
        ensures
            r == self.spec_side(),
    {
        self.side
    }

    /// The entry at row `i`, column `j`.
    pub fn get(&self, i: usize, j: usize) -> (r: Wide)
        requires
            self.wf(),
            i < self.spec_side(),
            j < self.spec_side(),
        ensures
            r.units == self.entry(i as int, j as int),
    {
        let n: usize = self.data.len();
        proof {
            let side: int = self.side as int;
            assert((i as int) * side + (j as int) < side * side) by (nonlinear_arith)
                requires
                    0 <= (i as int) < side,
                    0 <= (j as int) < side,
            ;
            assert((i as int) * side + (j as int) >= 0) by (nonlinear_arith)
                requires
                    0 <= (i as int) < side,
                    0 <= (j as int),
            ;
            assert((i as int) * side + (j as int) < n);
        }
        self.data[i * self.side + j]
    }
}

} // verus!
