//! The plain-vector objective and its maximization view.
//!
//! [`RosenbrockVec`] evaluates the surface of [`crate::surface`] at a
//! parameter given as a plain `Vec` of fixed-point scalars. [`Maximized`] is
//! the derived "ascend instead of descend" view: a thin negation layer over
//! an underlying objective, never a second copy of the formulas.

use crate::error::Error;
use crate::fixed::{all_bounded, Fix, Wide, MAX_UNITS, SCALE};
use crate::surface::{
    cost_eval, cost_units, grad_x_units, grad_y_units, gradient_eval, hess_units, hessian_eval,
};
use vstd::prelude::*;

verus! {

/// A scalar accepted as a shape coefficient: strictly positive and within
/// the fixed-point working range.
pub open spec fn valid_coefficient(units: int) -> bool {
    0 < units <= MAX_UNITS
}

/// The Rosenbrock objective over plain `Vec<Fix>` parameters, identified by
/// its two positive shape coefficients.
#[derive(Clone, Copy, Debug)]
pub struct RosenbrockVec {
    a: Fix,
    b: Fix,
}

impl RosenbrockVec {
    /// The first shape coefficient, in fixed-point units.
    pub closed spec fn spec_a(self) -> int {
        self.a.units as int
    }

    /// The second (curvature) shape coefficient, in fixed-point units.
    pub closed spec fn spec_b(self) -> int {
        self.b.units as int
    }

    /// Every constructed objective has both coefficients positive and in
    /// range.
    pub open spec fn wf(self) -> bool {
        valid_coefficient(self.spec_a()) && valid_coefficient(self.spec_b())
    }

    /// Builds the objective with shape coefficients `a` and `b`. Rejects,
    /// at construction time, coefficients that are not strictly positive or
    /// that exceed the working range.
    pub fn new(a: Fix, b: Fix) -> (r: Result<RosenbrockVec, Error>)
        ensures
            r is Ok <==> (valid_coefficient(a.units as int) && valid_coefficient(b.units as int)),
            r matches Ok(o) ==> o.wf() && o.spec_a() == a.units && o.spec_b() == b.units,
            r matches Err(e) ==> e == Error::InvalidConstruction,
    {
        if 0 < a.units && a.units <= MAX_UNITS && 0 < b.units && b.units <= MAX_UNITS {
            Ok(RosenbrockVec { a, b })
        } else {
            Err(Error::InvalidConstruction)
        }
    }

    /// The value of the surface at `param`, in units of `1/SCALE^5`.
    /// Returns `InvalidInput` if and only if `param` is not two-dimensional.
    pub fn cost(&self, param: &Vec<Fix>) -> (r: Result<Wide, Error>)
        requires
            self.wf(),
            all_bounded(param@),
        ensures
            r is Ok <==> param@.len() == 2,
            r matches Ok(c) ==> c.units == cost_units(
                self.spec_a(),
                self.spec_b(),
                param@[0].units as int,
                param@[1].units as int,
            ),
            r matches Err(e) ==> e == (Error::InvalidInput { expected: 2, found: param.len() }),
    {
        if param.len() != 2 {
            return Err(Error::InvalidInput { expected: 2, found: param.len() });
        }
        proof {
            assert(param@[0].bounded());
            assert(param@[1].bounded());
        }
        let c = cost_eval(self.a.units, self.b.units, param[0].units, param[1].units);
        Ok(Wide { units: c })
    }

    /// The exact analytic gradient at `param`, in units of `1/SCALE^4`.
    /// Returns `InvalidInput` if and only if `param` is not two-dimensional.
    pub fn gradient(&self, param: &Vec<Fix>) -> (r: Result<Vec<Wide>, Error>)
        requires
            self.wf(),
            all_bounded(param@),
        ensures
            r is Ok <==> param@.len() == 2,
            r matches Ok(g) ==> g@.len() == 2 && g@[0].units == grad_x_units(
                self.spec_a(),
                self.spec_b(),
                param@[0].units as int,
                param@[1].units as int,
            ) && g@[1].units == grad_y_units(
                self.spec_a(),
                self.spec_b(),
                param@[0].units as int,
                param@[1].units as int,
            ),
            r matches Err(e) ==> e == (Error::InvalidInput { expected: 2, found: param.len() }),
    {
        if param.len() != 2 {
            return Err(Error::InvalidInput { expected: 2, found: param.len() });
        }
        proof {
            assert(param@[0].bounded());
            assert(param@[1].bounded());
        }
        let (gx, gy) = gradient_eval(self.a.units, self.b.units, param[0].units, param[1].units);
        let mut g: Vec<Wide> = Vec::new();
        g.push(Wide { units: gx });
        g.push(Wide { units: gy });
        Ok(g)
    }

    /// The exact analytic Hessian at `param` as nested rows, in units of
    /// `1/SCALE^3`. Returns `InvalidInput` if and only if `param` is not
    /// two-dimensional.
    pub fn hessian(&self, param: &Vec<Fix>) -> (r: Result<Vec<Vec<Wide>>, Error>)
        requires
            self.wf(),
            all_bounded(param@),
        ensures
            r is Ok <==> param@.len() == 2,
            r matches Ok(m) ==> m@.len() == 2 && m@[0]@.len() == 2 && m@[1]@.len() == 2 && forall|
                i: int,
                j: int,
            |
                0 <= i < 2 && 0 <= j < 2 ==> #[trigger] m@[i]@[j].units == hess_units(
                    self.spec_a(),
                    self.spec_b(),
                    param@[0].units as int,
                    param@[1].units as int,
                    i,
                    j,
                ),
            r matches Err(e) ==> e == (Error::InvalidInput { expected: 2, found: param.len() }),
    {
        if param.len() != 2 {
            return Err(Error::InvalidInput { expected: 2, found: param.len() });
        }
        proof {
            assert(param@[0].bounded());
            assert(param@[1].bounded());
        }
        let (hxx, hxy, hyy) = hessian_eval(
            self.a.units,
            self.b.units,
            param[0].units,
            param[1].units,
        );
        let mut row0: Vec<Wide> = Vec::new();
        row0.push(Wide { units: hxx });
        row0.push(Wide { units: hxy });
        let mut row1: Vec<Wide> = Vec::new();
        row1.push(Wide { units: hxy });
        row1.push(Wide { units: hyy });
        let mut m: Vec<Vec<Wide>> = Vec::new();
        m.push(row0);
        m.push(row1);
        Ok(m)
    }
}

impl Default for RosenbrockVec {
    /// The benchmark default `a = 1`, `b = 100`.
    fn default() -> (r: RosenbrockVec)
        ensures
            r.wf(),
            r.spec_a() == SCALE,
            r.spec_b() == 100 * SCALE,
    {
        RosenbrockVec { a: Fix { units: SCALE }, b: Fix { units: 100 * SCALE } }
    }
}

/// The maximization view of an objective: cost, gradient and Hessian are the
/// exact negations of the underlying ones at every point.
#[derive(Clone, Copy, Debug)]
pub struct Maximized {
    inner: RosenbrockVec,
}

impl Maximized {
    /// The first shape coefficient of the underlying objective.
    pub closed spec fn spec_a(self) -> int {
        self.inner.spec_a()
    }

    /// The second shape coefficient of the underlying objective.
    pub closed spec fn spec_b(self) -> int {
        self.inner.spec_b()
    }

    /// Well-formed exactly when the underlying objective is.
    pub open spec fn wf(self) -> bool {
        valid_coefficient(self.spec_a()) && valid_coefficient(self.spec_b())
    }

    /// Wraps an objective in the ascending view.
    pub fn new(inner: RosenbrockVec) -> (r: Maximized)
        ensures
            r.spec_a() == inner.spec_a(),
            r.spec_b() == inner.spec_b(),
            r.wf() == inner.wf(),
    {
        Maximized { inner }
    }

    /// The negated surface value at `param`, in units of `1/SCALE^5`.
    pub fn cost(&self, param: &Vec<Fix>) -> (r: Result<Wide, Error>)
        requires
            self.wf(),
            all_bounded(param@),
        ensures
            r is Ok <==> param@.len() == 2,
            r matches Ok(c) ==> c.units == -cost_units(
                self.spec_a(),
                self.spec_b(),
                param@[0].units as int,
                param@[1].units as int,
            ),
            r matches Err(e) ==> e == (Error::InvalidInput { expected: 2, found: param.len() }),
    {
        if param.len() != 2 {
            return Err(Error::InvalidInput { expected: 2, found: param.len() });
        }
        proof {
            assert(param@[0].bounded());
            assert(param@[1].bounded());
        }
        let c = cost_eval(self.inner.a.units, self.inner.b.units, param[0].units, param[1].units);
        Ok(Wide { units: -c })
    }

    /// The negated gradient at `param`, in units of `1/SCALE^4`.
    pub fn gradient(&self, param: &Vec<Fix>) -> (r: Result<Vec<Wide>, Error>)
        requires
            self.wf(),
            all_bounded(param@),
        ensures
            r is Ok <==> param@.len() == 2,
            r matches Ok(g) ==> g@.len() == 2 && g@[0].units == -grad_x_units(
                self.spec_a(),
                self.spec_b(),
                param@[0].units as int,
                param@[1].units as int,
            ) && g@[1].units == -grad_y_units(
                self.spec_a(),
                self.spec_b(),
                param@[0].units as int,
                param@[1].units as int,
            ),
            r matches Err(e) ==> e == (Error::InvalidInput { expected: 2, found: param.len() }),
    {
        if param.len() != 2 {
            return Err(Error::InvalidInput { expected: 2, found: param.len() });
        }
        proof {
            assert(param@[0].bounded());
            assert(param@[1].bounded());
        }
        let (gx, gy) = gradient_eval(
            self.inner.a.units,
            self.inner.b.units,
            param[0].units,
            param[1].units,
        );
        let mut g: Vec<Wide> = Vec::new();
        g.push(Wide { units: -gx });
        g.push(Wide { units: -gy });
        Ok(g)
    }

    /// The negated Hessian at `param` as nested rows, in units of
    /// `1/SCALE^3`.
    pub fn hessian(&self, param: &Vec<Fix>) -> (r: Result<Vec<Vec<Wide>>, Error>)
        requires
            self.wf(),
            all_bounded(param@),
        ensures
            r is Ok <==> param@.len() == 2,
            r matches Ok(m) ==> m@.len() == 2 && m@[0]@.len() == 2 && m@[1]@.len() == 2 && forall|
                i: int,
                j: int,
            |
                0 <= i < 2 && 0 <= j < 2 ==> #[trigger] m@[i]@[j].units == -hess_units(
                    self.spec_a(),
                    self.spec_b(),
                    param@[0].units as int,
                    param@[1].units as int,
                    i,
                    j,
                ),
            r matches Err(e) ==> e == (Error::InvalidInput { expected: 2, found: param.len() }),
    {
        if param.len() != 2 {
            return Err(Error::InvalidInput { expected: 2, found: param.len() });
        }
        proof {
            assert(param@[0].bounded());
            assert(param@[1].bounded());
        }
        let (hxx, hxy, hyy) = hessian_eval(
            self.inner.a.units,
            self.inner.b.units,
            param[0].units,
            param[1].units,
        );
        let mut row0: Vec<Wide> = Vec::new();
        row0.push(Wide { units: -hxx });
        row0.push(Wide { units: -hxy });
        let mut row1: Vec<Wide> = Vec::new();
        row1.push(Wide { units: -hxy });
        row1.push(Wide { units: -hyy });
        let mut m: Vec<Vec<Wide>> = Vec::new();
        m.push(row0);
        m.push(row1);
        Ok(m)
    }
}

} // verus!
