//! The bounds-aware objective and its stochastic perturbation operator.
//!
//! [`RosenbrockND`] pairs the surface of [`crate::surface`] with elementwise
//! lower and upper bounds and a pseudo-random generator, so that
//! simulated-annealing-style drivers can ask for bounded random neighbors of
//! a candidate parameter. The perturbation algorithm for temperature `temp`
//! performs `floor(temp) + 1` sequential steps on a working copy; each step
//! draws a uniformly random index, adds a uniformly random delta of at most
//! [`DELTA_UNITS`] units in magnitude to that component, and clamps the
//! component back into its bounds. The exact effect of a call, as a function
//! of the drawn values, is the spec function [`perturb_seq`]; `anneal`
//! promises that its output is some such sequence of exactly
//! `floor(temp) + 1` steps.
//!
//! The generator is owned by the objective but reachable through shared
//! references, as population-based and annealing drivers require: it sits
//! behind a verified reader-writer lock, acquired once per `anneal` call and
//! released on the only exit path that draws, so a call's whole draw
//! sequence is atomic with respect to concurrent calls.

use crate::error::Error;
use crate::fixed::{all_bounded, clamp_units, clamped, units_seq, Fix, Wide, MAX_UNITS, SCALE};
use crate::matrix::SquareMatrix;
use crate::objective::valid_coefficient;
use crate::rng::{rng_from_entropy, rng_from_seed, sample_below};
use crate::surface::{
    cost_eval, cost_units, grad_x_units, grad_y_units, gradient_eval, hess_units, hessian_eval,
};
use rand_xoshiro::Xoshiro256PlusPlus;
use vstd::arithmetic::div_mod::{lemma_div_is_ordered, lemma_div_pos_is_pos};
use vstd::prelude::*;
use vstd::rwlock::{RwLock, RwLockPredicate};

verus! {

/// Largest magnitude, in fixed-point units, of one perturbation delta: one
/// tenth of a whole unit.
pub const DELTA_UNITS: i64 = 1_000;

/// Number of distinct fixed-point deltas in `[-DELTA_UNITS, DELTA_UNITS]`;
/// the span the raw draw for a delta is taken from.
pub const DELTA_SPAN: usize = 2_001;

/// Trivial lock invariant for the generator: any state may be stored.
pub struct RngInv;

impl RwLockPredicate<Xoshiro256PlusPlus> for RngInv {
    open spec fn inv(self, v: Xoshiro256PlusPlus) -> bool {
        true
    }
}

/// Every component of `p` lies within the closed interval of the matching
/// bounds (all three sequences in fixed-point units).
pub open spec fn within_bounds(p: Seq<int>, lo: Seq<int>, hi: Seq<int>) -> bool {
    &&& p.len() == lo.len()
    &&& p.len() == hi.len()
    &&& forall|i: int| 0 <= i < p.len() ==> lo[i] <= #[trigger] p[i] <= hi[i]
}

/// A drawn perturbation step: an index below `n` and a raw delta draw below
/// [`DELTA_SPAN`].
pub open spec fn valid_draws(draws: Seq<(int, int)>, n: int) -> bool {
    forall|k: int| 0 <= k < draws.len() ==> {
        &&& 0 <= (#[trigger] draws[k]).0 < n
        &&& 0 <= draws[k].1 < DELTA_SPAN
    }
}

/// One perturbation step: component `idx` moves by `mag - DELTA_UNITS` and
/// is clamped back into its bounds.
pub open spec fn perturb_step(p: Seq<int>, lo: Seq<int>, hi: Seq<int>, idx: int, mag: int) -> Seq<
    int,
> {
    p.update(idx, clamped(p[idx] + mag - DELTA_UNITS, lo[idx], hi[idx]))
}

/// The sequential effect of a whole draw sequence, first draw applied first.
pub open spec fn perturb_seq(p: Seq<int>, lo: Seq<int>, hi: Seq<int>, draws: Seq<(int, int)>) -> Seq<
    int,
>
    decreases draws.len(),
{
    if draws.len() == 0 {
        p
    } else {
        perturb_step(
            perturb_seq(p, lo, hi, draws.drop_last()),
            lo,
            hi,
            draws.last().0,
            draws.last().1,
        )
    }
}

/// Number of perturbation steps at temperature `temp_units` (fixed-point):
/// `floor(temp) + 1`.
pub open spec fn spec_steps(temp_units: int) -> int {
    temp_units / (SCALE as int) + 1
}

/// Computes `floor(temp) + 1`, the perturbation step count at temperature
/// `temp`.
pub fn steps_for(temp: Fix) -> (r: u64)
    requires
        temp.units >= 0,
    ensures
        r == spec_steps(temp.units as int),
{
    let q: u64 = (temp.units as u64) / (SCALE as u64);
    proof {
        lemma_div_is_ordered(temp.units as int, i64::MAX as int, SCALE as int);
    }
    q + 1
}

/// The step count is at least one and non-decreasing in the temperature:
/// hotter calls never take fewer steps.
pub proof fn lemma_steps_monotone(t1: int, t2: int)
    requires
        0 <= t1 <= t2,
    ensures
        1 <= spec_steps(t1) <= spec_steps(t2),
{
    lemma_div_pos_is_pos(t1, SCALE as int);
    lemma_div_is_ordered(t1, t2, SCALE as int);
}

/// Mapping to units commutes with a pointwise update.
proof fn lemma_units_seq_update(s: Seq<Fix>, i: int, f: Fix)
    requires
        0 <= i < s.len(),
    ensures
        units_seq(s.update(i, f)) == units_seq(s).update(i, f.units as int),
{
    assert(units_seq(s.update(i, f)) =~= units_seq(s).update(i, f.units as int));
}

/// The Rosenbrock objective with elementwise feasibility bounds and an owned
/// pseudo-random generator, for annealing-style drivers.
pub struct RosenbrockND {
    a: Fix,
    b: Fix,
    lower_bound: Vec<Fix>,
    upper_bound: Vec<Fix>,
    rng: RwLock<Xoshiro256PlusPlus, RngInv>,
}

/// What a constructor accepts: positive in-range coefficients and bound
/// sequences of one length with every lower bound at most its upper bound,
/// both in the working range.
pub open spec fn construction_ok(a: Fix, b: Fix, lo: Seq<Fix>, hi: Seq<Fix>) -> bool {
    &&& valid_coefficient(a.units as int)
    &&& valid_coefficient(b.units as int)
    &&& lo.len() == hi.len()
    &&& forall|i: int| 0 <= i < lo.len() ==> {
        &&& -MAX_UNITS <= (#[trigger] lo[i]).units
        &&& lo[i].units <= hi[i].units
        &&& hi[i].units <= MAX_UNITS
    }
}

impl RosenbrockND {
    /// The first shape coefficient, in fixed-point units.
    pub closed spec fn spec_a(self) -> int {
        self.a.units as int
    }

    /// The second (curvature) shape coefficient, in fixed-point units.
    pub closed spec fn spec_b(self) -> int {
        self.b.units as int
    }

    /// The lower bounds, in fixed-point units.
    pub closed spec fn spec_lower(self) -> Seq<int> {
        units_seq(self.lower_bound@)
    }

    /// The upper bounds, in fixed-point units.
    pub closed spec fn spec_upper(self) -> Seq<int> {
        units_seq(self.upper_bound@)
    }

    /// The invariant constructors establish: coefficients positive and in
    /// range, bounds of one length, ordered, and in range.
    pub open spec fn wf(self) -> bool {
        &&& valid_coefficient(self.spec_a())
        &&& valid_coefficient(self.spec_b())
        &&& self.spec_lower().len() == self.spec_upper().len()
        &&& forall|i: int| 0 <= i < self.spec_lower().len() ==> {
            &&& -MAX_UNITS <= #[trigger] self.spec_lower()[i]
            &&& self.spec_lower()[i] <= self.spec_upper()[i]
            &&& self.spec_upper()[i] <= MAX_UNITS
        }
    }

    /// Checks the construction invariant.
    fn accepts(a: Fix, b: Fix, lower_bound: &Vec<Fix>, upper_bound: &Vec<Fix>) -> (ok: bool)
        ensures
            ok == construction_ok(a, b, lower_bound@, upper_bound@),
    {
        if !(0 < a.units && a.units <= MAX_UNITS && 0 < b.units && b.units <= MAX_UNITS) {
            return false;
        }
        if lower_bound.len() != upper_bound.len() {
            return false;
        }
        let mut i: usize = 0;
        while i < lower_bound.len()
            invariant
                i <= lower_bound@.len(),
                lower_bound@.len() == upper_bound@.len(),
                forall|j: int| 0 <= j < i ==> {
                    &&& -MAX_UNITS <= (#[trigger] lower_bound@[j]).units
                    &&& lower_bound@[j].units <= upper_bound@[j].units
                    &&& upper_bound@[j].units <= MAX_UNITS
                },
            decreases lower_bound@.len() - i,
        {
            let lo = lower_bound[i].units;
            let hi = upper_bound[i].units;
            if !(-MAX_UNITS <= lo && lo <= hi && hi <= MAX_UNITS) {
                return false;
            }
            i += 1;
        }
        true
    }

    /// Builds the objective with shape coefficients `a` and `b` and
    /// feasibility bounds, seeding the generator from the operating system's
    /// entropy source. Violations of the construction invariant are rejected
    /// here, so they can never surface during optimization.
    pub fn new(a: Fix, b: Fix, lower_bound: Vec<Fix>, upper_bound: Vec<Fix>) -> (r: Result<
        RosenbrockND,
        Error,
    >)
        ensures
            r is Ok <==> construction_ok(a, b, lower_bound@, upper_bound@),
            r matches Ok(o) ==> o.wf() && o.spec_a() == a.units && o.spec_b() == b.units
                && o.spec_lower() == units_seq(lower_bound@) && o.spec_upper() == units_seq(
                upper_bound@,
            ),
            r matches Err(e) ==> e == Error::InvalidConstruction,
    {
        if !Self::accepts(a, b, &lower_bound, &upper_bound) {
            return Err(Error::InvalidConstruction);
        }
        Ok(
            RosenbrockND {
                a,
                b,
                lower_bound,
                upper_bound,
                rng: RwLock::new(rng_from_entropy(), Ghost(RngInv)),
            },
        )
    }

    /// As [`RosenbrockND::new`], but with the generator in a deterministic
    /// state derived from `seed`, for reproducible runs.
    pub fn with_seed(a: Fix, b: Fix, lower_bound: Vec<Fix>, upper_bound: Vec<Fix>, seed: u64) -> (r:
        Result<RosenbrockND, Error>)
        ensures
            r is Ok <==> construction_ok(a, b, lower_bound@, upper_bound@),
            r matches Ok(o) ==> o.wf() && o.spec_a() == a.units && o.spec_b() == b.units
                && o.spec_lower() == units_seq(lower_bound@) && o.spec_upper() == units_seq(
                upper_bound@,
            ),
            r matches Err(e) ==> e == Error::InvalidConstruction,
    {
        if !Self::accepts(a, b, &lower_bound, &upper_bound) {
            return Err(Error::InvalidConstruction);
        }
        Ok(
            RosenbrockND {
                a,
                b,
                lower_bound,
                upper_bound,
                rng: RwLock::new(rng_from_seed(seed), Ghost(RngInv)),
            },
        )
    }

    /// The value of the surface at `param`, in units of `1/SCALE^5`.
    /// Returns `InvalidInput` if and only if `param` is not two-dimensional.
    pub fn cost(&self, param: &Vec<Fix>) -> (r: Result<Wide, Error>)
        requires
            self.wf(),
            all_bounded(param@),
        ensures
            r is Ok <==> param@.len() == 2,
            r matches Ok(c) ==> c.units == cost_units(
                self.spec_a(),
                self.spec_b(),
                param@[0].units as int,
                param@[1].units as int,
            ),
            r matches Err(e) ==> e == (Error::InvalidInput { expected: 2, found: param.len() }),
    {
        if param.len() != 2 {
            return Err(Error::InvalidInput { expected: 2, found: param.len() });
        }
        proof {
            assert(param@[0].bounded());
            assert(param@[1].bounded());
        }
        let c = cost_eval(self.a.units, self.b.units, param[0].units, param[1].units);
        Ok(Wide { units: c })
    }

    /// The exact analytic gradient at `param`, in units of `1/SCALE^4`.
    /// Returns `InvalidInput` if and only if `param` is not two-dimensional.
    pub fn gradient(&self, param: &Vec<Fix>) -> (r: Result<Vec<Wide>, Error>)
        requires
            self.wf(),
            all_bounded(param@),
        ensures
            r is Ok <==> param@.len() == 2,
            r matches Ok(g) ==> g@.len() == 2 && g@[0].units == grad_x_units(
                self.spec_a(),
                self.spec_b(),
                param@[0].units as int,
                param@[1].units as int,
            ) && g@[1].units == grad_y_units(
                self.spec_a(),
                self.spec_b(),
                param@[0].units as int,
                param@[1].units as int,
            ),
            r matches Err(e) ==> e == (Error::InvalidInput { expected: 2, found: param.len() }),
    {
        if param.len() != 2 {
            return Err(Error::InvalidInput { expected: 2, found: param.len() });
        }
        proof {
            assert(param@[0].bounded());
            assert(param@[1].bounded());
        }
        let (gx, gy) = gradient_eval(self.a.units, self.b.units, param[0].units, param[1].units);
        let mut g: Vec<Wide> = Vec::new();
        g.push(Wide { units: gx });
        g.push(Wide { units: gy });
        Ok(g)
    }

    /// The exact analytic Hessian at `param`, reshaped into a square matrix,
    /// in units of `1/SCALE^3`. Returns `InvalidInput` if and only if
    /// `param` is not two-dimensional; the reshape itself is the fallible
    /// boundary of [`SquareMatrix::from_flat`] and here always receives a
    /// buffer of matching length.
    pub fn hessian(&self, param: &Vec<Fix>) -> (r: Result<SquareMatrix, Error>)
        requires
            self.wf(),
            all_bounded(param@),
        ensures
            r is Ok <==> param@.len() == 2,
            r matches Ok(m) ==> m.wf() && m.spec_side() == 2 && forall|i: int, j: int|
                0 <= i < 2 && 0 <= j < 2 ==> #[trigger] m.entry(i, j) == hess_units(
                    self.spec_a(),
                    self.spec_b(),
                    param@[0].units as int,
                    param@[1].units as int,
                    i,
                    j,
                ),
            r matches Err(e) ==> e == (Error::InvalidInput { expected: 2, found: param.len() }),
    {
        if param.len() != 2 {
            return Err(Error::InvalidInput { expected: 2, found: param.len() });
        }
        proof {
            assert(param@[0].bounded());
            assert(param@[1].bounded());
        }
        let (hxx, hxy, hyy) = hessian_eval(
            self.a.units,
            self.b.units,
            param[0].units,
            param[1].units,
        );
        let mut flat: Vec<Wide> = Vec::new();
        flat.push(Wide { units: hxx });
        flat.push(Wide { units: hxy });
        flat.push(Wide { units: hxy });
        flat.push(Wide { units: hyy });
        match SquareMatrix::from_flat(2, flat) {
            Ok(m) => Ok(m),
            Err(e) => Err(e),  // unreachable: the buffer always holds four entries
        }
    }

    /// A bounded random neighbor of `param` at temperature `temp`: applies
    /// `floor(temp) + 1` sequential perturbation steps to a working copy,
    /// each moving one uniformly chosen component by a uniformly chosen
    /// delta within [`DELTA_UNITS`] units and clamping it back into its
    /// bounds.
    ///
    /// Fails with `InvalidInput` if and only if the parameter length does
    /// not match the bounds or is zero; in particular a feasible parameter
    /// of matching nonzero length always succeeds, whatever the generator
    /// returns, and the output then stays feasible.
    ///
    /// The generator lock is held for the whole draw sequence, so
    /// concurrent calls never interleave their draws.
    pub fn anneal(&self, param: &Vec<Fix>, temp: Fix) -> (r: Result<Vec<Fix>, Error>)
        requires
            self.wf(),
            all_bounded(param@),
            temp.units >= 0,
        ensures
            r is Ok <==> (param@.len() == self.spec_lower().len() && param@.len() >= 1),
            r matches Ok(out) ==> out@.len() == param@.len() && all_bounded(out@),
            r matches Ok(out) ==> (within_bounds(
                units_seq(param@),
                self.spec_lower(),
                self.spec_upper(),
            ) ==> within_bounds(units_seq(out@), self.spec_lower(), self.spec_upper())),
            r matches Ok(out) ==> exists|draws: Seq<(int, int)>|
                {
                    &&& #[trigger] valid_draws(draws, param@.len() as int)
                    &&& draws.len() == spec_steps(temp.units as int)
                    &&& units_seq(out@) == perturb_seq(
                        units_seq(param@),
                        self.spec_lower(),
                        self.spec_upper(),
                        draws,
                    )
                },
            r matches Err(e) ==> e == (Error::InvalidInput {
                expected: self.spec_lower().len() as usize,
                found: param.len(),
            }),
    {
        let n = param.len();
        if n != self.lower_bound.len() || n == 0 {
            return Err(Error::InvalidInput { expected: self.lower_bound.len(), found: n });
        }
        let steps: u64 = steps_for(temp);
        let ghost lo = self.spec_lower();
        let ghost hi = self.spec_upper();
        let ghost p0 = units_seq(param@);

        let mut out: Vec<Fix> = Vec::new();
        let mut i: usize = 0;
        while i < n
            invariant
                i <= n,
                n == param@.len(),
                out@ =~= param@.take(i as int),
            decreases n - i,
        {
            out.push(param[i]);
            i += 1;
        }
        assert(out@ =~= param@);
        assert forall|j: int| 0 <= j < out@.len() implies -MAX_UNITS <= (#[trigger] out@[j]).units
            <= MAX_UNITS by {
            assert(param@[j].bounded());
        }

        let ghost mut draws: Seq<(int, int)> = Seq::empty();
        let (mut rng, handle) = self.rng.acquire_write();
        let mut k: u64 = 0;
        while k < steps
            invariant
                k <= steps,
                n >= 1,
                n == param@.len(),
                n == self.spec_lower().len(),
                n == self.lower_bound@.len(),
                n == self.upper_bound@.len(),
                self.wf(),
                lo == self.spec_lower(),
                hi == self.spec_upper(),
                p0 == units_seq(param@),
                out@.len() == n,
                forall|j: int|
                    0 <= j < out@.len() ==> -MAX_UNITS <= (#[trigger] out@[j]).units <= MAX_UNITS,
                within_bounds(p0, lo, hi) ==> within_bounds(units_seq(out@), lo, hi),
                draws.len() == k as int,
                valid_draws(draws, n as int),
                units_seq(out@) == perturb_seq(p0, lo, hi, draws),
            decreases steps - k,
        {
            let idx = sample_below(&mut rng, n);
            let mag = sample_below(&mut rng, DELTA_SPAN);
            let delta: i64 = (mag as i64) - DELTA_UNITS;
            let lo_i = self.lower_bound[idx].units;
            let hi_i = self.upper_bound[idx].units;
            proof {
                assert(self.spec_lower()[idx as int] <= self.spec_upper()[idx as int]);
                assert(self.spec_lower()[idx as int] == lo_i);
                assert(self.spec_upper()[idx as int] == hi_i);
            }
            let ghost prev_fix = out@;
            let ghost prev = units_seq(out@);
            let v = out[idx].units + delta;
            let c = clamp_units(v, lo_i, hi_i);
            out[idx] = Fix { units: c };
            proof {
                let d = ((idx as int), (mag as int));
                let next = draws.push(d);
                assert(next.drop_last() =~= draws);
                assert(out@ == prev_fix.update(idx as int, Fix { units: c }));
                lemma_units_seq_update(prev_fix, idx as int, Fix { units: c });
                assert(lo[idx as int] == lo_i && hi[idx as int] == hi_i);
                assert(c as int == clamped(
                    prev[idx as int] + (mag as int) - DELTA_UNITS,
                    lo[idx as int],
                    hi[idx as int],
                ));
                assert(units_seq(out@) == perturb_step(prev, lo, hi, d.0, d.1));
                assert(perturb_seq(p0, lo, hi, next) == perturb_step(
                    perturb_seq(p0, lo, hi, draws),
                    lo,
                    hi,
                    d.0,
                    d.1,
                ));
                draws = next;
                assert(within_bounds(p0, lo, hi) ==> within_bounds(units_seq(out@), lo, hi));
            }
            k += 1;
        }
        handle.release_write(rng);
        proof {
            assert(valid_draws(draws, param@.len() as int));
        }
        Ok(out)
    }
}

impl Default for RosenbrockND {
    /// The shipped benchmark configuration: `a = 1`, `b = 100`, bounds
    /// `[-5, -5]` to `[5, 5]`, generator seeded from entropy.
    fn default() -> (r: RosenbrockND)
        ensures
            r.wf(),
            r.spec_a() == SCALE,
            r.spec_b() == 100 * SCALE,
            r.spec_lower() =~= seq![(-5 * SCALE) as int, (-5 * SCALE) as int],
            r.spec_upper() =~= seq![(5 * SCALE) as int, (5 * SCALE) as int],
    {
        let mut lower: Vec<Fix> = Vec::new();
        lower.push(Fix { units: -5 * SCALE });
        lower.push(Fix { units: -5 * SCALE });
        let mut upper: Vec<Fix> = Vec::new();
        upper.push(Fix { units: 5 * SCALE });
        upper.push(Fix { units: 5 * SCALE });
        RosenbrockND {
            a: Fix { units: SCALE },
            b: Fix { units: 100 * SCALE },
            lower_bound: lower,
            upper_bound: upper,
            rng: RwLock::new(rng_from_entropy(), Ghost(RngInv)),
        }
    }
}

} // verus!
