//! The Rosenbrock surface `f(x, y) = (a - x)^2 + b * (y - x^2)^2` and its
//! exact analytic gradient and Hessian, evaluated over decimal fixed point.
//!
//! All four scalars `a`, `b`, `x`, `y` enter as units of `1/SCALE` (see
//! [`crate::fixed`]). The results are exact integers at fixed scales:
//!
//! * cost: units of `1/SCALE^5`,
//! * gradient components: units of `1/SCALE^4`,
//! * Hessian entries: units of `1/SCALE^3`.
//!
//! Because no rounding happens anywhere, the contracts pin each result to a
//! closed-form polynomial of the inputs, and the laws of the surface
//! (non-negativity, the unique minimizer, symmetry of the Hessian, exactness
//! of central differences) are proved once here, for every input.

use crate::fixed::{MAX_UNITS, SCALE};
use vstd::prelude::*;

verus! {

/// `SCALE` as a mathematical integer.
pub open spec fn scale_int() -> int {
    SCALE as int
}

/// `SCALE^3`, the scale of Hessian entries.
pub open spec fn scale3() -> int {
    scale_int() * scale_int() * scale_int()
}

/// Cost in units of `1/SCALE^5`: `(a - x)^2 * SCALE^3 + b * (y*SCALE - x^2)^2`.
pub open spec fn cost_units(a: int, b: int, x: int, y: int) -> int {
    ((a - x) * (a - x)) * scale3() + (b * (y * scale_int() - x * x)) * (y * scale_int() - x * x)
}

/// First gradient component `df/dx = -2(a - x) - 4 b x (y - x^2)`, in units
/// of `1/SCALE^4`.
pub open spec fn grad_x_units(a: int, b: int, x: int, y: int) -> int {
    (-2) * ((a - x) * scale3()) - (4 * (b * x)) * (y * scale_int() - x * x)
}

/// Second gradient component `df/dy = 2 b (y - x^2)`, in units of
/// `1/SCALE^4`.
pub open spec fn grad_y_units(a: int, b: int, x: int, y: int) -> int {
    (2 * (b * scale_int())) * (y * scale_int() - x * x)
}

/// Hessian entry `d2f/dx2 = 2 + 12 b x^2 - 4 b y`, in units of `1/SCALE^3`.
pub open spec fn hess_xx_units(a: int, b: int, x: int, y: int) -> int {
    2 * scale3() + (12 * (b * x)) * x - (4 * (b * y)) * scale_int()
}

/// Mixed Hessian entry `d2f/dxdy = d2f/dydx = -4 b x`, in units of
/// `1/SCALE^3`.
pub open spec fn hess_xy_units(a: int, b: int, x: int, y: int) -> int {
    (-4) * ((b * x) * scale_int())
}

/// Hessian entry `d2f/dy2 = 2 b`, in units of `1/SCALE^3`.
pub open spec fn hess_yy_units(a: int, b: int, x: int, y: int) -> int {
    (2 * (b * scale_int())) * scale_int()
}

/// The Hessian entry at row `i`, column `j`, in units of `1/SCALE^3`.
pub open spec fn hess_units(a: int, b: int, x: int, y: int, i: int, j: int) -> int {
    if i == 0 && j == 0 {
        hess_xx_units(a, b, x, y)
    } else if i == 1 && j == 1 {
        hess_yy_units(a, b, x, y)
    } else {
        hess_xy_units(a, b, x, y)
    }
}

/// Product magnitudes multiply: `|x| <= bx` and `|y| <= by` give
/// `|x * y| <= bx * by`.
proof fn lemma_mul_bound(x: int, y: int, bx: int, by: int)
    by (nonlinear_arith)
    requires
        -bx <= x <= bx,
        -by <= y <= by,
    ensures
        -(bx * by) <= x * y <= bx * by,
{
}

/// Evaluates the cost, exactly, in units of `1/SCALE^5`.
pub fn cost_eval(a: i64, b: i64, x: i64, y: i64) -> (r: i128)
    requires
        -MAX_UNITS <= a <= MAX_UNITS,
        -MAX_UNITS <= b <= MAX_UNITS,
        -MAX_UNITS <= x <= MAX_UNITS,
        -MAX_UNITS <= y <= MAX_UNITS,
    ensures
        r == cost_units(a as int, b as int, x as int, y as int),
        -1_000_000_000_000_000_000_000_000_000_000_000_000 <= r
            <= 1_000_000_000_000_000_000_000_000_000_000_000_000,
{
    let s: i128 = SCALE as i128;
    let s3: i128 = s * s * s;
    let d: i128 = (a as i128) - (x as i128);
    proof {
        lemma_mul_bound(x as int, x as int, MAX_UNITS as int, MAX_UNITS as int);
        lemma_mul_bound(y as int, scale_int(), MAX_UNITS as int, scale_int());
    }
    let u: i128 = (y as i128) * s - (x as i128) * (x as i128);
    proof {
        lemma_mul_bound(d as int, d as int, 20_000_000, 20_000_000);
        lemma_mul_bound((d * d) as int, s3 as int, 400_000_000_000_000, 1_000_000_000_000);
        lemma_mul_bound(b as int, u as int, MAX_UNITS as int, 100_100_000_000_000);
        lemma_mul_bound(
            (b as int) * (u as int),
            u as int,
            2_000_000_000_000_000_000_000,
            100_100_000_000_000,
        );
    }
    (d * d) * s3 + ((b as i128) * u) * u
}

/// Evaluates both gradient components, exactly, in units of `1/SCALE^4`.
pub fn gradient_eval(a: i64, b: i64, x: i64, y: i64) -> (r: (i128, i128))
    requires
        -MAX_UNITS <= a <= MAX_UNITS,
        -MAX_UNITS <= b <= MAX_UNITS,
        -MAX_UNITS <= x <= MAX_UNITS,
        -MAX_UNITS <= y <= MAX_UNITS,
    ensures
        r.0 == grad_x_units(a as int, b as int, x as int, y as int),
        r.1 == grad_y_units(a as int, b as int, x as int, y as int),
        -1_000_000_000_000_000_000_000_000_000_000_000_000 <= r.0
            <= 1_000_000_000_000_000_000_000_000_000_000_000_000,
        -1_000_000_000_000_000_000_000_000_000_000_000_000 <= r.1
            <= 1_000_000_000_000_000_000_000_000_000_000_000_000,
{
    let s: i128 = SCALE as i128;
    let s3: i128 = s * s * s;
    let d: i128 = (a as i128) - (x as i128);
    proof {
        lemma_mul_bound(x as int, x as int, MAX_UNITS as int, MAX_UNITS as int);
        lemma_mul_bound(y as int, scale_int(), MAX_UNITS as int, scale_int());
    }
    let u: i128 = (y as i128) * s - (x as i128) * (x as i128);
    proof {
        lemma_mul_bound(d as int, s3 as int, 20_000_000, 1_000_000_000_000);
        lemma_mul_bound(b as int, x as int, MAX_UNITS as int, MAX_UNITS as int);
        lemma_mul_bound(
            4 * ((b as int) * (x as int)),
            u as int,
            400_000_000_000_000,
            100_100_000_000_000,
        );
        lemma_mul_bound(b as int, scale_int(), MAX_UNITS as int, scale_int());
        lemma_mul_bound(
            2 * ((b as int) * scale_int()),
            u as int,
            200_000_000_000,
            100_100_000_000_000,
        );
    }
    let gx: i128 = (-2) * (d * s3) - (4 * ((b as i128) * (x as i128))) * u;
    let gy: i128 = (2 * ((b as i128) * s)) * u;
    (gx, gy)
}

/// Evaluates the four Hessian entries, exactly, in units of `1/SCALE^3`,
/// flat in row-major order: `[d2/dx2, d2/dxdy, d2/dydx, d2/dy2]`.
pub fn hessian_eval(a: i64, b: i64, x: i64, y: i64) -> (r: (i128, i128, i128))
    requires
        -MAX_UNITS <= a <= MAX_UNITS,
        -MAX_UNITS <= b <= MAX_UNITS,
        -MAX_UNITS <= x <= MAX_UNITS,
        -MAX_UNITS <= y <= MAX_UNITS,
    ensures
        r.0 == hess_xx_units(a as int, b as int, x as int, y as int),
        r.1 == hess_xy_units(a as int, b as int, x as int, y as int),
        r.2 == hess_yy_units(a as int, b as int, x as int, y as int),
        -1_000_000_000_000_000_000_000_000_000_000_000_000 <= r.0
            <= 1_000_000_000_000_000_000_000_000_000_000_000_000,
        -1_000_000_000_000_000_000_000_000_000_000_000_000 <= r.1
            <= 1_000_000_000_000_000_000_000_000_000_000_000_000,
        -1_000_000_000_000_000_000_000_000_000_000_000_000 <= r.2
            <= 1_000_000_000_000_000_000_000_000_000_000_000_000,
{
    let s: i128 = SCALE as i128;
    let s3: i128 = s * s * s;
    proof {
        lemma_mul_bound(b as int, x as int, MAX_UNITS as int, MAX_UNITS as int);
        lemma_mul_bound(
            12 * ((b as int) * (x as int)),
            x as int,
            1_200_000_000_000_000,
            MAX_UNITS as int,
        );
        lemma_mul_bound(b as int, y as int, MAX_UNITS as int, MAX_UNITS as int);
        lemma_mul_bound(
            4 * ((b as int) * (y as int)),
            scale_int(),
            400_000_000_000_000,
            scale_int(),
        );
        lemma_mul_bound((b as int) * (x as int), scale_int(), 100_000_000_000_000, scale_int());
        lemma_mul_bound(b as int, scale_int(), MAX_UNITS as int, scale_int());
        lemma_mul_bound(
            2 * ((b as int) * scale_int()),
            scale_int(),
            200_000_000_000,
            scale_int(),
        );
    }
    let hxx: i128 = 2 * s3 + (12 * ((b as i128) * (x as i128))) * (x as i128) - (4 * ((b as i128)
        * (y as i128))) * s;
    let hxy: i128 = (-4) * (((b as i128) * (x as i128)) * s);
    let hyy: i128 = (2 * ((b as i128) * s)) * s;
    (hxx, hxy, hyy)
}

/// With a positive curvature coefficient `b` the cost is non-negative
/// everywhere, and it vanishes exactly at the unique minimizer `x = a`,
/// `y = x^2` (in fixed point: `y * SCALE == x * x`).
pub proof fn lemma_cost_nonneg_min(a: int, b: int, x: int, y: int)
    requires
        b > 0,
    ensures
        cost_units(a, b, x, y) >= 0,
        cost_units(a, b, x, y) == 0 <==> (x == a && y * scale_int() == x * x),
{
    let d: int = a - x;
    let u: int = y * scale_int() - x * x;
    assert(scale3() == 1_000_000_000_000);
    assert(d * d >= 0) by (nonlinear_arith);
    assert((d * d) * scale3() >= 0) by (nonlinear_arith)
        requires
            d * d >= 0,
            scale3() > 0,
    ;
    assert(u * u >= 0) by (nonlinear_arith);
    assert((b * u) * u >= 0) by (nonlinear_arith)
        requires
            b > 0,
            u * u >= 0,
    ;
    if x == a && y * scale_int() == x * x {
        assert((d * d) * scale3() == 0) by (nonlinear_arith)
            requires
                d == 0,
        ;
        assert((b * u) * u == 0) by (nonlinear_arith)
            requires
                u == 0,
        ;
    }
    if cost_units(a, b, x, y) == 0 {
        assert((d * d) * scale3() == 0);
        assert(d == 0) by (nonlinear_arith)
            requires
                (d * d) * scale3() == 0,
                scale3() > 0,
        ;
        assert((b * u) * u == 0);
        assert(u == 0) by (nonlinear_arith)
            requires
                (b * u) * u == 0,
                b > 0,
        ;
    }
}

/// The Hessian of the surface is symmetric: the entry at `(i, j)` equals the
/// entry at `(j, i)`, at every point and for every coefficient pair.
pub proof fn lemma_hessian_symmetric(a: int, b: int, x: int, y: int, i: int, j: int)
    requires
        0 <= i < 2,
        0 <= j < 2,
    ensures
        hess_units(a, b, x, y, i, j) == hess_units(a, b, x, y, j, i),
{
}

/// Exactness of the central difference in the first coordinate: stepping
/// `h` either way along `x` recovers the analytic `df/dx` up to the exact
/// third-order remainder `8 b x h^3` of the quartic surface. (All values are
/// in fixed-point units, so both sides are integers at scale `1/SCALE^5`.)
pub proof fn lemma_central_difference_x(a: int, b: int, x: int, y: int, h: int)
    ensures
        cost_units(a, b, x + h, y) - cost_units(a, b, x - h, y) == 2 * h * grad_x_units(a, b, x, y)
            + 8 * ((b * x) * ((h * h) * h)),
{
    let s: int = scale_int();
    let s3: int = scale3();
    let d: int = a - x;
    let p: int = a - (x + h);
    let q: int = a - (x - h);
    let u: int = y * s - x * x;
    let v1: int = y * s - (x + h) * (x + h);
    let v2: int = y * s - (x - h) * (x - h);
    assert(p * p - q * q == (-4 * h) * d) by (nonlinear_arith)
        requires
            p == a - (x + h),
            q == a - (x - h),
            d == a - x,
    ;
    assert((p * p) * s3 - (q * q) * s3 == ((-4 * h) * d) * s3) by (nonlinear_arith)
        requires
            p * p - q * q == (-4 * h) * d,
    ;
    assert(v1 == u - 2 * (x * h) - h * h) by (nonlinear_arith)
        requires
            v1 == y * s - (x + h) * (x + h),
            u == y * s - x * x,
    ;
    assert(v2 == u + 2 * (x * h) - h * h) by (nonlinear_arith)
        requires
            v2 == y * s - (x - h) * (x - h),
            u == y * s - x * x,
    ;
    assert(v1 * v1 - v2 * v2 == (v1 - v2) * (v1 + v2)) by (nonlinear_arith);
    assert(v1 - v2 == (-4) * (x * h));
    assert(v1 + v2 == 2 * u - 2 * (h * h));
    assert(((-4) * (x * h)) * (2 * u - 2 * (h * h)) == (-8) * (x * (h * u)) + 8 * (x * ((h * h)
        * h))) by (nonlinear_arith);
    assert(v1 * v1 - v2 * v2 == (-8) * (x * (h * u)) + 8 * (x * ((h * h) * h)));
    assert((b * v1) * v1 - (b * v2) * v2 == b * (v1 * v1 - v2 * v2)) by (nonlinear_arith);
    assert(b * ((-8) * (x * (h * u)) + 8 * (x * ((h * h) * h))) == (-8) * ((b * x) * (h * u)) + 8 * (
    (b * x) * ((h * h) * h))) by (nonlinear_arith);
    let gx: int = (-2) * (d * s3) - (4 * (b * x)) * u;
    assert(grad_x_units(a, b, x, y) == gx);
    assert(2 * h * gx == ((-4 * h) * d) * s3 + (-8) * ((b * x) * (h * u))) by (nonlinear_arith)
        requires
            gx == (-2) * (d * s3) - (4 * (b * x)) * u,
    ;
    assert(cost_units(a, b, x + h, y) == (p * p) * s3 + (b * v1) * v1);
    assert(cost_units(a, b, x - h, y) == (q * q) * s3 + (b * v2) * v2);
}

/// Exactness of the central difference in the second coordinate: the
/// surface is quadratic in `y`, so stepping `h` either way along `y`
/// recovers the analytic `df/dy` with no remainder at all.
pub proof fn lemma_central_difference_y(a: int, b: int, x: int, y: int, h: int)
    ensures
        cost_units(a, b, x, y + h) - cost_units(a, b, x, y - h) == 2 * h * grad_y_units(a, b, x, y),
{
    let s: int = scale_int();
    let u: int = y * s - x * x;
    let w1: int = (y + h) * s - x * x;
    let w2: int = (y - h) * s - x * x;
    assert(w1 == u + h * s) by (nonlinear_arith)
        requires
            w1 == (y + h) * s - x * x,
            u == y * s - x * x,
    ;
    assert(w2 == u - h * s) by (nonlinear_arith)
        requires
            w2 == (y - h) * s - x * x,
            u == y * s - x * x,
    ;
    assert((b * w1) * w1 - (b * w2) * w2 == 2 * h * ((2 * (b * s)) * u)) by (nonlinear_arith)
        requires
            w1 == u + h * s,
            w2 == u - h * s,
    ;
}

} // verus!
