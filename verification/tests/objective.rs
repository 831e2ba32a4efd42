use argmin_exploring::error::Error;
use argmin_exploring::fixed::{Fix, Wide, SCALE};
use argmin_exploring::matrix::SquareMatrix;
use argmin_exploring::objective::{Maximized, RosenbrockVec};

fn fx(units: i64) -> Fix {
    Fix { units }
}

fn whole(v: i64) -> Fix {
    Fix::from_whole(v)
}

fn param2(x: i64, y: i64) -> Vec<Fix> {
    vec![whole(x), whole(y)]
}

#[test]
fn rosenbrock_vec_test_rosenbrock() {
    let f = RosenbrockVec::default();
    let params = vec![
        param2(10, 5),
        param2(5, 2),
        param2(0, 1),
        param2(-4, 0),
        param2(-10, -2),
    ];
    for param in params {
        let cost = f.cost(&param).unwrap();
        let gradient = f.gradient(&param).unwrap();
        let hessian = f.hessian(&param).unwrap();
        println!("With params {param:?}:");
        println!("\tcost: {cost:?}");
        println!("\tgradient: {gradient:?}");
        println!("\thessian: {hessian:?}");
    }
}

#[test]
fn cost_at_minimizer_is_zero() {
    // With a = 1, b = 100 the unique minimizer is [1, 1].
    let f = RosenbrockVec::default();
    let c = f.cost(&param2(1, 1)).unwrap();
    assert_eq!(c.units, 0);
}

#[test]
fn cost_at_10_5_by_direct_substitution() {
    // (1 - 10)^2 + 100 * (5 - 100)^2 = 81 + 902500 = 902581, at scale 1/SCALE^5.
    let f = RosenbrockVec::default();
    let c = f.cost(&param2(10, 5)).unwrap();
    assert_eq!(c.units, 902_581 * 100_000_000_000_000_000_000i128);
}

#[test]
fn cost_nonnegative_at_samples() {
    let f = RosenbrockVec::default();
    let samples = vec![
        param2(1, 1),
        param2(10, 5),
        param2(-10, -2),
        param2(0, 0),
        vec![fx(10_001), fx(10_002)],
        vec![fx(-3), fx(7)],
    ];
    for p in samples {
        let c = f.cost(&p).unwrap();
        assert!(c.units >= 0);
        if !(p[0].units == SCALE && p[1].units == SCALE) {
            assert!(c.units > 0, "cost vanished away from the minimizer: {p:?}");
        }
    }
}

#[test]
fn gradient_exact_values() {
    // df/dx = -2(a-x) - 4bx(y-x^2) = 380018, df/dy = 2b(y-x^2) = -19000 at
    // (10, 5) with a = 1, b = 100; gradient units are at scale 1/SCALE^4.
    let f = RosenbrockVec::default();
    let g = f.gradient(&param2(10, 5)).unwrap();
    assert_eq!(g.len(), 2);
    assert_eq!(g[0].units, 380_018 * 10_000_000_000_000_000i128);
    assert_eq!(g[1].units, -19_000 * 10_000_000_000_000_000i128);
}

#[test]
fn gradient_zero_at_minimizer() {
    let f = RosenbrockVec::default();
    let g = f.gradient(&param2(1, 1)).unwrap();
    assert_eq!(g[0].units, 0);
    assert_eq!(g[1].units, 0);
}

#[test]
fn gradient_matches_central_difference_exactly() {
    // For this quartic surface the central difference over step h equals the
    // analytic derivative exactly, up to the remainder 8*b*x*h^3 in the first
    // coordinate and with no remainder in the second. All quantities are
    // exact integers: cost at scale S^5, gradient at S^4, h at S.
    let f = RosenbrockVec::default();
    let pts: [(i64, i64); 4] = [(10_000, 10_000), (100_000, 50_000), (-40_000, 0), (25_000, -5_000)];
    let h: i64 = 100; // 0.01
    let b_units: i128 = 100 * SCALE as i128;
    for (x, y) in pts {
        let g = f.gradient(&vec![fx(x), fx(y)]).unwrap();
        let cxp = f.cost(&vec![fx(x + h), fx(y)]).unwrap().units;
        let cxm = f.cost(&vec![fx(x - h), fx(y)]).unwrap().units;
        let remainder = 8 * b_units * (x as i128) * (h as i128).pow(3);
        assert_eq!(cxp - cxm, 2 * (h as i128) * g[0].units + remainder);
        let cyp = f.cost(&vec![fx(x), fx(y + h)]).unwrap().units;
        let cym = f.cost(&vec![fx(x), fx(y - h)]).unwrap().units;
        assert_eq!(cyp - cym, 2 * (h as i128) * g[1].units);
    }
}

#[test]
fn gradient_matches_finite_difference_numerically() {
    // The same spread of points, read as real numbers: a central difference
    // of the cost approximates each gradient component within a small
    // tolerance.
    let f = RosenbrockVec::default();
    let cost_scale = 1e20f64;
    let grad_scale = 1e16f64;
    let pts: [(i64, i64); 5] =
        [(10_000, 10_000), (10_500, 11_000), (100_000, 50_000), (-40_000, 0), (25_000, -5_000)];
    let h: i64 = 10; // 0.001: the curvature remainder 4*b*x*h^2 stays tiny
    let h_real = h as f64 / SCALE as f64;
    for (x, y) in pts {
        let g = f.gradient(&vec![fx(x), fx(y)]).unwrap();
        let gx = g[0].units as f64 / grad_scale;
        let gy = g[1].units as f64 / grad_scale;
        let cxp = f.cost(&vec![fx(x + h), fx(y)]).unwrap().units as f64 / cost_scale;
        let cxm = f.cost(&vec![fx(x - h), fx(y)]).unwrap().units as f64 / cost_scale;
        let cyp = f.cost(&vec![fx(x), fx(y + h)]).unwrap().units as f64 / cost_scale;
        let cym = f.cost(&vec![fx(x), fx(y - h)]).unwrap().units as f64 / cost_scale;
        let fd_x = (cxp - cxm) / (2.0 * h_real);
        let fd_y = (cyp - cym) / (2.0 * h_real);
        assert!((fd_x - gx).abs() <= 1e-3 * (1.0 + gx.abs()), "x: {fd_x} vs {gx}");
        assert!((fd_y - gy).abs() <= 1e-3 * (1.0 + gy.abs()), "y: {fd_y} vs {gy}");
    }
}

#[test]
fn hessian_symmetric_at_samples() {
    let f = RosenbrockVec::default();
    let samples = vec![param2(1, 1), param2(10, 5), param2(-4, 0), vec![fx(123), fx(-456)]];
    for p in samples {
        let m = f.hessian(&p).unwrap();
        assert_eq!(m[0][1].units, m[1][0].units);
    }
}

#[test]
fn hessian_exact_values() {
    // d2f/dx2 = 2 + 12bx^2 - 4by = 118002, d2f/dxdy = -4bx = -4000,
    // d2f/dy2 = 2b = 200 at (10, 5) with a = 1, b = 100; Hessian units are
    // at scale 1/SCALE^3.
    let f = RosenbrockVec::default();
    let m = f.hessian(&param2(10, 5)).unwrap();
    assert_eq!(m[0][0].units, 118_002 * 1_000_000_000_000i128);
    assert_eq!(m[0][1].units, -4_000 * 1_000_000_000_000i128);
    assert_eq!(m[1][0].units, -4_000 * 1_000_000_000_000i128);
    assert_eq!(m[1][1].units, 200 * 1_000_000_000_000i128);
}

#[test]
fn maximized_negates_everything() {
    let base = RosenbrockVec::default();
    let max = Maximized::new(base);
    let samples = vec![param2(1, 1), param2(10, 5), param2(-4, 0), vec![fx(123), fx(-456)]];
    for p in samples {
        let c = base.cost(&p).unwrap();
        let nc = max.cost(&p).unwrap();
        assert_eq!(nc.units, -c.units);
        let g = base.gradient(&p).unwrap();
        let ng = max.gradient(&p).unwrap();
        assert_eq!(ng[0].units, -g[0].units);
        assert_eq!(ng[1].units, -g[1].units);
        let m = base.hessian(&p).unwrap();
        let nm = max.hessian(&p).unwrap();
        for i in 0..2 {
            for j in 0..2 {
                assert_eq!(nm[i][j].units, -m[i][j].units);
            }
        }
    }
}

#[test]
fn wrong_dimensionality_is_invalid_input() {
    let f = RosenbrockVec::default();
    let short = vec![whole(1)];
    let long = vec![whole(1), whole(2), whole(3)];
    assert_eq!(f.cost(&short), Err(Error::InvalidInput { expected: 2, found: 1 }));
    assert_eq!(f.gradient(&long).unwrap_err(), Error::InvalidInput { expected: 2, found: 3 });
    assert!(f.hessian(&Vec::new()).is_err());
    let max = Maximized::new(f);
    assert_eq!(max.cost(&short), Err(Error::InvalidInput { expected: 2, found: 1 }));
    assert_eq!(max.gradient(&short).unwrap_err(), Error::InvalidInput { expected: 2, found: 1 });
    assert_eq!(max.hessian(&long).unwrap_err(), Error::InvalidInput { expected: 2, found: 3 });
}

#[test]
fn nonpositive_coefficients_rejected_at_construction() {
    assert_eq!(
        RosenbrockVec::new(fx(0), whole(100)).unwrap_err(),
        Error::InvalidConstruction
    );
    assert_eq!(
        RosenbrockVec::new(whole(1), fx(-1)).unwrap_err(),
        Error::InvalidConstruction
    );
    assert!(RosenbrockVec::new(whole(1), whole(100)).is_ok());
}

#[test]
fn shape_mismatch_is_shape_error() {
    // A flat buffer whose length is not side * side must be rejected, never
    // silently truncated.
    let flat3 = vec![Wide { units: 1 }, Wide { units: 2 }, Wide { units: 3 }];
    match SquareMatrix::from_flat(2, flat3) {
        Err(Error::ShapeError { expected, found }) => {
            assert_eq!(expected, 2);
            assert_eq!(found, 3);
        }
        other => panic!("expected a shape error, got {other:?}"),
    }
    let flat4 =
        vec![Wide { units: 1 }, Wide { units: 2 }, Wide { units: 3 }, Wide { units: 4 }];
    let m = SquareMatrix::from_flat(2, flat4).unwrap();
    assert_eq!(m.side(), 2);
    assert_eq!(m.get(1, 0).units, 3);
}
