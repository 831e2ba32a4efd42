use argmin_exploring::anneal::{steps_for, RosenbrockND};
use argmin_exploring::error::Error;
use argmin_exploring::fixed::{Fix, SCALE};

fn fx(units: i64) -> Fix {
    Fix { units }
}

fn whole(v: i64) -> Fix {
    Fix::from_whole(v)
}

fn param2(x: i64, y: i64) -> Vec<Fix> {
    vec![whole(x), whole(y)]
}

fn default_bounds() -> (Vec<Fix>, Vec<Fix>) {
    (vec![whole(-5), whole(-5)], vec![whole(5), whole(5)])
}

#[test]
fn rosenbrock_ndarray_test_rosenbrock() {
    let f = RosenbrockND::default();
    let params = vec![
        param2(10, 5),
        param2(5, 2),
        param2(0, 1),
        param2(-4, 0),
        param2(-10, -2),
    ];
    for param in params {
        let cost = f.cost(&param).unwrap();
        let gradient = f.gradient(&param).unwrap();
        let hessian = f.hessian(&param).unwrap();
        println!("With params {param:?}:");
        println!("\tcost: {cost:?}");
        println!("\tgradient: {gradient:?}");
        println!(
            "\thessian: [[{}, {}], [{}, {}]]",
            hessian.get(0, 0).units,
            hessian.get(0, 1).units,
            hessian.get(1, 0).units,
            hessian.get(1, 1).units
        );
    }
}

#[test]
fn nd_matches_vec_objective() {
    let nd = RosenbrockND::default();
    let v = argmin_exploring::objective::RosenbrockVec::default();
    for p in [param2(10, 5), param2(1, 1), param2(-4, 0)] {
        assert_eq!(nd.cost(&p).unwrap().units, v.cost(&p).unwrap().units);
        let gn = nd.gradient(&p).unwrap();
        let gv = v.gradient(&p).unwrap();
        assert_eq!(gn[0].units, gv[0].units);
        assert_eq!(gn[1].units, gv[1].units);
        let hn = nd.hessian(&p).unwrap();
        let hv = v.hessian(&p).unwrap();
        for i in 0..2 {
            for j in 0..2 {
                assert_eq!(hn.get(i, j).units, hv[i][j].units);
            }
        }
    }
}

#[test]
fn nd_hessian_is_symmetric() {
    let f = RosenbrockND::default();
    for p in [param2(10, 5), param2(0, 1), vec![fx(123), fx(-9_876)]] {
        let m = f.hessian(&p).unwrap();
        assert_eq!(m.get(0, 1).units, m.get(1, 0).units);
    }
}

#[test]
fn step_count_follows_temperature() {
    // floor(temp) + 1 steps: temperature zero gives exactly one step,
    // temperature 9.5 exactly ten.
    assert_eq!(steps_for(fx(0)), 1);
    assert_eq!(steps_for(Fix { units: 95_000 }), 10);
    assert_eq!(steps_for(whole(1)), 2);
    assert_eq!(steps_for(fx(9_999)), 1);
    // Non-decreasing along a rising sweep.
    let mut last = 0u64;
    for t in [0i64, 1, 9_999, 10_000, 15_000, 95_000, 1_000_000] {
        let s = steps_for(fx(t));
        assert!(s >= last);
        last = s;
    }
}

#[test]
fn anneal_keeps_length_and_bounds() {
    // For feasible parameters, any temperature and any seed, the perturbed
    // output has the input's length and every component stays within the
    // bounds.
    let (lower, upper) = default_bounds();
    for seed in [0u64, 1, 7, 42, 123_456_789] {
        let f = RosenbrockND::with_seed(
            whole(1),
            whole(100),
            lower.clone(),
            upper.clone(),
            seed,
        )
        .unwrap();
        for temp in [fx(0), fx(5_000), whole(1), Fix { units: 95_000 }, whole(40)] {
            for p in [param2(0, 0), param2(5, 5), param2(-5, -5), vec![fx(1), fx(-1)]] {
                let out = f.anneal(&p, temp).unwrap();
                assert_eq!(out.len(), p.len());
                for i in 0..out.len() {
                    assert!(lower[i].units <= out[i].units);
                    assert!(out[i].units <= upper[i].units);
                }
            }
        }
    }
}

#[test]
fn anneal_moves_a_component() {
    // Ten steps of up to a tenth each: for this seed the walk leaves the
    // starting point (each step moves one component by up to 1000 units).
    let (lower, upper) = default_bounds();
    let f = RosenbrockND::with_seed(whole(1), whole(100), lower, upper, 7).unwrap();
    let p = param2(0, 0);
    let out = f.anneal(&p, Fix { units: 95_000 }).unwrap();
    assert!(out[0].units != 0 || out[1].units != 0);
    // And never by more than the step count times the largest delta.
    assert!(out[0].units.abs() <= 10 * 1_000);
    assert!(out[1].units.abs() <= 10 * 1_000);
}

#[test]
fn anneal_rejects_length_mismatch() {
    let f = RosenbrockND::default();
    let bad = vec![whole(0)];
    assert_eq!(
        f.anneal(&bad, fx(0)).err().unwrap(),
        Error::InvalidInput { expected: 2, found: 1 }
    );
    assert_eq!(
        f.anneal(&Vec::new(), fx(0)).err().unwrap(),
        Error::InvalidInput { expected: 2, found: 0 }
    );
}

#[test]
fn construction_invariants_rejected_early() {
    // Mismatched bound lengths.
    assert_eq!(
        RosenbrockND::new(whole(1), whole(100), vec![whole(-5)], vec![whole(5), whole(5)])
            .err().unwrap(),
        Error::InvalidConstruction
    );
    // A lower bound above its upper bound.
    assert_eq!(
        RosenbrockND::new(whole(1), whole(100), vec![whole(-5), whole(6)], vec![
            whole(5),
            whole(5),
        ])
        .err().unwrap(),
        Error::InvalidConstruction
    );
    // A non-positive curvature coefficient.
    let (lower, upper) = default_bounds();
    assert_eq!(
        RosenbrockND::new(whole(1), fx(0), lower.clone(), upper.clone()).err().unwrap(),
        Error::InvalidConstruction
    );
    assert!(RosenbrockND::new(whole(1), whole(100), lower, upper).is_ok());
}

#[test]
fn seeded_runs_are_reproducible() {
    let (lower, upper) = default_bounds();
    let f1 = RosenbrockND::with_seed(whole(1), whole(100), lower.clone(), upper.clone(), 99)
        .unwrap();
    let f2 = RosenbrockND::with_seed(whole(1), whole(100), lower, upper, 99).unwrap();
    let p = param2(1, 1);
    let a = f1.anneal(&p, whole(3)).unwrap();
    let b = f2.anneal(&p, whole(3)).unwrap();
    for i in 0..2 {
        assert_eq!(a[i].units, b[i].units);
    }
}
