use bearing_factors::formula::Expr;
use bearing_factors::methods::{ec7, hansen, meyerhof, plan, terzaghi, vesic, Method, MethodPlan};

const PI: f64 = std::f64::consts::PI;

/// Interprets a formula at a given friction angle, in degrees.
fn eval(e: &Expr, phi: f64) -> f64 {
    match e {
        Expr::Phi => phi,
        Expr::Pi => PI,
        Expr::Rat(n, d) => (*n as f64) / (*d as f64),
        Expr::Add(a, b) => eval(a, phi) + eval(b, phi),
        Expr::Sub(a, b) => eval(a, phi) - eval(b, phi),
        Expr::Mul(a, b) => eval(a, phi) * eval(b, phi),
        Expr::Div(a, b) => eval(a, phi) / eval(b, phi),
        Expr::Tan(a) => eval(a, phi).tan(),
        Expr::Sin(a) => eval(a, phi).sin(),
        Expr::Cos(a) => eval(a, phi).cos(),
        Expr::Exp(a) => eval(a, phi).exp(),
        Expr::Sq(a) => eval(a, phi).powi(2),
        Expr::IfPhiPos(a, b) => {
            if phi > 0.0 {
                eval(a, phi)
            } else {
                eval(b, phi)
            }
        }
    }
}

fn factors(p: &MethodPlan, phi: f64) -> (f64, f64, f64) {
    (eval(&p.nc, phi), eval(&p.nq, phi), eval(&p.ngamma, phi))
}

fn rel_close(a: f64, b: f64, tol: f64) -> bool {
    (a - b).abs() <= tol * b.abs().max(1.0)
}

#[test]
fn nq_golden_at_thirty_degrees() {
    let phi: f64 = 30.0;
    // The shared surcharge formula, written out directly.
    let shared = (PI * (phi * PI / 180.0).tan()).exp()
        * ((45.0 + phi / 2.0) * PI / 180.0).tan().powi(2);
    // Terzaghi's surcharge formula, written out directly.
    let e = (PI * (0.75 - phi / 360.0) * (phi * PI / 180.0).tan()).exp();
    let terz = e.powi(2) / (2.0 * ((45.0 + phi / 2.0) * PI / 180.0).cos().powi(2));

    for m in [meyerhof(), vesic(), hansen(), ec7()] {
        let nq = eval(&m.nq, phi);
        assert!(rel_close(nq, shared, 1e-6));
        assert!(rel_close(nq, 18.401122218708668, 1e-6));
    }
    let nq_t = eval(&terzaghi().nq, phi);
    assert!(rel_close(nq_t, terz, 1e-6));
    assert!(rel_close(nq_t, 22.45574161854344, 1e-6));
}

#[test]
fn zero_angle_limits() {
    // At phi = 0 both surcharge formulas reduce to tan(45 degrees) squared
    // (times exp(0)); in f64 that tangent rounds one ulp below one, so Nq
    // lands at 0.9999999999999998 rather than exactly 1.0.
    let (nc, nq, ngamma) = factors(&terzaghi(), 0.0);
    assert_eq!(nc, 5.71);
    assert!((nq - 1.0).abs() <= 1e-15);
    assert_eq!(ngamma, 0.0);

    for p in [meyerhof(), vesic(), hansen(), ec7()] {
        let (nc, nq, ngamma) = factors(&p, 0.0);
        assert_eq!(nc, 5.14);
        assert!((nq - 1.0).abs() <= 1e-15);
        assert_eq!(ngamma, 0.0);
    }
}

#[test]
fn negative_angle_also_takes_the_limit_branch() {
    assert_eq!(eval(&terzaghi().nc, -3.0), 5.71);
    assert_eq!(eval(&meyerhof().nc, -3.0), 5.14);
}

#[test]
fn cohesion_positive_and_finite_in_range() {
    let plans = [terzaghi(), meyerhof(), vesic(), hansen(), ec7()];
    let mut phi: f64 = 0.5;
    while phi <= 45.0 {
        for p in &plans {
            let nc = eval(&p.nc, phi);
            assert!(nc.is_finite());
            assert!(nc > 0.0);
        }
        phi += 0.5;
    }
    // The open lower end of the range, close to zero.
    for p in &plans {
        let nc = eval(&p.nc, 1e-9);
        assert!(nc.is_finite());
        assert!(nc > 0.0);
    }
}

#[test]
fn repeated_calls_bit_identical() {
    for m in [
        Method::Terzaghi,
        Method::Meyerhof,
        Method::Vesic,
        Method::Hansen,
        Method::Ec7,
    ] {
        assert_eq!(plan(m), plan(m));
        for phi in [0.0, 7.25, 20.0, 33.3, 45.0] {
            let (nc1, nq1, ng1) = factors(&plan(m), phi);
            let (nc2, nq2, ng2) = factors(&plan(m), phi);
            assert_eq!(nc1.to_bits(), nc2.to_bits());
            assert_eq!(nq1.to_bits(), nq2.to_bits());
            assert_eq!(ng1.to_bits(), ng2.to_bits());
        }
    }
}

#[test]
fn shared_surcharge_equal_and_terzaghi_differs() {
    // The four non-Terzaghi plans hold one and the same surcharge formula.
    assert_eq!(meyerhof().nq, vesic().nq);
    assert_eq!(vesic().nq, hansen().nq);
    assert_eq!(hansen().nq, ec7().nq);
    assert_ne!(terzaghi().nq, meyerhof().nq);

    for phi in [0.0, 5.0, 12.5, 20.0, 30.0, 45.0] {
        let base = eval(&meyerhof().nq, phi);
        assert_eq!(base.to_bits(), eval(&vesic().nq, phi).to_bits());
        assert_eq!(base.to_bits(), eval(&hansen().nq, phi).to_bits());
        assert_eq!(base.to_bits(), eval(&ec7().nq, phi).to_bits());
        if phi > 0.0 {
            assert_ne!(eval(&terzaghi().nq, phi), base);
        }
    }
}

#[test]
fn meyerhof_at_twenty_degrees() {
    let (nc, nq, ngamma) = factors(&meyerhof(), 20.0);
    assert!(rel_close(nq, 6.3993, 1e-3));
    assert!(rel_close(nc, 14.835, 1e-3));
    assert!(rel_close(ngamma, 2.871, 1e-3));
}

#[test]
fn plan_dispatch_matches_method_builders() {
    assert_eq!(plan(Method::Terzaghi), terzaghi());
    assert_eq!(plan(Method::Meyerhof), meyerhof());
    assert_eq!(plan(Method::Vesic), vesic());
    assert_eq!(plan(Method::Hansen), hansen());
    assert_eq!(plan(Method::Ec7), ec7());
}

#[test]
fn limiting_constants_in_plan() {
    for (m, num) in [
        (Method::Terzaghi, 571),
        (Method::Meyerhof, 514),
        (Method::Vesic, 514),
        (Method::Hansen, 514),
        (Method::Ec7, 514),
    ] {
        match plan(m).nc {
            Expr::IfPhiPos(_, limit) => assert_eq!(*limit, Expr::Rat(num, 100)),
            other => panic!("cohesion factor is not a branch: {:?}", other),
        }
    }
}
