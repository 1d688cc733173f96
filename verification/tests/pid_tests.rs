use naominagata::pid::Pid;
use naominagata::scalar::Scalar;

fn s(x: f64) -> Scalar {
    Scalar::from_bits(x.to_bits())
}

fn f(x: Scalar) -> f64 {
    f64::from_bits(x.to_bits())
}

fn pid(kp: f64, ki: f64, kd: f64) -> Pid {
    Pid::new(s(kp), s(ki), s(kd))
}

fn step(pid: &mut Pid, error: f64, dt: f64) -> f64 {
    assert!(dt > 0.0, "dt ({}) must be > 0", dt);
    f(pid.update(s(error), s(dt)))
}

#[test]
fn zero_error_gives_zero_output() {
    let mut pid = pid(1.0, 0.5, 0.1);
    let u = step(&mut pid, 0.0, 0.01);
    assert_eq!(u, 0.0);
}

#[test]
fn non_zero_error_produces_output() {
    let mut pid = pid(1.0, 0.0, 0.0);
    let u = step(&mut pid, 2.0, 0.02);
    assert_eq!(u, 2.0); // purely proportional
}

#[test]
fn zero_error_at_every_call_gives_zero_output() {
    let mut pid = pid(1.0, 0.5, 0.1);
    for _ in 0..50 {
        assert_eq!(step(&mut pid, 0.0, 0.01), 0.0);
    }
    let mut other = Pid::new(s(-7.25), s(1e9), s(3.0e-7));
    for _ in 0..50 {
        assert_eq!(step(&mut other, -0.0, 1.0 / 60.0), 0.0);
    }
}

#[test]
fn first_update_integrates_by_a_rectangle() {
    let mut pid = pid(2.0, 0.5, 0.1);
    // p = 2, integral = 1 * 0.5, i = 0.25, d = 0
    assert_eq!(step(&mut pid, 1.0, 0.5), 2.25);
}

#[test]
fn later_updates_integrate_by_a_trapezoid_and_differentiate_backwards() {
    let mut pid = pid(2.0, 0.5, 0.1);
    step(&mut pid, 1.0, 0.5);
    // p = 6, integral = 0.5 + 0.5 * (3 + 1) * 0.5 = 1.5, i = 0.75,
    // d = 0.1 * (3 - 1) / 0.5
    let expected = 2.0 * 3.0 + 0.5 * (0.5 + 0.5 * (3.0 + 1.0) * 0.5) + 0.1 * ((3.0 - 1.0) / 0.5);
    let u = step(&mut pid, 3.0, 0.5);
    assert_eq!(u, expected);
    assert!((u - 7.15).abs() < 1e-12);
}

#[test]
fn integral_term_grows_under_constant_positive_error() {
    let mut pid = pid(0.0, 0.5, 0.0);
    let mut last = 0.0;
    for k in 0..200 {
        let u = step(&mut pid, 1.5, 0.02);
        assert!(u > last, "step {}: {} after {}", k, u, last);
        last = u;
    }
    // 0.5 * (1.5 * 0.02 * 200)
    assert!((last - 3.0).abs() < 1e-9);
}

#[test]
fn integral_is_not_clamped() {
    let mut pid = pid(0.0, 1.0, 0.0);
    let mut u = 0.0;
    for _ in 0..1000 {
        u = step(&mut pid, 1.0e6, 1.0);
    }
    assert!((u - 1.0e9).abs() < 1.0);
}

#[test]
fn reset_restores_the_purely_proportional_output() {
    let mut pid = pid(3.0, 0.0, 0.25);
    step(&mut pid, 1.0, 0.02);
    let with_history = step(&mut pid, 2.0, 0.02);
    assert!(with_history != 6.0);
    pid.reset();
    assert_eq!(step(&mut pid, 2.0, 0.02), 6.0);
}

#[test]
fn reset_makes_the_controller_answer_as_a_new_one() {
    let mut used = pid(1.25, 0.75, 0.5);
    step(&mut used, 0.3, 0.02);
    step(&mut used, -0.8, 0.02);
    used.reset();
    let mut new = pid(1.25, 0.75, 0.5);
    for &e in &[0.4, 0.1, -0.2, 0.9] {
        let a = step(&mut used, e, 0.02);
        let b = step(&mut new, e, 0.02);
        assert_eq!(a.to_bits(), b.to_bits());
    }
}

#[test]
fn output_matches_the_formula_in_double_precision() {
    let (kp, ki, kd) = (8.0, 0.3, 5.0);
    let dt = 1.0 / 60.0;
    let mut pid = pid(kp, ki, kd);
    let mut integral = 0.0f64;
    let mut prev: Option<f64> = None;
    for k in 0..100 {
        let e = (k as f64 * 0.37).sin() * 0.5;
        let p = kp * e;
        integral += match prev {
            Some(q) => 0.5 * (e + q) * dt,
            None => e * dt,
        };
        let i = ki * integral;
        let d = kd * match prev {
            Some(q) => (e - q) / dt,
            None => 0.0,
        };
        prev = Some(e);
        assert_eq!(step(&mut pid, e, dt).to_bits(), (p + i + d).to_bits());
    }
}
