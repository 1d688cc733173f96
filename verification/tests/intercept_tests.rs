use naominagata::intercept::{
    accept_root, earliest_positive, firing_solution_const_accel, firing_solution_const_vel, project,
    refresh_time, valid_time, Quartic, BULLET_SPEED_BITS, MAX_ITER,
};
use naominagata::scalar::Scalar;
use naominagata::vec2::Vec2;

fn s(x: f64) -> Scalar {
    Scalar::from_bits(x.to_bits())
}

fn f(x: Scalar) -> f64 {
    f64::from_bits(x.to_bits())
}

fn v(x: f64, y: f64) -> Vec2 {
    Vec2::new(s(x), s(y))
}

fn const_vel(r: (f64, f64), vel: (f64, f64), speed: f64) -> Option<(f64, f64, f64)> {
    firing_solution_const_vel(v(r.0, r.1), v(vel.0, vel.1), s(speed))
        .map(|(t, p)| (f(t), f(p.x), f(p.y)))
}

fn const_accel(r: (f64, f64), vel: (f64, f64), a: (f64, f64), speed: f64, guess: f64) -> f64 {
    f(firing_solution_const_accel(
        v(r.0, r.1),
        v(vel.0, vel.1),
        v(a.0, a.1),
        s(speed),
        s(guess),
        s(1e-4),
    ))
}

#[test]
fn bullet_speed_is_a_thousand() {
    assert_eq!(f(Scalar::from_bits(BULLET_SPEED_BITS)), 1000.0);
    assert_eq!(MAX_ITER, 100);
}

#[test]
fn stationary_target_is_hit_after_distance_over_speed() {
    let (t, x, y) = const_vel((3000.0, 4000.0), (0.0, 0.0), 1000.0).unwrap();
    assert_eq!(t, 5.0);
    assert_eq!((x, y), (3000.0, 4000.0));
}

#[test]
fn constant_velocity_solution_meets_the_target() {
    let cases = [
        ((1000.0, 0.0), (0.0, 100.0), 1000.0),
        ((500.0, -250.0), (-30.0, 45.0), 1000.0),
        ((-2000.0, 1500.0), (200.0, 300.0), 800.0),
        ((10.0, 10.0), (-400.0, -400.0), 600.0),
        ((0.0, 5000.0), (120.0, 0.0), 1000.0),
    ];
    for &(r, vel, speed) in &cases {
        let (t, x, y) = const_vel(r, vel, speed).unwrap();
        assert!(t > 0.0);
        assert!((x - (r.0 + vel.0 * t)).abs() < 1e-9);
        assert!((y - (r.1 + vel.1 * t)).abs() < 1e-9);
        let range = (x * x + y * y).sqrt();
        assert!((range - speed * t).abs() < 1e-6 * range.max(1.0), "{} vs {}", range, speed * t);
    }
}

#[test]
fn constant_velocity_solution_is_the_smallest_positive_root() {
    // A slower projectile than the target, which comes closer: both roots
    // are positive, and the earlier one is taken.
    let r = (1000.0, 0.0);
    let vel = (-300.0, 0.0);
    let speed = 100.0;
    let (t, x, _) = const_vel(r, vel, speed).unwrap();
    // |1000 - 300 t| = 100 t at t = 2.5 and at t = 5
    assert!((t - 2.5).abs() < 1e-12);
    assert!((x - 250.0).abs() < 1e-9);
}

#[test]
fn crossing_target_has_the_expected_lead() {
    // r = (1000, 0), v = (0, 100), s = 1000: t = 1000 / sqrt(1000^2 - 100^2)
    let (t, x, y) = const_vel((1000.0, 0.0), (0.0, 100.0), 1000.0).unwrap();
    let expected = 1000.0 / (1000.0f64 * 1000.0 - 100.0 * 100.0).sqrt();
    assert!((t - expected).abs() < 1e-12);
    assert_eq!(x, 1000.0);
    assert!((y - 100.0 * expected).abs() < 1e-9);
}

#[test]
fn no_solution_for_a_faster_target_moving_directly_away() {
    assert!(const_vel((1000.0, 0.0), (1500.0, 0.0), 1000.0).is_none());
    assert!(const_vel((0.0, -200.0), (0.0, -1000.5), 1000.0).is_none());
    assert!(const_vel((300.0, 400.0), (600.0, 800.0), 999.0).is_none());
}

#[test]
fn no_solution_for_a_target_as_fast_as_the_projectile_moving_directly_away() {
    // The quadratic is left with 2 v.r t + r.r = 0, whose root is in the
    // past.
    assert!(const_vel((1000.0, 0.0), (1000.0, 0.0), 1000.0).is_none());
    assert!(const_vel((0.0, 3.0), (0.0, 1000.0), 1000.0).is_none());
}

#[test]
fn target_as_fast_as_the_projectile_is_met_head_on() {
    // |1000 - 1000 t| = 1000 t at t = 1 / 2
    let (t, x, y) = const_vel((1000.0, 0.0), (-1000.0, 0.0), 1000.0).unwrap();
    assert_eq!(t, 0.5);
    assert_eq!((x, y), (500.0, 0.0));
    // r = (300, 400), v = (-600, -800): 2 v.r = -1e6, r.r = 250000
    let (t, x, y) = const_vel((300.0, 400.0), (-600.0, -800.0), 1000.0).unwrap();
    assert_eq!(t, 0.25);
    assert_eq!((x, y), (150.0, 200.0));
}

#[test]
fn quadratic_with_a_small_lead_is_solved_without_dividing_by_it() {
    // v.v - s^2 is about 2e-7, under the threshold of 1e-6. The root is
    // 1/2 + a c^2 / |b|^3, a little over a half.
    let speed = 1000.0 - 1e-10;
    let a: f64 = 1000.0 * 1000.0 - speed * speed;
    assert!(a > 0.0 && a < 1e-6);
    let (t, x, _) = const_vel((1000.0, 0.0), (-1000.0, 0.0), speed).unwrap();
    assert!((t - 0.5).abs() < 1e-12, "{}", t);
    assert!((x - speed * t).abs() < 1e-9);
}

#[test]
fn slow_projectile_meets_a_target_at_rest() {
    // s = 2^-11: the lead of the quadratic is -2^-22, far under 1e-6, and
    // the target one unit away is met after 2048.
    let speed = 1.0 / 2048.0;
    let (t, x, y) = const_vel((1.0, 0.0), (0.0, 0.0), speed).unwrap();
    assert_eq!(t, 2048.0);
    assert_eq!((x, y), (1.0, 0.0));
    let (t, x, y) = const_vel((0.0, -3.0), (0.0, 0.0), speed).unwrap();
    assert_eq!(t, 3.0 * 2048.0);
    assert_eq!((x, y), (0.0, -3.0));
}

#[test]
fn slow_projectile_meets_a_slower_target_coming_closer() {
    // r = (1, 0), v = (-2^-12, 0), s = 2^-11:
    // |1 - t / 4096| = t / 2048 at t = 4096 / 3
    let (t, x, y) = const_vel((1.0, 0.0), (-1.0 / 4096.0, 0.0), 1.0 / 2048.0).unwrap();
    assert_eq!(t, 4096.0 / 3.0);
    assert!((x - 2.0 / 3.0).abs() < 1e-15);
    assert_eq!(y, 0.0);
    assert!((x - t / 2048.0).abs() < 1e-15);
}

#[test]
fn slow_projectile_meets_a_slower_target_running_away() {
    // r = (1, 0), v = (2^-12, 0), s = 2^-11:
    // 1 + t / 4096 = t / 2048 at t = 4096
    let (t, x, _) = const_vel((1.0, 0.0), (1.0 / 4096.0, 0.0), 1.0 / 2048.0).unwrap();
    assert_eq!(t, 4096.0);
    assert_eq!(x, 2.0);
}

#[test]
fn slow_projectile_finds_the_earlier_of_two_meetings() {
    // r = (1, 0), v = (-3 2^-12, 0), s = 2^-12: the faster target passes
    // through the reach of the projectile; |1 - 3u| = u at u = 1/4 and
    // u = 1/2, with u = t / 4096.
    let (t, x, _) = const_vel((1.0, 0.0), (-3.0 / 4096.0, 0.0), 1.0 / 4096.0).unwrap();
    assert_eq!(t, 1024.0);
    assert_eq!(x, 0.25);
}

#[test]
fn slow_projectile_never_meets_a_faster_target_running_away() {
    assert!(const_vel((1.0, 0.0), (1.0 / 1024.0, 0.0), 1.0 / 2048.0).is_none());
    assert!(const_vel((1.0, 0.0), (1.0 / 2048.0, 0.0), 1.0 / 2048.0).is_none());
    assert!(const_vel((0.0, 2.0), (0.0, 1e-5), 1e-6).is_none());
}

#[test]
fn slow_projectile_never_meets_a_fast_target_passing_far_off() {
    // The discriminant is negative.
    assert!(const_vel((0.0, 1.0), (1.0 / 1024.0, 0.0), 1.0 / 4096.0).is_none());
}

#[test]
fn solution_exists_and_meets_the_target_at_every_scale_of_speed() {
    let scales: [f64; 7] = [1e-6, 1e-4, 1.0 / 2048.0, 1e-3, 0.5, 30.0, 1000.0];
    let shapes: [((f64, f64), (f64, f64)); 6] = [
        ((1.0, 0.0), (0.0, 0.0)),
        ((1.0, 0.0), (-0.5, 0.0)),
        ((1.0, 0.0), (0.5, 0.0)),
        ((3.0, -4.0), (0.0, 0.9)),
        ((-2.0, 1.0), (0.3, 0.4)),
        ((0.0, 7.0), (-0.6, -0.6)),
    ];
    for &speed in &scales {
        for &(r, shape) in &shapes {
            // The target is slower than the projectile: there is one
            // meeting, and it is found.
            let vel = (shape.0 * speed, shape.1 * speed);
            let (t, x, y) = const_vel(r, vel, speed).unwrap();
            assert!(t > 0.0 && t.is_finite());
            assert_eq!((x, y), (r.0 + vel.0 * t, r.1 + vel.1 * t));
            let flown = speed * t;
            let range = (x * x + y * y).sqrt();
            assert!((range - flown).abs() <= 1e-9 * flown.max(1.0), "{} vs {}", range, flown);
        }
    }
}

#[test]
fn receding_target_barely_slower_than_the_projectile_is_met_late() {
    // r = (1 + 2^-52, 0), v = (1 - 2^-53, 0), s = 1: a = -2^-52, b = 2,
    // c = 1 + 2^-51, and the root of the discriminant rounds to 2. The
    // root (-b - 2) / 2a is 2^53.
    let eps = 2.0f64.powi(-52);
    let late = 2.0f64.powi(53);
    let (t, x, y) = const_vel((1.0 + eps, 0.0), (1.0 - eps / 2.0, 0.0), 1.0).unwrap();
    assert_eq!(t, late);
    assert_eq!((x, y), (late, 0.0));
}

#[test]
fn receding_target_a_little_slower_than_the_projectile_is_met() {
    // The lead of the quadratic is under the threshold and b is positive:
    // the root is (-b - sqrt(disc)) / 2a, as without the threshold.
    let cases: [((f64, f64), (f64, f64), f64); 5] = [
        ((1.0, 0.0), (1.0 - 1e-9, 0.0), 1.0),
        ((3.0, 4.0), (0.6 - 1e-8, 0.8 - 1e-8), 1.0),
        ((1000.0, 0.0), (999.9999999999, 0.0), 1000.0),
        ((0.0, 2.0), (0.0, 1e-3 - 1e-12), 1e-3),
        ((1.0, 0.0), (0.0, 1.0 - 1e-9), 1.0),
    ];
    for &(r, vel, speed) in &cases {
        let a = (vel.0 * vel.0 + vel.1 * vel.1) - speed * speed;
        let b = 2.0 * (vel.0 * r.0 + vel.1 * r.1);
        let c = r.0 * r.0 + r.1 * r.1;
        assert!(a < 0.0 && a.abs() < 1e-6 && b >= 0.0);
        let disc = b * b - 4.0 * a * c;
        let expected = (-b - disc.sqrt()) / (2.0 * a);
        let (t, x, y) = const_vel(r, vel, speed).unwrap();
        assert_eq!(t.to_bits(), expected.to_bits());
        assert!(t > 0.0 && t.is_finite());
        let flown = speed * t;
        let range = (x * x + y * y).sqrt();
        assert!((range - flown).abs() <= 1e-6 * flown.max(1.0), "{} vs {}", range, flown);
    }
}

#[test]
fn receding_target_a_little_faster_than_the_projectile_is_never_met() {
    assert!(const_vel((1.0, 0.0), (1.0 + 1e-9, 0.0), 1.0).is_none());
    assert!(const_vel((3.0, 4.0), (0.6 + 1e-8, 0.8 + 1e-8), 1.0).is_none());
    assert!(const_vel((0.0, 2.0), (0.0, 1e-3 + 1e-12), 1e-3).is_none());
}

#[test]
fn root_beyond_the_largest_number_is_no_intercept() {
    // v.v - s^2 is about -2e-309 and r is huge: the meeting would be later
    // than any finite time.
    let speed = 1e-154;
    let slower = speed * (1.0 - 1e-10);
    assert!(const_vel((1e200, 0.0), (slower, 0.0), speed).is_none());
    assert_eq!(accept_root(s(f64::INFINITY)).map(f), None);
    assert_eq!(accept_root(s(2.5)).map(f), Some(2.5));
    assert_eq!(accept_root(s(0.0)).map(f), None);
    assert_eq!(accept_root(s(-1.0)).map(f), None);
    assert_eq!(accept_root(s(f64::NAN)).map(f), None);
}

#[test]
fn both_forms_of_the_root_agree_where_both_are_accurate() {
    // Leads of the quadratic just under and just over the threshold.
    for &lead in &[0.9e-6f64, 1.1e-6, -0.9e-6, -1.1e-6] {
        // v = (-1, 0), r = (2, 0): a = 1 - s^2 = lead, b = -4, c = 4, and
        // the first root is 2 / (1 + s).
        let speed = (1.0 - lead).sqrt();
        let (t, _, _) = const_vel((2.0, 0.0), (-1.0, 0.0), speed).unwrap();
        let expected = 2.0 / (1.0 + speed);
        assert!((t - expected).abs() < 1e-9, "{} vs {} at {}", t, expected, lead);
    }
}

#[test]
fn refiner_stays_at_the_closed_form_of_a_slow_projectile() {
    let r = (1.0, 0.0);
    let vel = (-1.0 / 4096.0, 0.0);
    let speed = 1.0 / 2048.0;
    let (t, _, _) = const_vel(r, vel, speed).unwrap();
    let refined = const_accel(r, vel, (0.0, 0.0), speed, t);
    assert!((refined - t).abs() < 1e-4, "{} against {}", refined, t);
    let (t, _, _) = const_vel(r, (0.0, 0.0), speed).unwrap();
    let refined = const_accel(r, (0.0, 0.0), (0.0, 0.0), speed, t);
    assert!((refined - t).abs() < 1e-4, "{} against {}", refined, t);
}

#[test]
fn no_solution_where_the_discriminant_is_negative() {
    // A fast target passing far off: the projectile never catches up.
    assert!(const_vel((0.0, 1000.0), (2000.0, 0.0), 1000.0).is_none());
}

#[test]
fn degenerate_quadratic_of_a_crossing_target_has_no_solution() {
    // Leading coefficient and linear coefficient both zero: the target
    // neither comes closer nor can be caught up with.
    assert!(const_vel((100.0, 0.0), (0.0, 1000.0), 1000.0).is_none());
    assert!(const_vel((0.0, -5.0), (-1000.0, 0.0), 1000.0).is_none());
    assert!(const_vel((100.0, 0.0), (0.0, 0.0), 0.0).is_none());
}

#[test]
fn earliest_positive_picks_among_the_roots() {
    assert_eq!(earliest_positive(s(2.0), s(5.0)).map(f), Some(2.0));
    assert_eq!(earliest_positive(s(5.0), s(2.0)).map(f), Some(2.0));
    assert_eq!(earliest_positive(s(-1.0), s(3.0)).map(f), Some(3.0));
    assert_eq!(earliest_positive(s(4.0), s(0.0)).map(f), Some(4.0));
    assert_eq!(earliest_positive(s(4.0), s(f64::NAN)).map(f), Some(4.0));
    assert_eq!(earliest_positive(s(0.0), s(-0.0)).map(f), None);
    assert_eq!(earliest_positive(s(-2.0), s(-3.0)).map(f), None);
    assert_eq!(earliest_positive(s(f64::NAN), s(f64::NAN)).map(f), None);
}

#[test]
fn refiner_with_zero_acceleration_agrees_with_the_closed_form() {
    let cases = [
        ((1000.0, 0.0), (0.0, 100.0), 1000.0),
        ((500.0, -250.0), (-30.0, 45.0), 1000.0),
        ((-2000.0, 1500.0), (200.0, 300.0), 800.0),
        ((0.0, 5000.0), (120.0, 0.0), 1000.0),
    ];
    for &(r, vel, speed) in &cases {
        let (t, _, _) = const_vel(r, vel, speed).unwrap();
        for &guess in &[t, t * 0.8, t * 1.3] {
            let refined = const_accel(r, vel, (0.0, 0.0), speed, guess);
            assert!((refined - t).abs() < 1e-3, "{} from {} against {}", refined, guess, t);
        }
    }
}

#[test]
fn refiner_solves_the_quartic_of_an_accelerating_target() {
    let r = (2000.0, 500.0);
    let vel = (-50.0, 80.0);
    let a = (10.0, -20.0);
    let speed = 1000.0;
    let (guess, _, _) = const_vel(r, vel, speed).unwrap();
    let t = const_accel(r, vel, a, speed, guess);
    assert!(t > 0.0);
    assert!((t - guess).abs() < 0.1);
    // The time returned is one Newton step of less than the tolerance away
    // from a root of c4 t^4 + c3 t^3 + c2 t^2 + c1 t + c0.
    let c4 = 0.5 * (a.0 * a.0 + a.1 * a.1);
    let c3 = vel.0 * a.0 + vel.1 * a.1;
    let c2 = vel.0 * vel.0 + vel.1 * vel.1 + (r.0 * a.0 + r.1 * a.1) - speed * speed;
    let c1 = 2.0 * (r.0 * vel.0 + r.1 * vel.1);
    let c0 = r.0 * r.0 + r.1 * r.1;
    let value = (((c4 * t + c3) * t + c2) * t + c1) * t + c0;
    let slope = (4.0 * c4 * t + 3.0 * c3) * t * t + 2.0 * c2 * t + c1;
    assert!((value / slope).abs() < 1e-4, "{} / {}", value, slope);
}

#[test]
fn refiner_returns_the_guess_where_the_slope_is_flat() {
    // All coefficients but the constant vanish: the derivative is zero.
    let t = const_accel((1.0, 0.0), (0.0, 0.0), (0.0, 0.0), 0.0, 3.5);
    assert_eq!(t, 3.5);
}

/// The same iteration in double precision, with the number of steps taken.
fn newton(
    r: (f64, f64),
    vel: (f64, f64),
    a: (f64, f64),
    speed: f64,
    guess: f64,
    tol: f64,
) -> (f64, usize) {
    let dot = |p: (f64, f64), q: (f64, f64)| p.0 * q.0 + p.1 * q.1;
    let c4 = 0.5 * dot(a, a);
    let c3 = dot(vel, a);
    let c2 = dot(vel, vel) + dot(r, a) - speed * speed;
    let c1 = 2.0 * dot(r, vel);
    let c0 = dot(r, r);
    let mut t = guess;
    for step in 0..100 {
        let value = (((c4 * t + c3) * t + c2) * t + c1) * t + c0;
        let slope = (4.0 * c4 * t + 3.0 * c3) * t * t + 2.0 * c2 * t + c1;
        if slope.abs() < 1e-6 {
            return (t, step);
        }
        let t_next = t - value / slope;
        if (t_next - t).abs() < tol {
            return (t, step);
        }
        t = t_next;
    }
    (t, 100)
}

#[test]
fn refiner_stops_after_the_iteration_cap() {
    // t^2 + 1 has no real root (v.v = 1, r.r = 1, r.v = 0, s = 0):
    // Newton's method wanders until it is cut off after a hundred steps.
    let (expected, steps) = newton((1.0, 0.0), (0.0, 1.0), (0.0, 0.0), 0.0, 0.7, 1e-4);
    assert_eq!(steps, 100);
    let t = const_accel((1.0, 0.0), (0.0, 1.0), (0.0, 0.0), 0.0, 0.7);
    assert_eq!(t.to_bits(), expected.to_bits());
}

#[test]
fn refiner_matches_the_same_iteration_in_double_precision() {
    let cases = [
        ((2000.0, 500.0), (-50.0, 80.0), (10.0, -20.0), 1000.0, 2.0),
        ((2000.0, 500.0), (-50.0, 80.0), (10.0, -20.0), 1000.0, 40.0),
        ((-300.0, 4000.0), (120.0, 15.0), (-3.0, 0.5), 1000.0, 0.1),
        ((5000.0, 0.0), (-100.0, 0.0), (0.0, 0.0), 1000.0, 4.5),
        ((10.0, 10.0), (900.0, -900.0), (50.0, 50.0), 1000.0, 1.0),
        ((1.0, 0.0), (0.0, 0.0), (0.0, 0.0), 0.0, 3.5),
    ];
    for &(r, vel, a, speed, guess) in &cases {
        let (expected, _) = newton(r, vel, a, speed, guess, 1e-4);
        let t = const_accel(r, vel, a, speed, guess);
        assert_eq!(t.to_bits(), expected.to_bits(), "from {}", guess);
    }
}

#[test]
fn closed_form_matches_the_same_formula_in_double_precision() {
    let cases: [((f64, f64), (f64, f64), f64); 5] = [
        ((1000.0, 0.0), (0.0, 100.0), 1000.0),
        ((500.0, -250.0), (-30.0, 45.0), 1000.0),
        ((-2000.0, 1500.0), (200.0, 300.0), 800.0),
        ((1000.0, 0.0), (-300.0, 0.0), 100.0),
        ((0.3, 0.7), (1.1, -0.9), 2.5),
    ];
    for &(r, vel, speed) in &cases {
        let a = (vel.0 * vel.0 + vel.1 * vel.1) - speed * speed;
        let b = 2.0 * (vel.0 * r.0 + vel.1 * r.1);
        let c = r.0 * r.0 + r.1 * r.1;
        let disc = b * b - 4.0 * a * c;
        let root = disc.sqrt();
        let (t1, t2) = ((-b - root) / (2.0 * a), (-b + root) / (2.0 * a));
        let expected = match (t1 > 0.0, t2 > 0.0) {
            (true, true) => t1.min(t2),
            (true, false) => t1,
            (false, true) => t2,
            _ => panic!("a case without a solution"),
        };
        let (t, x, y) = const_vel(r, vel, speed).unwrap();
        assert_eq!(t.to_bits(), expected.to_bits());
        assert_eq!((x, y), (r.0 + vel.0 * expected, r.1 + vel.1 * expected));
    }
}

#[test]
fn refiner_keeps_the_iterate_before_the_last_small_step() {
    // A stationary target 1000 away: the quartic is -s^2 t^2 + r.r, with
    // the root t = 1. From the root itself the first step is zero.
    let t = const_accel((1000.0, 0.0), (0.0, 0.0), (0.0, 0.0), 1000.0, 1.0);
    assert_eq!(t, 1.0);
}

#[test]
fn refiner_may_return_a_negative_time() {
    // The same quartic has the root t = -1 too, found from a guess near it.
    let t = const_accel((1000.0, 0.0), (0.0, 0.0), (0.0, 0.0), 1000.0, -1.2);
    assert!((t + 1.0).abs() < 1e-3);
}

#[test]
fn quartic_coefficients_follow_the_formulas() {
    let q = Quartic::new(v(3.0, 4.0), v(1.0, 2.0), v(-2.0, 6.0), s(10.0));
    assert_eq!(f(q.c4), 0.5 * 40.0);
    assert_eq!(f(q.c3), 10.0);
    assert_eq!(f(q.c2), 5.0 + 18.0 - 100.0);
    assert_eq!(f(q.c1), 2.0 * 11.0);
    assert_eq!(f(q.c0), 25.0);
    // 20 t^4 + 10 t^3 - 77 t^2 + 22 t + 25 at t = 2
    assert_eq!(f(q.eval(s(2.0))), 320.0 + 80.0 - 308.0 + 44.0 + 25.0);
    // 80 t^3 + 30 t^2 - 154 t + 22 at t = 2
    assert_eq!(f(q.derivative(s(2.0))), 640.0 + 120.0 - 308.0 + 22.0);
}

#[test]
fn refined_time_in_the_past_is_no_intercept() {
    assert_eq!(valid_time(s(3.0)).map(f), Some(3.0));
    assert_eq!(valid_time(s(1e-300)).map(f), Some(1e-300));
    assert!(valid_time(s(0.0)).is_none());
    assert!(valid_time(s(-0.0)).is_none());
    assert!(valid_time(s(-2.0)).is_none());
    assert!(valid_time(s(f64::NEG_INFINITY)).is_none());
    assert!(valid_time(s(f64::NAN)).is_none());
    assert_eq!(valid_time(s(f64::INFINITY)).map(f), Some(f64::INFINITY));
}

#[test]
fn refresh_seeds_from_the_closed_form_and_rejects_the_past() {
    let speed = s(1000.0);
    let t = refresh_time(None, v(3000.0, 4000.0), v(0.0, 0.0), v(0.0, 0.0), speed);
    assert_eq!(t.map(f), Some(5.0));
    let none = refresh_time(None, v(1000.0, 0.0), v(1500.0, 0.0), v(0.0, 0.0), speed);
    assert!(none.is_none());
    let past = refresh_time(Some(s(-5.2)), v(3000.0, 4000.0), v(0.0, 0.0), v(0.0, 0.0), speed);
    assert!(past.is_none());
    let warm = refresh_time(Some(s(4.0)), v(3000.0, 4000.0), v(0.0, 0.0), v(0.0, 0.0), speed);
    assert!((f(warm.unwrap()) - 5.0).abs() < 1e-3);
}

#[test]
fn projection_adds_the_three_terms() {
    let p = project(v(1.0, 2.0), v(3.0, -4.0), v(2.0, 6.0), s(2.0));
    assert_eq!((f(p.x), f(p.y)), (1.0 + 6.0 + 4.0, 2.0 - 8.0 + 12.0));
}
