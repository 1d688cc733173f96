//! When and where a constant-speed projectile meets a moving target.
//!
//! All positions, velocities and accelerations are relative to the shooter.
use crate::scalar::{
    Scalar, EPSILON_BITS, FOUR_BITS, HALF_BITS, THOUSAND_BITS, THREE_BITS, TOLERANCE_BITS,
    TWO_BITS, ZERO_BITS,
};
use crate::vec2::Vec2;
use vstd::prelude::*;

verus! {

/// The speed of a projectile, 1000 length units per second, as a bit pattern.
pub const BULLET_SPEED_BITS: u64 = THOUSAND_BITS;

/// The number of Newton steps after which the refinement gives up.
pub const MAX_ITER: usize = 100;

/// The quadratic `a t^2 + b t + c` whose positive roots are the times at
/// which a projectile of speed `s` meets a target at `r` moving with
/// velocity `v`: `a = v.v - s^2`, `b = 2 v.r`, `c = r.r`.
pub struct Quadratic {
    pub a: Scalar,
    pub b: Scalar,
    pub c: Scalar,
}

impl Quadratic {
    pub open spec fn of(r: Vec2, v: Vec2, s: Scalar) -> Quadratic {
        Quadratic {
            a: v.dot_product(v).minus(s.times(s)),
            b: (Scalar { bits: TWO_BITS }).times(v.dot_product(r)),
            c: r.dot_product(r),
        }
    }

    /// The leading coefficient is under 1e-6 in magnitude. Dividing by
    /// twice such a coefficient magnifies the rounding of the numerator, and
    /// is no division at all where it is zero, which it is for a target
    /// exactly as fast as the projectile.
    pub open spec fn has_small_lead(self) -> bool {
        self.a.absolute().less(Scalar { bits: EPSILON_BITS })
    }

    /// `b^2 - 4 a c`.
    pub open spec fn discriminant(self) -> Scalar {
        self.b.times(self.b).minus((Scalar { bits: FOUR_BITS }).times(self.a).times(self.c))
    }

    /// The root `(-b - sqrt(disc)) / 2a`.
    pub open spec fn first_root(self) -> Scalar {
        self.b.negated().minus(self.discriminant().root()).over(
            (Scalar { bits: TWO_BITS }).times(self.a),
        )
    }

    /// The root `(-b + sqrt(disc)) / 2a`.
    pub open spec fn second_root(self) -> Scalar {
        self.b.negated().plus(self.discriminant().root()).over(
            (Scalar { bits: TWO_BITS }).times(self.a),
        )
    }

    /// `-b + sqrt(disc)`, by which the first root is written without a
    /// division by the leading coefficient.
    pub open spec fn conjugate(self) -> Scalar {
        self.b.negated().plus(self.discriminant().root())
    }

    /// The first root written as `2c / (-b + sqrt(disc))`. In exact
    /// arithmetic it is the number `(-b - sqrt(disc)) / 2a`; as computed the
    /// two differ by their rounding. With the leading coefficient at zero
    /// it is the root `-c / b` of the linear equation that is left.
    pub open spec fn first_root_by_conjugate(self) -> Scalar {
        (Scalar { bits: TWO_BITS }).times(self.c).over(self.conjugate())
    }

    /// The first root in the form that loses no digits to a difference of
    /// nearly equal numbers, for a quadratic with a small leading
    /// coefficient.
    ///
    /// For a target that comes closer (`b < 0`) that is the form by the
    /// conjugate, which adds two positive numbers. For one that does not,
    /// met by a faster projectile (`a < 0`), it is the form divided by `2a`,
    /// whose numerator adds two negative numbers. In what is left (`b >= 0`
    /// and `a` zero or positive) no root is positive.
    pub open spec fn stable_first_root(self) -> Option<Scalar> {
        if self.b.less(Scalar { bits: ZERO_BITS }) {
            Some(self.first_root_by_conjugate())
        } else if self.a.less(Scalar { bits: ZERO_BITS }) {
            Some(self.first_root())
        } else {
            None
        }
    }

    /// The earliest positive solution.
    ///
    /// There is none where the discriminant is negative. Else it is the
    /// smaller of the roots that are positive. With a small leading
    /// coefficient only the first root is looked at, which in exact
    /// arithmetic is the smaller one wherever a root is positive; it is
    /// taken in its stable form, and counts only if it is positive and
    /// finite.
    pub open spec fn earliest_time(self) -> Option<Scalar> {
        if self.discriminant().less(Scalar { bits: ZERO_BITS }) {
            None
        } else if self.has_small_lead() {
            match self.stable_first_root() {
                Some(t) => finite_time_ahead(t),
                None => None,
            }
        } else {
            earliest_positive_root(self.first_root(), self.second_root())
        }
    }
}

/// A root counts as a time of intercept if it is positive and finite.
pub open spec fn finite_time_ahead(t: Scalar) -> Option<Scalar> {
    if t.is_positive() && t.is_finite() {
        Some(t)
    } else {
        None
    }
}

/// In exact arithmetic the two ways of writing the first root agree: with
/// `d` the square root of the discriminant, `(-b - d) / 2a` and
/// `2c / (-b + d)` are one number wherever both divisions are defined,
/// since they cross-multiply to the same product. As computed they differ
/// by their rounding, which is why the solver chooses between them.
pub proof fn root_forms_agree(a: int, b: int, c: int, d: int)
    requires
        d * d == b * b - 4 * a * c,
    ensures
        (-b - d) * (-b + d) == (2 * a) * (2 * c),
{
    assert((-b - d) * (-b + d) == b * b - d * d) by (nonlinear_arith);
    assert((2 * a) * (2 * c) == 4 * a * c) by (nonlinear_arith);
}

/// In exact arithmetic the first root is the one to take. With `c > 0`
/// and `d` the square root of the discriminant, the root `2c / (-b + d)`
/// has the sign of `-b + d`, and the second root `(-b + d) / 2a` that of
/// `(-b + d) a`. A projectile faster than the target (`a < 0`) has a
/// positive first root and no positive second one; and wherever the second
/// root is positive, the first is positive and, `a` being positive, the
/// smaller.
pub proof fn first_root_is_the_earliest(a: int, b: int, c: int, d: int)
    requires
        c > 0,
        d >= 0,
        d * d == b * b - 4 * a * c,
    ensures
        a < 0 ==> -b + d > 0 && (-b + d) * a < 0,
        (-b + d) * a > 0 ==> -b + d > 0 && a > 0,
{
    if a < 0 {
        assert(4 * a * c < 0) by (nonlinear_arith)
            requires
                a < 0,
                c > 0,
        ;
        assert(d > b) by (nonlinear_arith)
            requires
                d * d > b * b,
                d >= 0,
        ;
        assert((-b + d) * a < 0) by (nonlinear_arith)
            requires
                -b + d > 0,
                a < 0,
        ;
    } else {
        assert((-b + d) * a > 0 ==> -b + d > 0 && a > 0) by (nonlinear_arith)
            requires
                a >= 0,
        ;
    }
}

/// In exact arithmetic a target that does not come closer and is at least
/// as fast as the projectile is never met: with `a >= 0`, `b >= 0` and
/// `c > 0` the quadratic is positive at every positive time `n / m`.
pub proof fn receding_fast_target_is_never_met(a: int, b: int, c: int, n: int, m: int)
    requires
        a >= 0,
        b >= 0,
        c > 0,
        n > 0,
        m > 0,
    ensures
        a * (n * n) + b * (n * m) + c * (m * m) > 0,
{
    assert(a * (n * n) >= 0) by (nonlinear_arith)
        requires
            a >= 0,
    ;
    assert(b * (n * m) >= 0) by (nonlinear_arith)
        requires
            b >= 0,
            n > 0,
            m > 0,
    ;
    assert(c * (m * m) > 0) by (nonlinear_arith)
        requires
            c > 0,
            m > 0,
    ;
}

/// `x (p + q + r) == x p + x q + x r`.
proof fn distribute_over_three(x: int, p: int, q: int, r: int)
    ensures
        x * (p + q + r) == x * p + x * q + x * r,
{
    assert(x * (p + q + r) == x * p + x * q + x * r) by (nonlinear_arith);
}

/// `x (y (z w)) == z (y (x w))`: two factors of a product change places.
proof fn exchange_factors(x: int, y: int, z: int, w: int)
    ensures
        x * (y * (z * w)) == z * (y * (x * w)),
{
    assert(x * (y * (z * w)) == z * (y * (x * w))) by (nonlinear_arith);
}

/// In exact arithmetic a projectile faster than the target meets it at one
/// time only: with `a < 0` and `c > 0` two positive roots `n1 / m` and
/// `n2 / m` of the quadratic, written over one denominator, are the same.
pub proof fn faster_projectile_meets_once(a: int, b: int, c: int, n1: int, n2: int, m: int)
    requires
        a < 0,
        c > 0,
        n1 > 0,
        n2 > 0,
        m > 0,
        a * (n1 * n1) + b * (n1 * m) + c * (m * m) == 0,
        a * (n2 * n2) + b * (n2 * m) + c * (m * m) == 0,
    ensures
        n1 == n2,
{
    // n2 times the first equation less n1 times the second leaves
    // (n1 - n2) (a n1 n2 - c m^2) == 0, whose second factor is negative.
    let mixed = a * (n1 * n2);
    let k = c * (m * m);
    distribute_over_three(n2, a * (n1 * n1), b * (n1 * m), k);
    distribute_over_three(n1, a * (n2 * n2), b * (n2 * m), k);
    // n2 (a n1 n1) == n1 (a n2 n1) and n1 (a n2 n2) == n2 (a n1 n2)
    exchange_factors(n2, a, n1, n1);
    exchange_factors(n1, a, n2, n2);
    assert(n2 * n1 == n1 * n2) by (nonlinear_arith);
    // n2 (b n1 m) == n1 (b n2 m)
    exchange_factors(n2, b, n1, m);
    assert(n1 * mixed + n2 * k == n2 * mixed + n1 * k);
    assert((n1 - n2) * (mixed - k) == n1 * mixed - n2 * mixed - n1 * k + n2 * k)
        by (nonlinear_arith);
    assert(mixed < 0) by (nonlinear_arith)
        requires
            mixed == a * (n1 * n2),
            a < 0,
            n1 > 0,
            n2 > 0,
    ;
    assert(k > 0) by (nonlinear_arith)
        requires
            k == c * (m * m),
            c > 0,
            m > 0,
    ;
    assert(n1 == n2) by (nonlinear_arith)
        requires
            (n1 - n2) * (mixed - k) == 0,
            mixed - k < 0,
    ;
}

/// The smaller of the roots that are positive, if any is.
pub open spec fn earliest_positive_root(t1: Scalar, t2: Scalar) -> Option<Scalar> {
    if t1.is_positive() && t2.is_positive() {
        Some(t1.smaller(t2))
    } else if t1.is_positive() {
        Some(t1)
    } else if t2.is_positive() {
        Some(t2)
    } else {
        None
    }
}

/// The time of the earliest intercept under constant velocity, and the
/// point, relative to the shooter, at which it happens.
pub open spec fn const_vel_solution(r: Vec2, v: Vec2, s: Scalar) -> Option<(Scalar, Vec2)> {
    match Quadratic::of(r, v, s).earliest_time() {
        Some(t) => Some((t, r.plus(v.times(t)))),
        None => None,
    }
}

/// The quartic `c4 t^4 + c3 t^3 + c2 t^2 + c1 t + c0` whose roots are the
/// intercept times under constant acceleration.
pub struct Quartic {
    pub c4: Scalar,
    pub c3: Scalar,
    pub c2: Scalar,
    pub c1: Scalar,
    pub c0: Scalar,
}

impl Quartic {
    /// `c4 = a.a / 2`, `c3 = v.a`, `c2 = v.v + r.a - s^2`, `c1 = 2 r.v`,
    /// `c0 = r.r`.
    pub open spec fn of(r: Vec2, v: Vec2, a: Vec2, s: Scalar) -> Quartic {
        Quartic {
            c4: (Scalar { bits: HALF_BITS }).times(a.dot_product(a)),
            c3: v.dot_product(a),
            c2: v.dot_product(v).plus(r.dot_product(a)).minus(s.times(s)),
            c1: (Scalar { bits: TWO_BITS }).times(r.dot_product(v)),
            c0: r.dot_product(r),
        }
    }

    /// The polynomial at `t`, by Horner's rule.
    pub open spec fn value(self, t: Scalar) -> Scalar {
        self.c4.times(t).plus(self.c3).times(t).plus(self.c2).times(t).plus(self.c1).times(
            t,
        ).plus(self.c0)
    }

    /// The derivative at `t`: `(4 c4 t + 3 c3) t^2 + 2 c2 t + c1`.
    pub open spec fn slope(self, t: Scalar) -> Scalar {
        let cubic = (Scalar { bits: FOUR_BITS }).times(self.c4).times(t).plus(
            (Scalar { bits: THREE_BITS }).times(self.c3),
        ).times(t).times(t);
        let linear = (Scalar { bits: TWO_BITS }).times(self.c2).times(t);
        cubic.plus(linear).plus(self.c1)
    }

    /// Newton's step from `t`.
    pub open spec fn step(self, t: Scalar) -> Scalar {
        t.minus(self.value(t).over(self.slope(t)))
    }

    /// The slope at `t` is too flat to divide by.
    pub open spec fn flat_at(self, t: Scalar) -> bool {
        self.slope(t).absolute().less(Scalar { bits: EPSILON_BITS })
    }

    /// Newton's step from `t` moves by less than `tol`.
    pub open spec fn settled_at(self, t: Scalar, tol: Scalar) -> bool {
        self.step(t).minus(t).absolute().less(tol)
    }

    /// Newton's method from `t` with at most `steps` steps. It stops at the
    /// current iterate where the slope is flat or the next step would move
    /// by less than `tol`.
    pub open spec fn refine(self, t: Scalar, tol: Scalar, steps: nat) -> Scalar
        decreases steps,
    {
        if steps == 0 || self.flat_at(t) || self.settled_at(t, tol) {
            t
        } else {
            self.refine(self.step(t), tol, (steps - 1) as nat)
        }
    }

    /// The iterate after `k` Newton steps from `t`, taken without regard to
    /// the stopping rules.
    pub open spec fn iterate(self, t: Scalar, k: nat) -> Scalar
        decreases k,
    {
        if k == 0 {
            t
        } else {
            self.iterate(self.step(t), (k - 1) as nat)
        }
    }

    /// Newton's method would stop at `t`.
    pub open spec fn stops_at(self, t: Scalar, tol: Scalar) -> bool {
        self.flat_at(t) || self.settled_at(t, tol)
    }

    /// The refinement returns the first iterate at which a stopping rule
    /// holds, or the last one that the cap allows: it takes `k` steps for
    /// some `k` of at most `steps`, no rule stopped it earlier, and it
    /// ran out of steps only if `k` is `steps`.
    pub proof fn refine_is_the_first_stop(self, t: Scalar, tol: Scalar, steps: nat) -> (k: nat)
        ensures
            k <= steps,
            self.refine(t, tol, steps) == self.iterate(t, k),
            k < steps ==> self.stops_at(self.iterate(t, k), tol),
            forall|i: nat| i < k ==> !self.stops_at(#[trigger] self.iterate(t, i), tol),
        decreases steps,
    {
        if steps == 0 || self.flat_at(t) || self.settled_at(t, tol) {
            0
        } else {
            let k = self.refine_is_the_first_stop(self.step(t), tol, (steps - 1) as nat);
            assert forall|i: nat| i < k + 1 implies !self.stops_at(
                #[trigger] self.iterate(t, i),
                tol,
            ) by {
                if i > 0 {
                    assert(self.iterate(t, i) == self.iterate(self.step(t), (i - 1) as nat));
                }
            }
            k + 1
        }
    }

    /// A time at which a stopping rule holds already is returned as it is,
    /// whatever the number of steps allowed.
    pub proof fn refine_keeps_a_stop(self, t: Scalar, tol: Scalar, steps: nat)
        requires
            self.stops_at(t, tol),
        ensures
            self.refine(t, tol, steps) == t,
    {
    }

    pub fn new(r_rel: Vec2, v_rel: Vec2, a_rel: Vec2, bullet_speed: Scalar) -> (q: Quartic)
        ensures
            q == Quartic::of(r_rel, v_rel, a_rel, bullet_speed),
    {
        Quartic {
            c4: Scalar::from_bits(HALF_BITS).mul(a_rel.dot(a_rel)),
            c3: v_rel.dot(a_rel),
            c2: v_rel.dot(v_rel).add(r_rel.dot(a_rel)).sub(bullet_speed.mul(bullet_speed)),
            c1: Scalar::from_bits(TWO_BITS).mul(r_rel.dot(v_rel)),
            c0: r_rel.dot(r_rel),
        }
    }

    pub fn eval(&self, t: Scalar) -> (f: Scalar)
        ensures
            f == self.value(t),
    {
        self.c4.mul(t).add(self.c3).mul(t).add(self.c2).mul(t).add(self.c1).mul(t).add(self.c0)
    }

    pub fn derivative(&self, t: Scalar) -> (df: Scalar)
        ensures
            df == self.slope(t),
    {
        let cubic = Scalar::from_bits(FOUR_BITS).mul(self.c4).mul(t).add(
            Scalar::from_bits(THREE_BITS).mul(self.c3),
        ).mul(t).mul(t);
        let linear = Scalar::from_bits(TWO_BITS).mul(self.c2).mul(t);
        cubic.add(linear).add(self.c1)
    }

    /// Runs Newton's method from `t_guess` for at most `MAX_ITER` steps.
    pub fn solve(&self, t_guess: Scalar, tol: Scalar) -> (t: Scalar)
        ensures
            t == self.refine(t_guess, tol, MAX_ITER as nat),
    {
        let mut t = t_guess;
        let mut i: usize = 0;
        let mut stopped = false;
        while i < MAX_ITER && !stopped
            invariant
                i <= MAX_ITER,
                stopped ==> self.refine(t_guess, tol, MAX_ITER as nat) == t,
                !stopped ==> self.refine(t_guess, tol, MAX_ITER as nat) == self.refine(
                    t,
                    tol,
                    (MAX_ITER - i) as nat,
                ),
            decreases MAX_ITER - i,
        {
            let f = self.eval(t);
            let df = self.derivative(t);
            if df.abs().lt(Scalar::from_bits(EPSILON_BITS)) {
                stopped = true;
            } else {
                let t_next = t.sub(f.div(df));
                if t_next.sub(t).abs().lt(tol) {
                    stopped = true;
                } else {
                    t = t_next;
                }
            }
            i = i + 1;
        }
        t
    }
}

/// Picks the earliest strictly positive of the two roots of the intercept
/// quadratic.
pub fn earliest_positive(t1: Scalar, t2: Scalar) -> (r: Option<Scalar>)
    ensures
        r == earliest_positive_root(t1, t2),
        r is None <==> !t1.is_positive() && !t2.is_positive(),
        r matches Some(t) ==> {
            &&& t.is_positive()
            &&& t == t1 || t == t2
            &&& t1.is_positive() ==> t.at_most(t1)
            &&& t2.is_positive() ==> t.at_most(t2)
        },
{
    let first = t1.positive();
    let second = t2.positive();
    if first && second {
        Some(t1.min(t2))
    } else if first {
        Some(t1)
    } else if second {
        Some(t2)
    } else {
        None
    }
}

/// Accepts a root as a time of intercept if it is positive and finite.
pub fn accept_root(t: Scalar) -> (time: Option<Scalar>)
    ensures
        time == finite_time_ahead(t),
        time is Some <==> t.is_positive() && t.is_finite(),
        time matches Some(ahead) ==> ahead == t,
{
    if t.positive() && t.finite() {
        Some(t)
    } else {
        None
    }
}

/// Solves `|r + v t| = s t` for the earliest positive `t`, for a target at
/// `r_rel` with constant velocity `v_rel` and a projectile of speed
/// `bullet_speed`. Returns that time and the aim point `r + v t`, or `None`
/// where there is no intercept in the future.
///
/// The times are the roots of the quadratic `a t^2 + b t + c`. There is no
/// intercept where its discriminant is negative or neither root is
/// positive. Where `a` is under 1e-6 in magnitude, the earliest root is
/// computed in the form that subtracts no nearly equal numbers: as
/// `2c / (-b + sqrt(disc))` for a target that comes closer, and as
/// `(-b - sqrt(disc)) / 2a` for one that does not and is slower than the
/// projectile. No other target with so small an `a` is met.
pub fn firing_solution_const_vel(
    r_rel: Vec2,
    v_rel: Vec2,
    bullet_speed: Scalar,
) -> (r: Option<(Scalar, Vec2)>)
    ensures
        r == const_vel_solution(r_rel, v_rel, bullet_speed),
        r matches Some(hit) ==> {
            &&& hit.0.is_positive()
            &&& hit.1 == r_rel.plus(v_rel.times(hit.0))
        },
        Quadratic::of(r_rel, v_rel, bullet_speed).discriminant().less(Scalar { bits: ZERO_BITS })
            ==> r is None,
        !Quadratic::of(r_rel, v_rel, bullet_speed).has_small_lead() ==> {
            let q = Quadratic::of(r_rel, v_rel, bullet_speed);
            &&& r is None <==> q.discriminant().less(Scalar { bits: ZERO_BITS })
                || !q.first_root().is_positive() && !q.second_root().is_positive()
            &&& r matches Some(hit) ==> {
                &&& hit.0 == q.first_root() || hit.0 == q.second_root()
                &&& q.first_root().is_positive() ==> hit.0.at_most(q.first_root())
                &&& q.second_root().is_positive() ==> hit.0.at_most(q.second_root())
            }
        },
        Quadratic::of(r_rel, v_rel, bullet_speed).has_small_lead() ==> {
            let q = Quadratic::of(r_rel, v_rel, bullet_speed);
            &&& r is Some <==> {
                &&& !q.discriminant().less(Scalar { bits: ZERO_BITS })
                &&& q.stable_first_root() matches Some(t) && t.is_positive() && t.is_finite()
            }
            &&& r matches Some(hit) ==> {
                &&& hit.0.is_finite()
                &&& q.b.less(Scalar { bits: ZERO_BITS }) ==> hit.0 == q.first_root_by_conjugate()
                &&& !q.b.less(Scalar { bits: ZERO_BITS }) ==> hit.0 == q.first_root() && q.a.less(
                    Scalar { bits: ZERO_BITS },
                )
            }
        },
{
    let two = Scalar::from_bits(TWO_BITS);
    let a = v_rel.dot(v_rel).sub(bullet_speed.mul(bullet_speed));
    let b = two.mul(v_rel.dot(r_rel));
    let c = r_rel.dot(r_rel);

    let disc = b.mul(b).sub(Scalar::from_bits(FOUR_BITS).mul(a).mul(c));
    if disc.lt(Scalar::zero()) {
        return None;
    }
    let sqrt_disc = disc.sqrt();
    let time = if a.abs().lt(Scalar::from_bits(EPSILON_BITS)) {
        if b.lt(Scalar::zero()) {
            accept_root(two.mul(c).div(b.neg().add(sqrt_disc)))
        } else if a.lt(Scalar::zero()) {
            accept_root(b.neg().sub(sqrt_disc).div(two.mul(a)))
        } else {
            None
        }
    } else {
        let t1 = b.neg().sub(sqrt_disc).div(two.mul(a));
        let t2 = b.neg().add(sqrt_disc).div(two.mul(a));
        earliest_positive(t1, t2)
    };
    match time {
        Some(t) => Some((t, r_rel.add(v_rel.mul(t)))),
        None => None,
    }
}

/// Refines an intercept time for a target under constant acceleration by
/// Newton's method on the intercept quartic, from `t_guess`, until a step
/// moves by less than `tol`, the slope falls under 1e-6, or `MAX_ITER` steps
/// are done. The result may be non-positive: the caller checks.
pub fn firing_solution_const_accel(
    r_rel: Vec2,
    v_rel: Vec2,
    a_rel: Vec2,
    bullet_speed: Scalar,
    t_guess: Scalar,
    tol: Scalar,
) -> (t: Scalar)
    ensures
        t == Quartic::of(r_rel, v_rel, a_rel, bullet_speed).refine(t_guess, tol, MAX_ITER as nat),
{
    Quartic::new(r_rel, v_rel, a_rel, bullet_speed).solve(t_guess, tol)
}

/// A refined time counts as an intercept only if it is positive.
pub open spec fn time_ahead(t: Scalar) -> Option<Scalar> {
    if t.is_positive() {
        Some(t)
    } else {
        None
    }
}

/// The intercept time that a target carries after one more look at it.
///
/// The refinement starts from the time found last, or, where there is none,
/// from the constant-velocity solution; without either there is no
/// intercept. A refined time that is not positive is no intercept.
pub open spec fn refreshed_time(
    cached: Option<Scalar>,
    r: Vec2,
    v: Vec2,
    a: Vec2,
    s: Scalar,
) -> Option<Scalar> {
    let guess = match cached {
        Some(t) => Some(t),
        None => match const_vel_solution(r, v, s) {
            Some(hit) => Some(hit.0),
            None => None,
        },
    };
    match guess {
        Some(g) => {
            time_ahead(
                Quartic::of(r, v, a, s).refine(
                    g,
                    Scalar { bits: TOLERANCE_BITS },
                    MAX_ITER as nat,
                ),
            )
        },
        None => None,
    }
}

/// Where a target at `r` with velocity `v` and acceleration `a` is after
/// `t` seconds: `r + v t + a t^2 / 2`.
pub open spec fn projected_point(r: Vec2, v: Vec2, a: Vec2, t: Scalar) -> Vec2 {
    r.plus(v.times(t)).plus(a.scaled_by(Scalar { bits: HALF_BITS }).times(t).times(t))
}

/// Accepts a refined time only if it lies in the future: the refinement
/// may converge to a root in the past, or to no number at all, which is no
/// intercept.
pub fn valid_time(t: Scalar) -> (time: Option<Scalar>)
    ensures
        time == time_ahead(t),
        time is Some <==> t.is_positive(),
        time matches Some(ahead) ==> ahead == t,
{
    if t.positive() {
        Some(t)
    } else {
        None
    }
}

/// Finds the intercept time anew for a target seen at `r_rel` with
/// velocity `v_rel` and acceleration `a_rel`, given the time found last.
pub fn refresh_time(
    cached: Option<Scalar>,
    r_rel: Vec2,
    v_rel: Vec2,
    a_rel: Vec2,
    bullet_speed: Scalar,
) -> (time: Option<Scalar>)
    ensures
        time == refreshed_time(cached, r_rel, v_rel, a_rel, bullet_speed),
        time matches Some(t) ==> t.is_positive(),
        cached is None && const_vel_solution(r_rel, v_rel, bullet_speed) is None ==> time is None,
{
    let t_guess = match cached {
        Some(t) => t,
        None => {
            match firing_solution_const_vel(r_rel, v_rel, bullet_speed) {
                Some(hit) => hit.0,
                None => {
                    return None;
                },
            }
        },
    };
    let t = firing_solution_const_accel(
        r_rel,
        v_rel,
        a_rel,
        bullet_speed,
        t_guess,
        Scalar::from_bits(TOLERANCE_BITS),
    );
    valid_time(t)
}

/// Projects a target forward by `t` seconds under constant acceleration.
pub fn project(r: Vec2, v: Vec2, a: Vec2, t: Scalar) -> (p: Vec2)
    ensures
        p == projected_point(r, v, a, t),
{
    r.add(v.mul(t)).add(a.scale(Scalar::from_bits(HALF_BITS)).mul(t).mul(t))
}

} // verus!
