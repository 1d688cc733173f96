//! A tracked target: its estimated state with the uncertainty of each part,
//! the intercept solution, and the two priorities by which the control loop
//! ranks it.
use crate::intercept::{project, projected_point, refresh_time, refreshed_time, BULLET_SPEED_BITS};
use crate::mat2::Mat2;
use crate::scalar::{Scalar, EPSILON_BITS, ONE_BITS, TICK_LENGTH_BITS, TWO_BITS, ZERO_BITS};
use crate::vec2::Vec2;
use vstd::prelude::*;

verus! {

pub struct TrackedTarget {
    /// Position, with its covariance.
    pub r: Vec2,
    pub r_cov: Mat2,
    /// Velocity, with its covariance.
    pub v: Vec2,
    pub v_cov: Mat2,
    /// Acceleration, with its covariance.
    pub a: Vec2,
    pub a_cov: Mat2,
    /// The time until a projectile fired now meets the target, where it can.
    pub time_to_intercept: Option<Scalar>,
    /// The point at which it does; present exactly when the time is.
    pub intercept_point: Option<Vec2>,
    /// Priority for engaging this target with weapons.
    pub firing_priority: Scalar,
    /// Priority for allocating radar time to this target.
    pub radar_priority: Scalar,
}

/// The inverse of the time to intercept, the time taken as at least 1e-6;
/// zero without a solution. The sooner the hit, the higher the score.
pub open spec fn firing_score(time: Option<Scalar>) -> Scalar {
    match time {
        Some(t) => (Scalar { bits: ONE_BITS }).over(t.larger(Scalar { bits: EPSILON_BITS })),
        None => Scalar { bits: ZERO_BITS },
    }
}

/// The direction from the shooter to a target at `r_rel`, `dist` away; the
/// x axis where the two coincide.
pub open spec fn line_of_sight(r_rel: Vec2, dist: Scalar) -> Vec2 {
    if (Scalar { bits: ZERO_BITS }).less(dist) {
        r_rel.over(dist)
    } else {
        Vec2 { x: Scalar { bits: ONE_BITS }, y: Scalar { bits: ZERO_BITS } }
    }
}

/// The variance of a position along the direction `u`: `u . (cov u)`, the
/// covariance read as symmetric by its upper triangle.
pub open spec fn radial_variance(cov: Mat2, u: Vec2) -> Scalar {
    u.x.times(cov.xx.times(u.x).plus(cov.xy.times(u.y))).plus(
        u.y.times(cov.xy.times(u.x).plus(cov.yy.times(u.y))),
    )
}

/// The least distance at which the target may be, two standard deviations
/// nearer than estimated, and never less than zero.
pub open spec fn min_possible_distance(dist: Scalar, variance: Scalar) -> Scalar {
    dist.minus((Scalar { bits: TWO_BITS }).times(variance.root())).larger(
        Scalar { bits: ZERO_BITS },
    )
}

/// The firing score discounted by the least possible distance plus one.
pub open spec fn radar_score(firing: Scalar, cov: Mat2, r_rel: Vec2) -> Scalar {
    let dist = r_rel.norm();
    let variance = radial_variance(cov, line_of_sight(r_rel, dist));
    firing.over(min_possible_distance(dist, variance).plus(Scalar { bits: ONE_BITS }))
}

/// Picks the direction toward the target, guarding the division by a zero
/// distance.
pub fn unit_toward(r_rel: Vec2, dist: Scalar) -> (u: Vec2)
    ensures
        u == line_of_sight(r_rel, dist),
{
    if dist.gt(Scalar::zero()) {
        r_rel.div(dist)
    } else {
        Vec2 { x: Scalar::one(), y: Scalar::zero() }
    }
}

impl TrackedTarget {
    /// The time and the point are both present or both absent.
    pub open spec fn coupled(self) -> bool {
        self.time_to_intercept is Some <==> self.intercept_point is Some
    }

    /// The three covariances have mirrored off-diagonal entries.
    pub open spec fn mirrored(self) -> bool {
        self.r_cov.mirrored() && self.v_cov.mirrored() && self.a_cov.mirrored()
    }

    /// The state one tick later with no new observation: position and
    /// velocity move on by their derivatives, and the covariances of
    /// position and velocity grow by those of velocity and acceleration.
    pub open spec fn dead_reckoned(self) -> TrackedTarget {
        let dt = Scalar { bits: TICK_LENGTH_BITS };
        TrackedTarget {
            r: self.r.plus(self.v.times(dt)),
            v: self.v.plus(self.a.times(dt)),
            r_cov: self.r_cov.sum(self.v_cov.scaled(dt)),
            v_cov: self.v_cov.sum(self.a_cov.scaled(dt)),
            ..self
        }
    }

    /// The target with its intercept solution found anew by a shooter at
    /// `own_position` moving with `own_velocity`.
    pub open spec fn with_solution(self, own_position: Vec2, own_velocity: Vec2) -> TrackedTarget {
        let time = refreshed_time(
            self.time_to_intercept,
            self.r.minus(own_position),
            self.v.minus(own_velocity),
            self.a,
            Scalar { bits: BULLET_SPEED_BITS },
        );
        TrackedTarget {
            time_to_intercept: time,
            intercept_point: match time {
                Some(t) => Some(projected_point(self.r, self.v, self.a, t)),
                None => None,
            },
            ..self
        }
    }

    /// The target with both priorities computed anew by a shooter at
    /// `own_position`.
    pub open spec fn with_priorities(self, own_position: Vec2) -> TrackedTarget {
        let firing = firing_score(self.time_to_intercept);
        TrackedTarget {
            firing_priority: firing,
            radar_priority: radar_score(firing, self.r_cov, self.r.minus(own_position)),
            ..self
        }
    }

    /// A newly observed target: no intercept solution yet, both priorities
    /// zero.
    pub fn new(r: Vec2, v: Vec2, a: Vec2, r_cov: Mat2, v_cov: Mat2, a_cov: Mat2) -> (t:
        TrackedTarget)
        ensures
            t.r == r,
            t.v == v,
            t.a == a,
            t.r_cov == r_cov,
            t.v_cov == v_cov,
            t.a_cov == a_cov,
            t.time_to_intercept is None,
            t.intercept_point is None,
            t.firing_priority.bits == ZERO_BITS,
            t.radar_priority.bits == ZERO_BITS,
    {
        TrackedTarget {
            r,
            v,
            a,
            r_cov,
            v_cov,
            a_cov,
            time_to_intercept: None,
            intercept_point: None,
            firing_priority: Scalar::zero(),
            radar_priority: Scalar::zero(),
        }
    }

    /// Advances the target by one tick without a new observation, then
    /// finds its intercept solution and its priorities anew for a shooter
    /// at `own_position` moving with `own_velocity`.
    pub fn tick(&mut self, own_position: Vec2, own_velocity: Vec2)
        ensures
            *final(self) == old(self).dead_reckoned().with_solution(
                own_position,
                own_velocity,
            ).with_priorities(own_position),
            final(self).coupled(),
            old(self).mirrored() ==> final(self).mirrored(),
            final(self).time_to_intercept matches Some(t) ==> t.is_positive(),
            final(self).time_to_intercept is None ==> final(self).firing_priority.bits
                == ZERO_BITS,
    {
        let dt = Scalar::from_bits(TICK_LENGTH_BITS);
        self.r = self.r.add(self.v.mul(dt));
        self.v = self.v.add(self.a.mul(dt));
        self.r_cov = self.r_cov.add(&self.v_cov.scale(dt));
        self.v_cov = self.v_cov.add(&self.a_cov.scale(dt));

        self.update_firing_solution(own_position, own_velocity);
        self.update_priorities(own_position);
    }

    /// Finds the intercept solution anew, for a shooter at `own_position`
    /// moving with `own_velocity`. Both halves of the solution are cleared
    /// where there is no intercept in the future.
    pub fn update_firing_solution(&mut self, own_position: Vec2, own_velocity: Vec2)
        ensures
            *final(self) == old(self).with_solution(own_position, own_velocity),
            final(self).coupled(),
            final(self).time_to_intercept matches Some(t) ==> t.is_positive(),
    {
        let r_rel = self.r.sub(own_position);
        let v_rel = self.v.sub(own_velocity);
        let time = refresh_time(
            self.time_to_intercept,
            r_rel,
            v_rel,
            self.a,
            Scalar::from_bits(BULLET_SPEED_BITS),
        );
        match time {
            Some(t) => {
                self.time_to_intercept = Some(t);
                self.intercept_point = Some(project(self.r, self.v, self.a, t));
            },
            None => {
                self.time_to_intercept = None;
                self.intercept_point = None;
            },
        }
    }

    /// Computes both priorities anew, for a shooter at `own_position`.
    ///
    /// The firing priority is the inverse of the time to intercept. The
    /// radar priority divides it by one plus the least distance at which
    /// the target may be, given the uncertainty of its position along the
    /// line of sight.
    pub fn update_priorities(&mut self, own_position: Vec2)
        ensures
            *final(self) == old(self).with_priorities(own_position),
            old(self).time_to_intercept is None ==> final(self).firing_priority.bits
                == ZERO_BITS,
    {
        self.firing_priority = match self.time_to_intercept {
            Some(t) => Scalar::one().div(t.max(Scalar::from_bits(EPSILON_BITS))),
            None => Scalar::zero(),
        };

        let r_rel = self.r.sub(own_position);
        let dist = r_rel.length();
        let a = self.r_cov.xx;
        let b = self.r_cov.xy;
        let d = self.r_cov.yy;
        let r_unit = unit_toward(r_rel, dist);
        let var_radial = r_unit.x.mul(a.mul(r_unit.x).add(b.mul(r_unit.y))).add(
            r_unit.y.mul(b.mul(r_unit.x).add(d.mul(r_unit.y))),
        );
        let min_possible = dist.sub(Scalar::from_bits(TWO_BITS).mul(var_radial.sqrt())).max(
            Scalar::zero(),
        );

        self.radar_priority = self.firing_priority.div(min_possible.add(Scalar::one()));
    }
}

/// The firing priority depends on the time to intercept alone: two targets
/// with the same time have the same firing priority, however unsure their
/// positions and wherever the shooter is.
pub proof fn firing_priority_ignores_uncertainty(
    a: TrackedTarget,
    b: TrackedTarget,
    own_a: Vec2,
    own_b: Vec2,
)
    requires
        a.time_to_intercept == b.time_to_intercept,
    ensures
        a.with_priorities(own_a).firing_priority == b.with_priorities(own_b).firing_priority,
        a.time_to_intercept is None ==> a.with_priorities(own_a).firing_priority.is_zero(),
{
}

/// The time by which the firing score divides is a number of at least
/// 1e-6, however small or ill-defined the time to intercept.
pub proof fn firing_score_divides_by_at_least_epsilon(t: Scalar)
    ensures
        (Scalar { bits: EPSILON_BITS }).at_most(t.larger(Scalar { bits: EPSILON_BITS })),
        t.larger(Scalar { bits: EPSILON_BITS }).is_positive(),
{
}

/// The least possible distance is a number and never below zero, whatever
/// the distance and the variance.
pub proof fn min_possible_distance_is_not_negative(dist: Scalar, variance: Scalar)
    ensures
        (Scalar { bits: ZERO_BITS }).at_most(min_possible_distance(dist, variance)),
{
}

} // verus!
