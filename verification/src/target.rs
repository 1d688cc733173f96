//! A single target without uncertainty, refreshed from the latest
//! observation every tick.
use crate::intercept::{project, projected_point, refresh_time, refreshed_time, BULLET_SPEED_BITS};
use crate::scalar::Scalar;
use crate::vec2::Vec2;
use vstd::prelude::*;

verus! {

pub struct Target {
    pub position: Vec2,
    pub velocity: Vec2,
    pub acceleration: Vec2,
    /// The time until a projectile fired now meets the target, where it can.
    pub time_to_intercept: Option<Scalar>,
    /// The point at which it does; present exactly when the time is.
    pub intercept_point: Option<Vec2>,
}

impl Target {
    /// The time and the point are both present or both absent.
    pub open spec fn coupled(self) -> bool {
        self.time_to_intercept is Some <==> self.intercept_point is Some
    }

    /// The target with its intercept solution found anew by a shooter at
    /// `own_position` moving with `own_velocity`.
    pub open spec fn with_solution(self, own_position: Vec2, own_velocity: Vec2) -> Target {
        let time = refreshed_time(
            self.time_to_intercept,
            self.position.minus(own_position),
            self.velocity.minus(own_velocity),
            self.acceleration,
            Scalar { bits: BULLET_SPEED_BITS },
        );
        Target {
            time_to_intercept: time,
            intercept_point: match time {
                Some(t) => Some(
                    projected_point(self.position, self.velocity, self.acceleration, t),
                ),
                None => None,
            },
            ..self
        }
    }

    pub fn new(r: Vec2, v: Vec2, a: Vec2) -> (t: Target)
        ensures
            t.position == r,
            t.velocity == v,
            t.acceleration == a,
            t.time_to_intercept is None,
            t.intercept_point is None,
    {
        Target {
            position: r,
            velocity: v,
            acceleration: a,
            time_to_intercept: None,
            intercept_point: None,
        }
    }

    /// Takes over a fresh observation. The intercept solution stays as it
    /// is until it is next updated.
    pub fn update_state(&mut self, r: Vec2, v: Vec2, a: Vec2)
        ensures
            final(self).position == r,
            final(self).velocity == v,
            final(self).acceleration == a,
            final(self).time_to_intercept == old(self).time_to_intercept,
            final(self).intercept_point == old(self).intercept_point,
    {
        self.position = r;
        self.velocity = v;
        self.acceleration = a;
    }

    /// Finds the intercept solution anew, for a shooter at `own_position`
    /// moving with `own_velocity`. Both halves of the solution are cleared
    /// where there is no intercept in the future.
    pub fn update_firing_solution(&mut self, own_position: Vec2, own_velocity: Vec2)
        ensures
            *final(self) == old(self).with_solution(own_position, own_velocity),
            final(self).coupled(),
            final(self).time_to_intercept matches Some(t) ==> t.is_positive(),
    {
        let r_rel = self.position.sub(own_position);
        let v_rel = self.velocity.sub(own_velocity);
        let time = refresh_time(
            self.time_to_intercept,
            r_rel,
            v_rel,
            self.acceleration,
            Scalar::from_bits(BULLET_SPEED_BITS),
        );
        match time {
            Some(t) => {
                self.time_to_intercept = Some(t);
                self.intercept_point = Some(
                    project(self.position, self.velocity, self.acceleration, t),
                );
            },
            None => {
                self.time_to_intercept = None;
                self.intercept_point = None;
            },
        }
    }
}

} // verus!
