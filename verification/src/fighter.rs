//! The per-tick control loop of the fighter: it advances the tracked
//! targets, allocates the radar, chooses the target to engage, and turns a
//! bearing error into torque, fire and thrust commands.
//!
//! The loop reads no sensor and drives no actuator itself. Each tick it is
//! handed what the ship knows of itself and answers with a plan; once the
//! bearing to the aim point of the plan has been measured, it answers with
//! the commands.
use crate::intercept::BULLET_SPEED_BITS;
use crate::pid::Pid;
use crate::scalar::{
    total_order_extends_less, Scalar, TEN_BITS, THOUSAND_BITS, TICK_LENGTH_BITS, ZERO_BITS,
};
use crate::tracked_target::TrackedTarget;
use crate::value::{scaled, units_of, UNIT_EXPONENT};
use crate::vec2::Vec2;
use vstd::arithmetic::power2::{lemma2_to64, lemma2_to64_rest, pow2};
use vstd::prelude::*;

verus! {

/// Every so many ticks the radar sweeps broadly, whatever is tracked.
pub const BROAD_SCAN_PERIOD: u32 = 15;

/// The width of the radar beam on a broad sweep: an eighth of pi.
pub const BROAD_SCAN_WIDTH_BITS: u64 = 0x3fd9_21fb_5444_2d18;

/// The width of the radar beam on a narrow look: an eighth of the broad one.
pub const NARROW_SCAN_WIDTH_BITS: u64 = 0x3fa9_21fb_5444_2d18;

/// The miss distance under which the gun fires.
pub const FIRE_THRESHOLD_BITS: u64 = TEN_BITS;

/// The factor by which the aim vector is scaled into a thrust command.
pub const THRUST_GAIN_BITS: u64 = THOUSAND_BITS;

/// The gains of the heading controller: 8, 0 and 5.
pub const HEADING_KP_BITS: u64 = 0x4020_0000_0000_0000;

pub const HEADING_KI_BITS: u64 = ZERO_BITS;

pub const HEADING_KD_BITS: u64 = 0x4014_0000_0000_0000;

/// What the ship knows of itself at the start of a tick.
#[derive(Clone, Copy, Debug)]
pub struct OwnState {
    pub position: Vec2,
    pub velocity: Vec2,
    /// The number of the tick, counted from the start.
    pub tick: u32,
}

/// Where to point the radar.
#[derive(Clone, Copy, Debug)]
pub enum RadarOrder {
    /// Sweep a broad arc in search of targets.
    Broad,
    /// Look narrowly at the target in slot `target`, which lies at `offset`
    /// from the ship.
    Narrow { target: usize, offset: Vec2 },
}

impl RadarOrder {
    /// The width of the beam that the order asks for.
    pub open spec fn beam_width(self) -> Scalar {
        match self {
            RadarOrder::Broad => Scalar { bits: BROAD_SCAN_WIDTH_BITS },
            RadarOrder::Narrow { .. } => Scalar { bits: NARROW_SCAN_WIDTH_BITS },
        }
    }

    pub fn width(&self) -> (w: Scalar)
        ensures
            w == self.beam_width(),
    {
        match self {
            RadarOrder::Broad => Scalar::from_bits(BROAD_SCAN_WIDTH_BITS),
            RadarOrder::Narrow { .. } => Scalar::from_bits(NARROW_SCAN_WIDTH_BITS),
        }
    }
}

/// The target chosen for engagement and how to hit it.
#[derive(Clone, Copy, Debug)]
pub struct Engagement {
    /// The slot of the chosen target.
    pub target: usize,
    /// The intercept point relative to the ship.
    pub aim_point_rel: Vec2,
    pub time_to_intercept: Scalar,
    /// The distance that the projectile travels until the hit.
    pub shot_distance: Scalar,
}

/// What the loop decides at the start of a tick.
#[derive(Clone, Copy, Debug)]
pub struct Plan {
    pub radar: RadarOrder,
    /// `None` where no target has an intercept solution: nothing is aimed
    /// at and nothing fired this tick.
    pub engagement: Option<Engagement>,
}

/// The commands of one tick.
#[derive(Clone, Copy, Debug)]
pub struct Commands {
    pub torque: Scalar,
    pub fire: bool,
    pub acceleration: Vec2,
}

/// What the targets are ranked for.
#[derive(Clone, Copy, Debug)]
pub enum Purpose {
    /// Radar time: every target takes part, ranked by radar priority.
    Sensing,
    /// Weapons: the targets with an intercept solution take part, ranked by
    /// firing priority.
    Engaging,
}

/// Whether a target takes part in the ranking.
pub open spec fn eligible(t: TrackedTarget, purpose: Purpose) -> bool {
    match purpose {
        Purpose::Sensing => true,
        Purpose::Engaging => t.time_to_intercept is Some && t.intercept_point is Some,
    }
}

/// The place of a target in the ranking: that of its priority in the IEEE
/// 754 total order, which ranks NaNs too.
pub open spec fn score(t: TrackedTarget, purpose: Purpose) -> int {
    match purpose {
        Purpose::Sensing => t.radar_priority.total_rank(),
        Purpose::Engaging => t.firing_priority.total_rank(),
    }
}

/// Slot `b` holds the eligible target of the highest score; among several
/// of that score, the last.
pub open spec fn is_choice(targets: Seq<TrackedTarget>, purpose: Purpose, b: int) -> bool {
    &&& 0 <= b < targets.len()
    &&& eligible(targets[b], purpose)
    &&& forall|j: int|
        0 <= j < targets.len() && eligible(#[trigger] targets[j], purpose) ==> {
            &&& score(targets[j], purpose) <= score(targets[b], purpose)
            &&& j > b ==> score(targets[j], purpose) < score(targets[b], purpose)
        }
}

/// No slot holds an eligible target.
pub open spec fn none_eligible(targets: Seq<TrackedTarget>, purpose: Purpose) -> bool {
    forall|j: int| 0 <= j < targets.len() ==> !eligible(#[trigger] targets[j], purpose)
}

/// The slot that the radar looks at: the choice among all targets by radar
/// priority. There is one wherever a target is tracked, and no second.
pub open spec fn sensing_choice(targets: Seq<TrackedTarget>) -> int {
    choose|b: int| is_choice(targets, Purpose::Sensing, b)
}

/// The radar order for a tick: a broad sweep where nothing is tracked and
/// on every tick that is a multiple of the period; else a narrow look at
/// the target of the highest radar priority, which lies at `offset` from
/// the ship.
pub open spec fn radar_order(targets: Seq<TrackedTarget>, own: OwnState) -> RadarOrder {
    if targets.len() == 0 || own.tick % BROAD_SCAN_PERIOD == 0 {
        RadarOrder::Broad
    } else {
        RadarOrder::Narrow {
            target: sensing_choice(targets) as usize,
            offset: targets[sensing_choice(targets)].r.minus(own.position),
        }
    }
}

/// How to engage the target in slot `b`.
pub open spec fn engagement_of(targets: Seq<TrackedTarget>, own: OwnState, b: usize) -> Engagement {
    let t = targets[b as int];
    Engagement {
        target: b,
        aim_point_rel: t.intercept_point->0.minus(own.position),
        time_to_intercept: t.time_to_intercept->0,
        shot_distance: (Scalar { bits: BULLET_SPEED_BITS }).times(t.time_to_intercept->0),
    }
}

/// The gun fires when the bearing error, scaled by the distance of the
/// shot, is under the threshold.
pub open spec fn within_miss_budget(bearing_error: Scalar, shot_distance: Scalar) -> bool {
    bearing_error.absolute().times(shot_distance).less(Scalar { bits: FIRE_THRESHOLD_BITS })
}

/// Every target advanced by one tick, as seen from `own`.
pub open spec fn all_ticked(targets: Seq<TrackedTarget>, own: OwnState) -> Seq<TrackedTarget> {
    Seq::new(
        targets.len(),
        |i: int|
            targets[i].dead_reckoned().with_solution(own.position, own.velocity).with_priorities(
                own.position,
            ),
    )
}

/// Finds the slot of the eligible target with the highest priority for
/// `purpose`; among equals the last one wins.
pub fn best_target(targets: &Vec<TrackedTarget>, purpose: Purpose) -> (best: Option<usize>)
    ensures
        best is None <==> none_eligible(targets@, purpose),
        best matches Some(b) ==> is_choice(targets@, purpose, b as int),
{
    let mut best: Option<usize> = None;
    let mut best_key: i64 = 0;
    let mut i: usize = 0;
    while i < targets.len()
        invariant
            i <= targets.len(),
            best is None <==> none_eligible(targets@.take(i as int), purpose),
            best matches Some(b) ==> {
                &&& is_choice(targets@.take(i as int), purpose, b as int)
                &&& best_key == score(targets@[b as int], purpose)
            },
        decreases targets.len() - i,
    {
        let t = &targets[i];
        let (takes_part, key) = match purpose {
            Purpose::Sensing => (true, t.radar_priority.total_key()),
            Purpose::Engaging => (
                t.time_to_intercept.is_some() && t.intercept_point.is_some(),
                t.firing_priority.total_key(),
            ),
        };
        proof {
            let seen = targets@.take(i as int);
            let more = targets@.take(i + 1);
            assert(forall|j: int| 0 <= j < i ==> more[j] == seen[j]);
            assert(more[i as int] == targets@[i as int]);
        }
        if takes_part && (best.is_none() || key >= best_key) {
            best = Some(i);
            best_key = key;
        }
        i = i + 1;
    }
    proof {
        assert(targets@.take(i as int) =~= targets@);
    }
    best
}

pub struct Ship {
    pid: Pid,
    targets: Vec<TrackedTarget>,
}

impl Ship {
    /// The state of the heading controller.
    pub closed spec fn pid(self) -> Pid {
        self.pid
    }

    /// The tracked targets, by slot.
    pub closed spec fn targets(self) -> Seq<TrackedTarget> {
        self.targets@
    }

    /// A ship that tracks nothing yet, with a heading controller of gains
    /// 8, 0 and 5.
    pub fn new() -> (ship: Ship)
        ensures
            ship.targets().len() == 0,
            ship.pid().is_fresh(),
            ship.pid().kp().bits == HEADING_KP_BITS,
            ship.pid().ki().bits == HEADING_KI_BITS,
            ship.pid().kd().bits == HEADING_KD_BITS,
    {
        let heading_pid = Pid::new(
            Scalar::from_bits(HEADING_KP_BITS),
            Scalar::from_bits(HEADING_KI_BITS),
            Scalar::from_bits(HEADING_KD_BITS),
        );
        let targets = Vec::new();
        Ship { pid: heading_pid, targets }
    }

    /// Starts tracking a newly observed target, in the next free slot.
    pub fn track(&mut self, target: TrackedTarget)
        ensures
            final(self).targets() == old(self).targets().push(target),
            final(self).pid() == old(self).pid(),
    {
        self.targets.push(target);
    }

    pub fn target_count(&self) -> (n: usize)
        ensures
            n == self.targets().len(),
    {
        self.targets.len()
    }

    /// The target in slot `i`.
    pub fn target(&self, i: usize) -> (t: &TrackedTarget)
        requires
            i < self.targets().len(),
        ensures
            *t == self.targets()[i as int],
    {
        &self.targets[i]
    }

    /// Runs the first half of a tick: every tracked target moves on by one
    /// tick, the radar is allocated, and the target to engage is chosen.
    ///
    /// The radar sweeps broadly where nothing is tracked and on every
    /// fifteenth tick, and else looks at the target of the highest radar
    /// priority. The target engaged is the one of the highest firing
    /// priority among those with an intercept solution.
    pub fn tick(&mut self, own: OwnState) -> (plan: Plan)
        ensures
            final(self).pid() == old(self).pid(),
            final(self).targets() == all_ticked(old(self).targets(), own),
            plan.radar == radar_order(final(self).targets(), own),
            plan.radar is Narrow ==> is_choice(
                final(self).targets(),
                Purpose::Sensing,
                plan.radar->target as int,
            ),
            plan.engagement is None <==> none_eligible(final(self).targets(), Purpose::Engaging),
            plan.engagement matches Some(e) ==> {
                &&& is_choice(final(self).targets(), Purpose::Engaging, e.target as int)
                &&& e == engagement_of(final(self).targets(), own, e.target)
                &&& e.time_to_intercept.is_positive()
            },
    {
        let n = self.targets.len();
        let mut i: usize = 0;
        while i < n
            invariant
                n == self.targets@.len(),
                n == old(self).targets@.len(),
                i <= n,
                self.pid == old(self).pid,
                forall|j: int|
                    0 <= j < i ==> self.targets@[j] == all_ticked(old(self).targets@, own)[j],
                forall|j: int| i <= j < n ==> self.targets@[j] == old(self).targets@[j],
            decreases n - i,
        {
            self.targets[i].tick(own.position, own.velocity);
            i = i + 1;
        }
        proof {
            assert(self.targets@ =~= all_ticked(old(self).targets@, own));
        }

        let best_radar = best_target(&self.targets, Purpose::Sensing);
        let radar = if n == 0 || own.tick % BROAD_SCAN_PERIOD == 0 {
            RadarOrder::Broad
        } else {
            match best_radar {
                Some(b) => {
                    proof {
                        choice_is_unique(
                            self.targets@,
                            Purpose::Sensing,
                            sensing_choice(self.targets@),
                            b as int,
                        );
                    }
                    RadarOrder::Narrow { target: b, offset: self.targets[b].r.sub(own.position) }
                },
                None => {
                    proof {
                        assert(eligible(self.targets@[0], Purpose::Sensing));
                    }
                    RadarOrder::Broad
                },
            }
        };

        let engagement = match best_target(&self.targets, Purpose::Engaging) {
            Some(b) => {
                let best = &self.targets[b];
                match (best.time_to_intercept, best.intercept_point) {
                    (Some(t_impact), Some(intercept_point)) => Some(
                        Engagement {
                            target: b,
                            aim_point_rel: intercept_point.sub(own.position),
                            time_to_intercept: t_impact,
                            shot_distance: Scalar::from_bits(BULLET_SPEED_BITS).mul(t_impact),
                        },
                    ),
                    _ => None,
                }
            },
            None => None,
        };
        Plan { radar, engagement }
    }

    /// Runs the second half of a tick, for the engagement of its plan and
    /// the signed angle `bearing_error` from the heading to the aim point.
    ///
    /// The heading controller turns the error into torque. The gun fires
    /// when the error times the distance of the shot is under ten length
    /// units. The thrust is a thousand times the aim vector.
    pub fn engage(&mut self, engagement: &Engagement, bearing_error: Scalar) -> (c: Commands)
        ensures
            final(self).targets() == old(self).targets(),
            final(self).pid().kp() == old(self).pid().kp(),
            final(self).pid().ki() == old(self).pid().ki(),
            final(self).pid().kd() == old(self).pid().kd(),
            final(self).pid().integral() == old(self).pid().next_integral(
                bearing_error,
                Scalar { bits: TICK_LENGTH_BITS },
            ),
            final(self).pid().prev_error() == Some(bearing_error),
            c.torque == old(self).pid().response(bearing_error, Scalar { bits: TICK_LENGTH_BITS }),
            c.fire == within_miss_budget(bearing_error, engagement.shot_distance),
            c.acceleration == engagement.aim_point_rel.scaled_by(Scalar { bits: THRUST_GAIN_BITS }),
    {
        let control = self.pid.update(bearing_error, Scalar::from_bits(TICK_LENGTH_BITS));
        let fire = bearing_error.abs().mul(engagement.shot_distance).lt(
            Scalar::from_bits(FIRE_THRESHOLD_BITS),
        );
        let acceleration = engagement.aim_point_rel.scale(Scalar::from_bits(THRUST_GAIN_BITS));
        Commands { torque: control, fire, acceleration }
    }
}

/// The priority by which a target is ranked for `purpose`.
pub open spec fn priority(t: TrackedTarget, purpose: Purpose) -> Scalar {
    match purpose {
        Purpose::Sensing => t.radar_priority,
        Purpose::Engaging => t.firing_priority,
    }
}

/// The priority of the choice is maximal: it is less than that of no
/// eligible target.
pub proof fn choice_is_not_outranked(
    targets: Seq<TrackedTarget>,
    purpose: Purpose,
    b: int,
    j: int,
)
    requires
        is_choice(targets, purpose, b),
        0 <= j < targets.len(),
        eligible(targets[j], purpose),
    ensures
        !priority(targets[b], purpose).less(priority(targets[j], purpose)),
{
    if priority(targets[b], purpose).less(priority(targets[j], purpose)) {
        total_order_extends_less(priority(targets[b], purpose), priority(targets[j], purpose));
    }
}

/// At most one slot is the choice: the ranking always names one target.
pub proof fn choice_is_unique(targets: Seq<TrackedTarget>, purpose: Purpose, a: int, b: int)
    requires
        is_choice(targets, purpose, a),
        is_choice(targets, purpose, b),
    ensures
        a == b,
{
    if a < b {
        assert(eligible(targets[b], purpose));
    } else if b < a {
        assert(eligible(targets[a], purpose));
    }
}

/// The gains of the heading controller denote eight, zero and five.
pub proof fn heading_gains_denote_their_values()
    ensures
        (Scalar { bits: HEADING_KP_BITS }).scaled_value() == 8 * pow2(UNIT_EXPONENT as nat),
        (Scalar { bits: HEADING_KI_BITS }).scaled_value() == 0,
        (Scalar { bits: HEADING_KD_BITS }).scaled_value() == 5 * pow2(UNIT_EXPONENT as nat),
{
    lemma2_to64();
    lemma2_to64_rest();
    let unit = pow2(UNIT_EXPONENT as nat);
    // eight = 2^52 at exponent field 1026
    units_of(1, 0, 1026);
    assert(scaled(HEADING_KP_BITS as int) == (1 * pow2(52)) * pow2(1025));
    // five = 5 * 2^50 at exponent field 1025
    units_of(5, 2, 1025);
    assert(scaled(HEADING_KD_BITS as int) == (5 * pow2(50)) * pow2(1024));
    assert(5 * pow2(0) * unit == 5 * unit) by (nonlinear_arith)
        requires
            pow2(0) == 1,
    ;
}

} // verus!
