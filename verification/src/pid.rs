//! A proportional-integral-derivative controller for scalar signals.
//!
//! The control effort is `kp e + ki I + kd de/dt`, where `e` is the error,
//! `I` its running integral and `de/dt` its backward difference. There is no
//! anti-windup, filtering or clamping: the integral grows without bound.
use crate::scalar::{Scalar, HALF_BITS, ZERO_BITS};
use vstd::prelude::*;

verus! {

#[derive(Clone, Debug)]
pub struct Pid {
    /// Proportional gain.
    kp: Scalar,
    /// Integral gain.
    ki: Scalar,
    /// Derivative gain.
    kd: Scalar,
    /// Accumulated integral of the error.
    integral: Scalar,
    /// Error at the previous update; `None` until the first one.
    prev_error: Option<Scalar>,
}

/// What one update adds to the integral: a trapezoid between the previous
/// error and this one, or a rectangle where there is no previous error.
pub open spec fn integral_increment(prev: Option<Scalar>, error: Scalar, dt: Scalar) -> Scalar {
    match prev {
        Some(p) => (Scalar { bits: HALF_BITS }).times(error.plus(p)).times(dt),
        None => error.times(dt),
    }
}

/// The backward difference of the error, zero where there is no previous
/// error.
pub open spec fn error_rate(prev: Option<Scalar>, error: Scalar, dt: Scalar) -> Scalar {
    match prev {
        Some(p) => error.minus(p).over(dt),
        None => Scalar { bits: ZERO_BITS },
    }
}

impl Pid {
    pub closed spec fn kp(self) -> Scalar {
        self.kp
    }

    pub closed spec fn ki(self) -> Scalar {
        self.ki
    }

    pub closed spec fn kd(self) -> Scalar {
        self.kd
    }

    pub closed spec fn integral(self) -> Scalar {
        self.integral
    }

    pub closed spec fn prev_error(self) -> Option<Scalar> {
        self.prev_error
    }

    /// The integral after an update with `error` over `dt`.
    pub open spec fn next_integral(self, error: Scalar, dt: Scalar) -> Scalar {
        self.integral().plus(integral_increment(self.prev_error(), error, dt))
    }

    /// The control effort of an update with `error` over `dt`.
    pub open spec fn response(self, error: Scalar, dt: Scalar) -> Scalar {
        self.kp().times(error).plus(self.ki().times(self.next_integral(error, dt))).plus(
            self.kd().times(error_rate(self.prev_error(), error, dt)),
        )
    }

    /// The gains are finite numbers.
    pub open spec fn finite_gains(self) -> bool {
        self.kp().is_finite() && self.ki().is_finite() && self.kd().is_finite()
    }

    /// The controller remembers nothing but zeros.
    pub open spec fn at_rest(self) -> bool {
        &&& self.integral().is_zero()
        &&& self.prev_error() matches Some(p) ==> p.is_zero()
    }

    /// The controller has no memory at all, as after `new` or `reset`.
    pub open spec fn is_fresh(self) -> bool {
        self.integral().bits == ZERO_BITS && self.prev_error() is None
    }

    /// Creates a controller with the given gains and no memory.
    #[must_use]
    pub fn new(kp: Scalar, ki: Scalar, kd: Scalar) -> (pid: Pid)
        ensures
            pid.kp() == kp,
            pid.ki() == ki,
            pid.kd() == kd,
            pid.is_fresh(),
    {
        Pid { kp, ki, kd, integral: Scalar::zero(), prev_error: None }
    }

    /// Clears the integral and the previous error. The gains stay.
    pub fn reset(&mut self)
        ensures
            final(self).kp() == old(self).kp(),
            final(self).ki() == old(self).ki(),
            final(self).kd() == old(self).kd(),
            final(self).is_fresh(),
    {
        self.integral = Scalar::zero();
        self.prev_error = None;
    }

    /// Advances the controller by one step of `dt` seconds with the current
    /// `error` and returns the control effort.
    ///
    /// A controller at rest that is fed a zero error stays at rest and
    /// answers zero, whatever its finite gains.
    pub fn update(&mut self, error: Scalar, dt: Scalar) -> (u: Scalar)
        requires
            dt.is_positive(),
        ensures
            final(self).kp() == old(self).kp(),
            final(self).ki() == old(self).ki(),
            final(self).kd() == old(self).kd(),
            final(self).integral() == old(self).next_integral(error, dt),
            final(self).prev_error() == Some(error),
            u == old(self).response(error, dt),
            old(self).finite_gains() && old(self).at_rest() && error.is_zero() && dt.is_finite()
                ==> u.is_zero() && final(self).at_rest(),
    {
        let p = self.kp.mul(error);

        let integral_increment = match self.prev_error {
            Some(prev) => Scalar::from_bits(HALF_BITS).mul(error.add(prev)).mul(dt),
            None => error.mul(dt),
        };
        self.integral = self.integral.add(integral_increment);
        let i = self.ki.mul(self.integral);

        let derivative = match self.prev_error {
            Some(prev) => error.sub(prev).div(dt),
            None => Scalar::zero(),
        };
        let d = self.kd.mul(derivative);

        self.prev_error = Some(error);

        p.add(i).add(d)
    }
}

/// Two controllers with the same gains and no memory answer the same error
/// alike: after a reset a controller behaves as a new one does.
pub proof fn fresh_controllers_agree(a: Pid, b: Pid, error: Scalar, dt: Scalar)
    requires
        a.is_fresh(),
        b.is_fresh(),
        a.kp() == b.kp(),
        a.ki() == b.ki(),
        a.kd() == b.kd(),
    ensures
        a.response(error, dt) == b.response(error, dt),
        a.next_integral(error, dt) == b.next_integral(error, dt),
        a.response(error, dt) == a.kp().times(error).plus(
            a.ki().times((Scalar { bits: ZERO_BITS }).plus(error.times(dt))),
        ).plus(a.kd().times(Scalar { bits: ZERO_BITS })),
{
    assert(a.integral() == Scalar { bits: ZERO_BITS });
    assert(b.integral() == Scalar { bits: ZERO_BITS });
}

} // verus!
