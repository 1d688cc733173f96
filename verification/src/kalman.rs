//! A Kalman filter for the position and velocity of a target in the plane.
//!
//! The state is `[x, y, vx, vy]`. The model is linear: the position moves on
//! by the velocity each tick, and a measurement observes the whole state.
//! Inverting the residual covariance is left to the caller, who hands the
//! inverse to `update`.
use crate::mat4::{
    all_finite, mat4_add, mat4_applied, mat4_diagonal, mat4_difference, mat4_from_diag, mat4_product, mat4_sub,
    mat4_sum, mat4_transposed, Mat4, Vec4,
};
use crate::scalar::{Scalar, ONE_BITS, THOUSAND_BITS, TICK_LENGTH_BITS, ZERO_BITS};
use crate::vec2::Vec2;
use vstd::prelude::*;

verus! {

/// The variance with which each component of the state starts: 1000.
pub const INITIAL_VARIANCE_BITS: u64 = THOUSAND_BITS;

pub struct KalmanPosVel2d {
    /// State vector `[x, y, vx, vy]`.
    x: Vec4,
    /// State covariance matrix.
    p: Mat4,
    /// State transition matrix.
    f: Mat4,
    /// Process noise covariance matrix.
    q: Mat4,
    /// Measurement matrix.
    h: Mat4,
    /// Measurement noise covariance matrix.
    r: Mat4,
}

/// The transition of one tick: each position component moves on by its
/// velocity component times the tick length.
pub open spec fn transition_matrix() -> Seq<Scalar> {
    let i = Scalar { bits: ONE_BITS };
    let o = Scalar { bits: ZERO_BITS };
    let dt = Scalar { bits: TICK_LENGTH_BITS };
    seq![i, o, dt, o, o, i, o, dt, o, o, i, o, o, o, o, i]
}

/// The identity matrix.
pub open spec fn identity_matrix() -> Seq<Scalar> {
    let i = Scalar { bits: ONE_BITS };
    mat4_diagonal(i, i, i, i)
}

/// The covariance of positions of standard deviation `position_std` and
/// velocities of standard deviation `velocity_std`, all independent.
pub open spec fn noise_covariance(position_std: Scalar, velocity_std: Scalar) -> Seq<Scalar> {
    mat4_diagonal(
        position_std.times(position_std),
        position_std.times(position_std),
        velocity_std.times(velocity_std),
        velocity_std.times(velocity_std),
    )
}

/// The covariance after one tick without a measurement: `F P F^T + Q`.
pub open spec fn predicted_covariance(f: Seq<Scalar>, p: Seq<Scalar>, q: Seq<Scalar>) -> Seq<
    Scalar,
> {
    mat4_sum(mat4_product(mat4_product(f, p), mat4_transposed(f)), q)
}

/// The covariance of the measurement residual: `H P H^T + R`.
pub open spec fn residual_covariance(h: Seq<Scalar>, p: Seq<Scalar>, r: Seq<Scalar>) -> Seq<
    Scalar,
> {
    mat4_sum(mat4_product(mat4_product(h, p), mat4_transposed(h)), r)
}

/// The gain `P H^T S^-1`, for the inverse `s_inv` of the residual
/// covariance.
pub open spec fn kalman_gain(p: Seq<Scalar>, h: Seq<Scalar>, s_inv: Seq<Scalar>) -> Seq<Scalar> {
    mat4_product(mat4_product(p, mat4_transposed(h)), s_inv)
}

/// The residual of the measurement `z`: what it adds to the prediction
/// `H x`.
pub open spec fn residual(x: Vec4, h: Seq<Scalar>, z: Vec4) -> Vec4 {
    z.minus(mat4_applied(h, x))
}

/// The state after fusing the measurement `z` with gain `k`:
/// `x + K (z - H x)`.
pub open spec fn fused_state(x: Vec4, h: Seq<Scalar>, k: Seq<Scalar>, z: Vec4) -> Vec4 {
    x.plus(mat4_applied(k, residual(x, h, z)))
}

/// The covariance after fusing a measurement with gain `k`, in the Joseph
/// form `(I - K H) P (I - K H)^T + K R K^T`.
pub open spec fn fused_covariance(
    p: Seq<Scalar>,
    h: Seq<Scalar>,
    r: Seq<Scalar>,
    k: Seq<Scalar>,
) -> Seq<Scalar> {
    let i_minus_kh = mat4_difference(identity_matrix(), mat4_product(k, h));
    mat4_sum(
        mat4_product(mat4_product(i_minus_kh, p), mat4_transposed(i_minus_kh)),
        mat4_product(mat4_product(k, r), mat4_transposed(k)),
    )
}

/// The measurement vector of a measured position and velocity.
pub open spec fn measurement_of(position_meas: Vec2, velocity_meas: Vec2) -> Vec4 {
    Vec4 { x: position_meas.x, y: position_meas.y, z: velocity_meas.x, w: velocity_meas.y }
}

impl KalmanPosVel2d {
    pub closed spec fn state(self) -> Vec4 {
        self.x
    }

    pub closed spec fn covariance(self) -> Seq<Scalar> {
        self.p@
    }

    pub closed spec fn transition(self) -> Seq<Scalar> {
        self.f@
    }

    pub closed spec fn process_noise(self) -> Seq<Scalar> {
        self.q@
    }

    pub closed spec fn measurement(self) -> Seq<Scalar> {
        self.h@
    }

    pub closed spec fn measurement_noise(self) -> Seq<Scalar> {
        self.r@
    }

    /// The four matrices set at construction are those of `other`.
    pub open spec fn same_model(self, other: KalmanPosVel2d) -> bool {
        &&& self.transition() == other.transition()
        &&& self.process_noise() == other.process_noise()
        &&& self.measurement() == other.measurement()
        &&& self.measurement_noise() == other.measurement_noise()
    }

    /// A filter at the origin, at rest and very unsure of it, for
    /// measurement and process noise of the given standard deviations.
    pub fn new(
        position_meas_std: Scalar,
        velocity_meas_std: Scalar,
        position_process_std: Scalar,
        velocity_process_std: Scalar,
    ) -> (kf: KalmanPosVel2d)
        ensures
            kf.state().x.bits == ZERO_BITS,
            kf.state().y.bits == ZERO_BITS,
            kf.state().z.bits == ZERO_BITS,
            kf.state().w.bits == ZERO_BITS,
            kf.covariance() == mat4_diagonal(
                Scalar { bits: INITIAL_VARIANCE_BITS },
                Scalar { bits: INITIAL_VARIANCE_BITS },
                Scalar { bits: INITIAL_VARIANCE_BITS },
                Scalar { bits: INITIAL_VARIANCE_BITS },
            ),
            kf.transition() == transition_matrix(),
            kf.process_noise() == noise_covariance(position_process_std, velocity_process_std),
            kf.measurement() == identity_matrix(),
            kf.measurement_noise() == noise_covariance(position_meas_std, velocity_meas_std),
    {
        let x = Vec4::new(Scalar::zero(), Scalar::zero(), Scalar::zero(), Scalar::zero());
        let big = Scalar::from_bits(INITIAL_VARIANCE_BITS);
        let p = mat4_from_diag(big, big, big, big);

        let i = Scalar::one();
        let o = Scalar::zero();
        let dt = Scalar::from_bits(TICK_LENGTH_BITS);
        let f = Mat4 { m: [i, o, dt, o, o, i, o, dt, o, o, i, o, o, o, o, i] };
        proof {
            assert(f@ =~= transition_matrix());
        }

        let q = mat4_from_diag(
            position_process_std.mul(position_process_std),
            position_process_std.mul(position_process_std),
            velocity_process_std.mul(velocity_process_std),
            velocity_process_std.mul(velocity_process_std),
        );

        let h = Mat4::identity();

        let r = mat4_from_diag(
            position_meas_std.mul(position_meas_std),
            position_meas_std.mul(position_meas_std),
            velocity_meas_std.mul(velocity_meas_std),
            velocity_meas_std.mul(velocity_meas_std),
        );

        KalmanPosVel2d { x, p, f, q, h, r }
    }

    /// Advances the estimate by one tick without a measurement: the state
    /// moves on by the transition, and the covariance grows.
    pub fn predict(&mut self)
        ensures
            final(self).same_model(*old(self)),
            final(self).state() == mat4_applied(old(self).transition(), old(self).state()),
            final(self).covariance() == predicted_covariance(
                old(self).transition(),
                old(self).covariance(),
                old(self).process_noise(),
            ),
    {
        self.x = self.f.mul_vec(self.x);
        self.p = mat4_add(&self.f.mul(&self.p).mul(&self.f.transpose()), &self.q);
    }

    /// The covariance of the residual of a measurement taken now. Its
    /// inverse is what `update` asks for.
    pub fn innovation_covariance(&self) -> (s: Mat4)
        ensures
            s@ == residual_covariance(
                self.measurement(),
                self.covariance(),
                self.measurement_noise(),
            ),
    {
        mat4_add(&self.h.mul(&self.p).mul(&self.h.transpose()), &self.r)
    }

    /// Fuses a measured position and velocity into the estimate, given the
    /// inverse `s_inv` of the residual covariance.
    ///
    /// A measurement that agrees with the prediction leaves the estimate of
    /// the state as it is, whatever the finite gain: its residual is zero.
    pub fn update(&mut self, position_meas: &Vec2, velocity_meas: &Vec2, s_inv: &Mat4)
        ensures
            ({
                let z = measurement_of(*position_meas, *velocity_meas);
                let k = kalman_gain(old(self).covariance(), old(self).measurement(), s_inv@);
                &&& residual(old(self).state(), old(self).measurement(), z).is_zero()
                &&& all_finite(k)
                &&& !old(self).state().has_nan()
            }) ==> final(self).state().same_value(old(self).state()),
            final(self).same_model(*old(self)),
            final(self).state() == fused_state(
                old(self).state(),
                old(self).measurement(),
                kalman_gain(old(self).covariance(), old(self).measurement(), s_inv@),
                measurement_of(*position_meas, *velocity_meas),
            ),
            final(self).covariance() == fused_covariance(
                old(self).covariance(),
                old(self).measurement(),
                old(self).measurement_noise(),
                kalman_gain(old(self).covariance(), old(self).measurement(), s_inv@),
            ),
    {
        let z = Vec4::new(position_meas.x, position_meas.y, velocity_meas.x, velocity_meas.y);

        let y = z.sub(self.h.mul_vec(self.x));
        let k = self.p.mul(&self.h.transpose()).mul(s_inv);

        self.x = self.x.add(k.mul_vec(y));
        let i = Mat4::identity();
        let i_minus_kh = mat4_sub(&i, &k.mul(&self.h));
        self.p = mat4_add(
            &i_minus_kh.mul(&self.p).mul(&i_minus_kh.transpose()),
            &k.mul(&self.r).mul(&k.transpose()),
        );
    }

    /// The latest position estimate.
    pub fn position(&self) -> (r: Vec2)
        ensures
            r == (Vec2 { x: self.state().x, y: self.state().y }),
    {
        Vec2::new(self.x.x, self.x.y)
    }

    /// The latest velocity estimate.
    pub fn velocity(&self) -> (r: Vec2)
        ensures
            r == (Vec2 { x: self.state().z, y: self.state().w }),
    {
        Vec2::new(self.x.z, self.x.w)
    }
}

} // verus!
