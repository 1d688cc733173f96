//! Two-by-two matrices: linear maps of the plane and covariances of planar
//! quantities.
use crate::scalar::{Scalar, ONE_BITS, ZERO_BITS};
use crate::vec2::Vec2;
use vstd::prelude::*;
use vstd::std_specs::cmp::PartialEqSpecImpl;

verus! {

/// The matrix
/// ```text
/// [xx xy]
/// [yx yy]
/// ```
#[derive(Clone, Copy, Debug)]
pub struct Mat2 {
    pub xx: Scalar,
    pub xy: Scalar,
    pub yx: Scalar,
    pub yy: Scalar,
}

impl Mat2 {
    pub open spec fn sum(self, other: Mat2) -> Mat2 {
        Mat2 {
            xx: self.xx.plus(other.xx),
            xy: self.xy.plus(other.xy),
            yx: self.yx.plus(other.yx),
            yy: self.yy.plus(other.yy),
        }
    }

    /// Rows of `self` times columns of `other`.
    pub open spec fn product(self, other: Mat2) -> Mat2 {
        Mat2 {
            xx: self.xx.times(other.xx).plus(self.xy.times(other.yx)),
            xy: self.xx.times(other.xy).plus(self.xy.times(other.yy)),
            yx: self.yx.times(other.xx).plus(self.yy.times(other.yx)),
            yy: self.yx.times(other.xy).plus(self.yy.times(other.yy)),
        }
    }

    pub open spec fn scaled(self, k: Scalar) -> Mat2 {
        Mat2 {
            xx: self.xx.times(k),
            xy: self.xy.times(k),
            yx: self.yx.times(k),
            yy: self.yy.times(k),
        }
    }

    pub open spec fn determinant(self) -> Scalar {
        self.xx.times(self.yy).minus(self.xy.times(self.yx))
    }

    /// The adjugate divided by the determinant.
    pub open spec fn inverse(self) -> Mat2 {
        let det = self.determinant();
        Mat2 {
            xx: self.yy.over(det),
            xy: self.xy.negated().over(det),
            yx: self.yx.negated().over(det),
            yy: self.xx.over(det),
        }
    }

    pub open spec fn applied_to(self, v: Vec2) -> Vec2 {
        Vec2 {
            x: self.xx.times(v.x).plus(self.xy.times(v.y)),
            y: self.yx.times(v.x).plus(self.yy.times(v.y)),
        }
    }

    pub open spec fn transposed(self) -> Mat2 {
        Mat2 { xx: self.xx, xy: self.yx, yx: self.xy, yy: self.yy }
    }

    /// The square root of the sum of the squared entries.
    pub open spec fn frobenius(self) -> Scalar {
        self.xx.times(self.xx).plus(self.xy.times(self.xy)).plus(self.yx.times(self.yx)).plus(
            self.yy.times(self.yy),
        ).root()
    }

    /// The off-diagonal entries are the same pattern. A covariance is built
    /// this way, and sums and scalings keep it so.
    pub open spec fn mirrored(self) -> bool {
        self.xy == self.yx
    }

    pub fn new(a: Scalar, b: Scalar, c: Scalar, d: Scalar) -> (m: Mat2)
        ensures
            m == (Mat2 { xx: a, xy: b, yx: c, yy: d }),
    {
        Mat2 { xx: a, xy: b, yx: c, yy: d }
    }

    pub fn identity() -> (m: Mat2)
        ensures
            m.xx.bits == ONE_BITS,
            m.xy.bits == ZERO_BITS,
            m.yx.bits == ZERO_BITS,
            m.yy.bits == ONE_BITS,
    {
        Mat2 { xx: Scalar::one(), xy: Scalar::zero(), yx: Scalar::zero(), yy: Scalar::one() }
    }

    pub fn zero() -> (m: Mat2)
        ensures
            m.xx.bits == ZERO_BITS,
            m.xy.bits == ZERO_BITS,
            m.yx.bits == ZERO_BITS,
            m.yy.bits == ZERO_BITS,
    {
        Mat2 { xx: Scalar::zero(), xy: Scalar::zero(), yx: Scalar::zero(), yy: Scalar::zero() }
    }

    pub fn add(&self, other: &Mat2) -> (m: Mat2)
        ensures
            m == self.sum(*other),
            self.mirrored() && other.mirrored() ==> m.mirrored(),
    {
        Mat2 {
            xx: self.xx.add(other.xx),
            xy: self.xy.add(other.xy),
            yx: self.yx.add(other.yx),
            yy: self.yy.add(other.yy),
        }
    }

    pub fn mul(&self, other: &Mat2) -> (m: Mat2)
        ensures
            m == self.product(*other),
    {
        Mat2 {
            xx: self.xx.mul(other.xx).add(self.xy.mul(other.yx)),
            xy: self.xx.mul(other.xy).add(self.xy.mul(other.yy)),
            yx: self.yx.mul(other.xx).add(self.yy.mul(other.yx)),
            yy: self.yx.mul(other.xy).add(self.yy.mul(other.yy)),
        }
    }

    /// Every entry times `k`.
    pub fn scale(&self, k: Scalar) -> (m: Mat2)
        ensures
            m == self.scaled(k),
            self.mirrored() ==> m.mirrored(),
    {
        Mat2 {
            xx: self.xx.mul(k),
            xy: self.xy.mul(k),
            yx: self.yx.mul(k),
            yy: self.yy.mul(k),
        }
    }

    pub fn det(&self) -> (d: Scalar)
        ensures
            d == self.determinant(),
    {
        self.xx.mul(self.yy).sub(self.xy.mul(self.yx))
    }

    /// The inverse by the adjugate formula. A singular matrix has no error
    /// of its own: the division by a zero determinant yields infinities or
    /// NaNs, as the scalar division defines.
    pub fn inv(&self) -> (m: Mat2)
        ensures
            m == self.inverse(),
    {
        let det = self.det();
        Mat2 {
            xx: self.yy.div(det),
            xy: self.xy.neg().div(det),
            yx: self.yx.neg().div(det),
            yy: self.xx.div(det),
        }
    }

    pub fn mul_vec(&self, vec: &Vec2) -> (v: Vec2)
        ensures
            v == self.applied_to(*vec),
    {
        Vec2 {
            x: self.xx.mul(vec.x).add(self.xy.mul(vec.y)),
            y: self.yx.mul(vec.x).add(self.yy.mul(vec.y)),
        }
    }

    /// The `x` with `self * x == vec`, by way of the inverse.
    pub fn solve(&self, vec: &Vec2) -> (v: Vec2)
        ensures
            v == self.inverse().applied_to(*vec),
    {
        let inv = self.inv();
        inv.mul_vec(vec)
    }

    pub fn transpose(&self) -> (m: Mat2)
        ensures
            m == self.transposed(),
    {
        Mat2 { xx: self.xx, xy: self.yx, yx: self.xy, yy: self.yy }
    }

    pub fn trace(&self) -> (t: Scalar)
        ensures
            t == self.xx.plus(self.yy),
    {
        self.xx.add(self.yy)
    }

    pub fn frobenius_norm(&self) -> (n: Scalar)
        ensures
            n == self.frobenius(),
    {
        self.xx.mul(self.xx).add(self.xy.mul(self.xy)).add(self.yx.mul(self.yx)).add(
            self.yy.mul(self.yy),
        ).sqrt()
    }

    /// Whether the off-diagonal entries compare equal as numbers.
    pub fn is_symmetric(&self) -> (r: bool)
        ensures
            r == self.xy.same_value(self.yx),
    {
        self.xy.equals(self.yx)
    }

}

/// `a == b` where the four entries compare equal, each as numbers do: the
/// two zeros are equal, and a matrix with a NaN equals none, itself
/// included.
impl PartialEq for Mat2 {
    fn eq(&self, other: &Mat2) -> (r: bool) {
        self.xx.equals(other.xx) && self.xy.equals(other.xy) && self.yx.equals(other.yx)
            && self.yy.equals(other.yy)
    }
}

impl PartialEqSpecImpl for Mat2 {
    open spec fn obeys_eq_spec() -> bool {
        true
    }

    open spec fn eq_spec(&self, other: &Mat2) -> bool {
        &&& self.xx.same_value(other.xx)
        &&& self.xy.same_value(other.xy)
        &&& self.yx.same_value(other.yx)
        &&& self.yy.same_value(other.yy)
    }
}

/// `a + b` is the entrywise sum.
impl core::ops::Add for Mat2 {
    type Output = Mat2;

    fn add(self, rhs: Mat2) -> (m: Mat2) {
        Mat2 {
            xx: self.xx.add(rhs.xx),
            xy: self.xy.add(rhs.xy),
            yx: self.yx.add(rhs.yx),
            yy: self.yy.add(rhs.yy),
        }
    }
}

impl vstd::std_specs::ops::AddSpecImpl for Mat2 {
    open spec fn obeys_add_spec() -> bool {
        true
    }

    open spec fn add_req(self, rhs: Mat2) -> bool {
        true
    }

    open spec fn add_spec(self, rhs: Mat2) -> Mat2 {
        self.sum(rhs)
    }
}

/// `a += b` adds `b` in place.
impl core::ops::AddAssign for Mat2 {
    fn add_assign(&mut self, rhs: Mat2)
        ensures
            *final(self) == old(self).sum(rhs),
    {
        *self = *self + rhs;
    }
}

/// `a * b` is the matrix product.
impl core::ops::Mul<Mat2> for Mat2 {
    type Output = Mat2;

    fn mul(self, rhs: Mat2) -> (m: Mat2) {
        Mat2 {
            xx: self.xx.mul(rhs.xx).add(self.xy.mul(rhs.yx)),
            xy: self.xx.mul(rhs.xy).add(self.xy.mul(rhs.yy)),
            yx: self.yx.mul(rhs.xx).add(self.yy.mul(rhs.yx)),
            yy: self.yx.mul(rhs.xy).add(self.yy.mul(rhs.yy)),
        }
    }
}

impl vstd::std_specs::ops::MulSpecImpl<Mat2> for Mat2 {
    open spec fn obeys_mul_spec() -> bool {
        true
    }

    open spec fn mul_req(self, rhs: Mat2) -> bool {
        true
    }

    open spec fn mul_spec(self, rhs: Mat2) -> Mat2 {
        self.product(rhs)
    }
}

/// `a * k` scales every entry by `k`.
impl core::ops::Mul<Scalar> for Mat2 {
    type Output = Mat2;

    fn mul(self, k: Scalar) -> (m: Mat2) {
        Mat2 {
            xx: self.xx.mul(k),
            xy: self.xy.mul(k),
            yx: self.yx.mul(k),
            yy: self.yy.mul(k),
        }
    }
}

impl vstd::std_specs::ops::MulSpecImpl<Scalar> for Mat2 {
    open spec fn obeys_mul_spec() -> bool {
        true
    }

    open spec fn mul_req(self, k: Scalar) -> bool {
        true
    }

    open spec fn mul_spec(self, k: Scalar) -> Mat2 {
        self.scaled(k)
    }
}

/// `k * a` scales every entry by `k`, as `a * k` does.
impl core::ops::Mul<Mat2> for Scalar {
    type Output = Mat2;

    fn mul(self, m: Mat2) -> (r: Mat2) {
        m * self
    }
}

impl vstd::std_specs::ops::MulSpecImpl<Mat2> for Scalar {
    open spec fn obeys_mul_spec() -> bool {
        true
    }

    open spec fn mul_req(self, m: Mat2) -> bool {
        true
    }

    open spec fn mul_spec(self, m: Mat2) -> Mat2 {
        m.scaled(self)
    }
}

/// Transposing twice gives the matrix back, and a matrix with mirrored
/// off-diagonal entries is its own transpose.
pub proof fn transpose_is_an_involution(m: Mat2)
    ensures
        m.transposed().transposed() == m,
        m.mirrored() ==> m.transposed() == m,
{
}

} // verus!
