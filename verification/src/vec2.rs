//! Two-dimensional vectors of scalars.
use crate::scalar::Scalar;
use vstd::prelude::*;

verus! {

/// A position, velocity or acceleration in the plane.
#[derive(Clone, Copy, Debug)]
pub struct Vec2 {
    pub x: Scalar,
    pub y: Scalar,
}

impl Vec2 {
    pub open spec fn plus(self, rhs: Vec2) -> Vec2 {
        Vec2 { x: self.x.plus(rhs.x), y: self.y.plus(rhs.y) }
    }

    pub open spec fn minus(self, rhs: Vec2) -> Vec2 {
        Vec2 { x: self.x.minus(rhs.x), y: self.y.minus(rhs.y) }
    }

    /// Each component times `k`, the vector on the left.
    pub open spec fn times(self, k: Scalar) -> Vec2 {
        Vec2 { x: self.x.times(k), y: self.y.times(k) }
    }

    /// `k` times each component, the scalar on the left.
    pub open spec fn scaled_by(self, k: Scalar) -> Vec2 {
        Vec2 { x: k.times(self.x), y: k.times(self.y) }
    }

    pub open spec fn over(self, k: Scalar) -> Vec2 {
        Vec2 { x: self.x.over(k), y: self.y.over(k) }
    }

    pub open spec fn dot_product(self, rhs: Vec2) -> Scalar {
        self.x.times(rhs.x).plus(self.y.times(rhs.y))
    }

    pub open spec fn norm(self) -> Scalar {
        self.dot_product(self).root()
    }

    pub fn new(x: Scalar, y: Scalar) -> (r: Vec2)
        ensures
            r == (Vec2 { x, y }),
    {
        Vec2 { x, y }
    }

    pub fn add(self, rhs: Vec2) -> (r: Vec2)
        ensures
            r == self.plus(rhs),
    {
        Vec2 { x: self.x.add(rhs.x), y: self.y.add(rhs.y) }
    }

    pub fn sub(self, rhs: Vec2) -> (r: Vec2)
        ensures
            r == self.minus(rhs),
    {
        Vec2 { x: self.x.sub(rhs.x), y: self.y.sub(rhs.y) }
    }

    pub fn mul(self, k: Scalar) -> (r: Vec2)
        ensures
            r == self.times(k),
    {
        Vec2 { x: self.x.mul(k), y: self.y.mul(k) }
    }

    pub fn scale(self, k: Scalar) -> (r: Vec2)
        ensures
            r == self.scaled_by(k),
    {
        Vec2 { x: k.mul(self.x), y: k.mul(self.y) }
    }

    pub fn div(self, k: Scalar) -> (r: Vec2)
        ensures
            r == self.over(k),
    {
        Vec2 { x: self.x.div(k), y: self.y.div(k) }
    }

    pub fn dot(self, rhs: Vec2) -> (r: Scalar)
        ensures
            r == self.dot_product(rhs),
    {
        self.x.mul(rhs.x).add(self.y.mul(rhs.y))
    }

    pub fn length(self) -> (r: Scalar)
        ensures
            r == self.norm(),
    {
        self.dot(self).sqrt()
    }
}

} // verus!
