//! Four-by-four matrices and four-vectors, for the joint state of a planar
//! position and velocity.
use crate::scalar::{Scalar, ONE_BITS, ZERO_BITS};
use vstd::prelude::*;

verus! {

/// A vector of four components, such as the state `[x, y, vx, vy]`.
#[derive(Clone, Copy, Debug)]
pub struct Vec4 {
    pub x: Scalar,
    pub y: Scalar,
    pub z: Scalar,
    pub w: Scalar,
}

/// A matrix of four rows and four columns, stored row by row: the entry of
/// row `i` and column `j` is `m[4 i + j]`.
#[derive(Clone, Copy, Debug)]
pub struct Mat4 {
    pub m: [Scalar; 16],
}

impl View for Mat4 {
    type V = Seq<Scalar>;

    open spec fn view(&self) -> Seq<Scalar> {
        self.m@
    }
}

/// The sum of four products, added from the left.
pub open spec fn dot4(
    a0: Scalar,
    b0: Scalar,
    a1: Scalar,
    b1: Scalar,
    a2: Scalar,
    b2: Scalar,
    a3: Scalar,
    b3: Scalar,
) -> Scalar {
    a0.times(b0).plus(a1.times(b1)).plus(a2.times(b2)).plus(a3.times(b3))
}

/// Row `i` of `a` times column `j` of `b`.
pub open spec fn row_times_column(a: Seq<Scalar>, b: Seq<Scalar>, i: int, j: int) -> Scalar {
    dot4(
        a[4 * i],
        b[j],
        a[4 * i + 1],
        b[4 + j],
        a[4 * i + 2],
        b[8 + j],
        a[4 * i + 3],
        b[12 + j],
    )
}

pub open spec fn mat4_sum(a: Seq<Scalar>, b: Seq<Scalar>) -> Seq<Scalar> {
    Seq::new(16, |k: int| a[k].plus(b[k]))
}

pub open spec fn mat4_difference(a: Seq<Scalar>, b: Seq<Scalar>) -> Seq<Scalar> {
    Seq::new(16, |k: int| a[k].minus(b[k]))
}

pub open spec fn mat4_product(a: Seq<Scalar>, b: Seq<Scalar>) -> Seq<Scalar> {
    Seq::new(16, |k: int| row_times_column(a, b, k / 4, k % 4))
}

pub open spec fn mat4_transposed(a: Seq<Scalar>) -> Seq<Scalar> {
    Seq::new(16, |k: int| a[4 * (k % 4) + k / 4])
}

pub open spec fn mat4_diagonal(a1: Scalar, a2: Scalar, a3: Scalar, a4: Scalar) -> Seq<Scalar> {
    Seq::new(
        16,
        |k: int|
            if k == 0 {
                a1
            } else if k == 5 {
                a2
            } else if k == 10 {
                a3
            } else if k == 15 {
                a4
            } else {
                Scalar { bits: ZERO_BITS }
            },
    )
}

/// The matrix `a` applied to the vector `v`.
pub open spec fn mat4_applied(a: Seq<Scalar>, v: Vec4) -> Vec4 {
    Vec4 {
        x: dot4(a[0], v.x, a[1], v.y, a[2], v.z, a[3], v.w),
        y: dot4(a[4], v.x, a[5], v.y, a[6], v.z, a[7], v.w),
        z: dot4(a[8], v.x, a[9], v.y, a[10], v.z, a[11], v.w),
        w: dot4(a[12], v.x, a[13], v.y, a[14], v.z, a[15], v.w),
    }
}

/// Every entry of the matrix is a finite number.
pub open spec fn all_finite(a: Seq<Scalar>) -> bool {
    forall|i: int| 0 <= i < a.len() ==> (#[trigger] a[i]).is_finite()
}

impl Vec4 {
    /// Every component is a zero.
    pub open spec fn is_zero(self) -> bool {
        self.x.is_zero() && self.y.is_zero() && self.z.is_zero() && self.w.is_zero()
    }

    /// Some component is a NaN.
    pub open spec fn has_nan(self) -> bool {
        self.x.is_nan() || self.y.is_nan() || self.z.is_nan() || self.w.is_nan()
    }

    /// The components compare equal, each as numbers do.
    pub open spec fn same_value(self, rhs: Vec4) -> bool {
        &&& self.x.same_value(rhs.x)
        &&& self.y.same_value(rhs.y)
        &&& self.z.same_value(rhs.z)
        &&& self.w.same_value(rhs.w)
    }

    pub open spec fn plus(self, rhs: Vec4) -> Vec4 {
        Vec4 {
            x: self.x.plus(rhs.x),
            y: self.y.plus(rhs.y),
            z: self.z.plus(rhs.z),
            w: self.w.plus(rhs.w),
        }
    }

    pub open spec fn minus(self, rhs: Vec4) -> Vec4 {
        Vec4 {
            x: self.x.minus(rhs.x),
            y: self.y.minus(rhs.y),
            z: self.z.minus(rhs.z),
            w: self.w.minus(rhs.w),
        }
    }

    pub fn new(x: Scalar, y: Scalar, z: Scalar, w: Scalar) -> (v: Vec4)
        ensures
            v == (Vec4 { x, y, z, w }),
    {
        Vec4 { x, y, z, w }
    }

    pub fn add(self, rhs: Vec4) -> (v: Vec4)
        ensures
            v == self.plus(rhs),
            rhs.is_zero() && !self.has_nan() ==> v.same_value(self),
    {
        Vec4 {
            x: self.x.add(rhs.x),
            y: self.y.add(rhs.y),
            z: self.z.add(rhs.z),
            w: self.w.add(rhs.w),
        }
    }

    pub fn sub(self, rhs: Vec4) -> (v: Vec4)
        ensures
            v == self.minus(rhs),
    {
        Vec4 {
            x: self.x.sub(rhs.x),
            y: self.y.sub(rhs.y),
            z: self.z.sub(rhs.z),
            w: self.w.sub(rhs.w),
        }
    }
}

fn sum_of_products(
    a0: Scalar,
    b0: Scalar,
    a1: Scalar,
    b1: Scalar,
    a2: Scalar,
    b2: Scalar,
    a3: Scalar,
    b3: Scalar,
) -> (r: Scalar)
    ensures
        r == dot4(a0, b0, a1, b1, a2, b2, a3, b3),
        a0.is_finite() && a1.is_finite() && a2.is_finite() && a3.is_finite() && b0.is_zero()
            && b1.is_zero() && b2.is_zero() && b3.is_zero() ==> r.is_zero(),
{
    a0.mul(b0).add(a1.mul(b1)).add(a2.mul(b2)).add(a3.mul(b3))
}

fn entry_of_product(a: &Mat4, b: &Mat4, i: usize, j: usize) -> (r: Scalar)
    requires
        i < 4,
        j < 4,
    ensures
        r == row_times_column(a@, b@, i as int, j as int),
{
    sum_of_products(
        a.m[4 * i],
        b.m[j],
        a.m[4 * i + 1],
        b.m[4 + j],
        a.m[4 * i + 2],
        b.m[8 + j],
        a.m[4 * i + 3],
        b.m[12 + j],
    )
}

impl Mat4 {
    pub fn identity() -> (r: Mat4)
        ensures
            r@ == mat4_diagonal(
                Scalar { bits: ONE_BITS },
                Scalar { bits: ONE_BITS },
                Scalar { bits: ONE_BITS },
                Scalar { bits: ONE_BITS },
            ),
    {
        mat4_from_diag(Scalar::one(), Scalar::one(), Scalar::one(), Scalar::one())
    }

    /// The product of `self` and `rhs`: each entry is a row of `self` times
    /// a column of `rhs`.
    pub fn mul(&self, rhs: &Mat4) -> (r: Mat4)
        ensures
            r@ == mat4_product(self@, rhs@),
    {
        let r = Mat4 {
            m: [
                entry_of_product(self, rhs, 0, 0),
                entry_of_product(self, rhs, 0, 1),
                entry_of_product(self, rhs, 0, 2),
                entry_of_product(self, rhs, 0, 3),
                entry_of_product(self, rhs, 1, 0),
                entry_of_product(self, rhs, 1, 1),
                entry_of_product(self, rhs, 1, 2),
                entry_of_product(self, rhs, 1, 3),
                entry_of_product(self, rhs, 2, 0),
                entry_of_product(self, rhs, 2, 1),
                entry_of_product(self, rhs, 2, 2),
                entry_of_product(self, rhs, 2, 3),
                entry_of_product(self, rhs, 3, 0),
                entry_of_product(self, rhs, 3, 1),
                entry_of_product(self, rhs, 3, 2),
                entry_of_product(self, rhs, 3, 3),
            ],
        };
        proof {
            assert(r@ =~= mat4_product(self@, rhs@));
        }
        r
    }

    /// The matrix applied to `v`. A matrix of finite entries takes the
    /// zero vector to a zero vector.
    pub fn mul_vec(&self, v: Vec4) -> (r: Vec4)
        ensures
            r == mat4_applied(self@, v),
            all_finite(self@) && v.is_zero() ==> r.is_zero(),
    {
        let a = &self.m;
        Vec4 {
            x: sum_of_products(a[0], v.x, a[1], v.y, a[2], v.z, a[3], v.w),
            y: sum_of_products(a[4], v.x, a[5], v.y, a[6], v.z, a[7], v.w),
            z: sum_of_products(a[8], v.x, a[9], v.y, a[10], v.z, a[11], v.w),
            w: sum_of_products(a[12], v.x, a[13], v.y, a[14], v.z, a[15], v.w),
        }
    }

    pub fn transpose(&self) -> (r: Mat4)
        ensures
            r@ == mat4_transposed(self@),
    {
        let a = &self.m;
        let r = Mat4 {
            m: [
                a[0],
                a[4],
                a[8],
                a[12],
                a[1],
                a[5],
                a[9],
                a[13],
                a[2],
                a[6],
                a[10],
                a[14],
                a[3],
                a[7],
                a[11],
                a[15],
            ],
        };
        proof {
            assert(r@ =~= mat4_transposed(self@));
        }
        r
    }
}

/// The entrywise sum of two matrices.
pub fn mat4_add(left: &Mat4, right: &Mat4) -> (r: Mat4)
    ensures
        r@ == mat4_sum(left@, right@),
{
    let a = &left.m;
    let b = &right.m;
    let r = Mat4 {
        m: [
            a[0].add(b[0]),
            a[1].add(b[1]),
            a[2].add(b[2]),
            a[3].add(b[3]),
            a[4].add(b[4]),
            a[5].add(b[5]),
            a[6].add(b[6]),
            a[7].add(b[7]),
            a[8].add(b[8]),
            a[9].add(b[9]),
            a[10].add(b[10]),
            a[11].add(b[11]),
            a[12].add(b[12]),
            a[13].add(b[13]),
            a[14].add(b[14]),
            a[15].add(b[15]),
        ],
    };
    proof {
        assert(r@ =~= mat4_sum(left@, right@));
    }
    r
}

/// The entrywise difference of two matrices.
pub fn mat4_sub(left: &Mat4, right: &Mat4) -> (r: Mat4)
    ensures
        r@ == mat4_difference(left@, right@),
{
    let a = &left.m;
    let b = &right.m;
    let r = Mat4 {
        m: [
            a[0].sub(b[0]),
            a[1].sub(b[1]),
            a[2].sub(b[2]),
            a[3].sub(b[3]),
            a[4].sub(b[4]),
            a[5].sub(b[5]),
            a[6].sub(b[6]),
            a[7].sub(b[7]),
            a[8].sub(b[8]),
            a[9].sub(b[9]),
            a[10].sub(b[10]),
            a[11].sub(b[11]),
            a[12].sub(b[12]),
            a[13].sub(b[13]),
            a[14].sub(b[14]),
            a[15].sub(b[15]),
        ],
    };
    proof {
        assert(r@ =~= mat4_difference(left@, right@));
    }
    r
}

/// The matrix with the given diagonal and zeros elsewhere.
pub fn mat4_from_diag(a1: Scalar, a2: Scalar, a3: Scalar, a4: Scalar) -> (r: Mat4)
    ensures
        r@ == mat4_diagonal(a1, a2, a3, a4),
{
    let o = Scalar::zero();
    let r = Mat4 { m: [a1, o, o, o, o, a2, o, o, o, o, a3, o, o, o, o, a4] };
    proof {
        assert(r@ =~= mat4_diagonal(a1, a2, a3, a4));
    }
    r
}

/// Transposing twice gives the matrix back.
pub proof fn transpose_is_an_involution(a: Seq<Scalar>)
    requires
        a.len() == 16,
    ensures
        mat4_transposed(mat4_transposed(a)) == a,
{
    assert(mat4_transposed(mat4_transposed(a)) =~= a);
}

} // verus!
