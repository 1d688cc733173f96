//! Real-valued scalars, carried as IEEE 754 binary64 bit patterns.
//!
//! The verifier reasons about integers, so a scalar is held as the 64-bit
//! pattern of a double: one sign bit, eleven exponent bits, fifty-two
//! significand bits. Sign handling and every comparison are proved here
//! against an integer model of the encoding. The four rounded operations and
//! the square root are delegated to the `const_soft_float` crate, which
//! computes them on the bit pattern with integer arithmetic; their results
//! are named, not defined, in the contracts.
use const_soft_float::soft_f64::SoftF64;
use vstd::arithmetic::power2::{
    lemma2_to64, lemma2_to64_rest, lemma_pow2_adds, lemma_pow2_pos,
    lemma_pow2_strictly_increases, lemma_pow2_unfold, pow2,
};
use vstd::prelude::*;

verus! {

/// The weight of the sign bit.
pub const SIGN_BIT: u64 = 0x8000_0000_0000_0000;

/// The pattern of positive infinity; every larger magnitude is a NaN.
pub const INFINITY_BITS: u64 = 0x7ff0_0000_0000_0000;

/// The pattern of the smallest positive normal number, 2^-1022. The
/// positive patterns under it are the subnormal numbers.
pub const MIN_NORMAL_BITS: u64 = 0x0010_0000_0000_0000;

/// The exponent by which a subnormal number is raised before its square
/// root is taken.
pub const RAISE_EXPONENT: u64 = 108;

/// 2^-54, by which the root of a raised number is lowered again: the
/// inverse of the root of 2^108.
pub const LOWER_ROOT_BITS: u64 = 0x3c90_0000_0000_0000;

/// The patterns of the constants that the guidance formulas use.
pub const ZERO_BITS: u64 = 0;

pub const HALF_BITS: u64 = 0x3fe0_0000_0000_0000;

pub const ONE_BITS: u64 = 0x3ff0_0000_0000_0000;

pub const TWO_BITS: u64 = 0x4000_0000_0000_0000;

pub const THREE_BITS: u64 = 0x4008_0000_0000_0000;

pub const FOUR_BITS: u64 = 0x4010_0000_0000_0000;

pub const TEN_BITS: u64 = 0x4024_0000_0000_0000;

pub const THOUSAND_BITS: u64 = 0x408f_4000_0000_0000;

/// 1e-6, the threshold below which a quantity is too small to divide by.
pub const EPSILON_BITS: u64 = 0x3eb0_c6f7_a0b5_ed8d;

/// 1e-4, the default convergence tolerance of the intercept refinement.
pub const TOLERANCE_BITS: u64 = 0x3f1a_36e2_eb1c_432d;

/// One sixtieth: the duration of a control tick in seconds.
pub const TICK_LENGTH_BITS: u64 = 0x3f91_1111_1111_1111;

/// The bit pattern that `const_soft_float` computes for the sum of the
/// doubles with patterns `a` and `b`. It stands for the IEEE 754 sum,
/// rounded to nearest; no contract here says that it is.
pub uninterp spec fn ieee_sum(a: u64, b: u64) -> u64;

/// The bit pattern that `const_soft_float` computes for the product of the
/// doubles with patterns `a` and `b`. Where the product comes out
/// subnormal, the crate is seen to be up to one unit in the last place off
/// the correctly rounded product; `Scalar::mul` rounds those itself.
pub uninterp spec fn ieee_product(a: u64, b: u64) -> u64;

/// The bit pattern that `const_soft_float` computes for the quotient of
/// the double with pattern `a` by the one with pattern `b`.
pub uninterp spec fn ieee_quotient(a: u64, b: u64) -> u64;

/// The bit pattern that `const_soft_float` computes for the square root of
/// the double with pattern `a`.
pub uninterp spec fn ieee_sqrt(a: u64) -> u64;

/// Whether a pattern encodes positive or negative zero.
pub open spec fn zero_pattern(bits: u64) -> bool {
    bits == 0 || bits == SIGN_BIT
}

/// Whether a pattern encodes a zero, a subnormal or a normal number.
pub open spec fn finite_pattern(bits: u64) -> bool {
    if bits >= SIGN_BIT {
        bits - SIGN_BIT < INFINITY_BITS
    } else {
        bits < INFINITY_BITS
    }
}

/// Whether a pattern encodes a NaN.
pub open spec fn nan_pattern(bits: u64) -> bool {
    if bits >= SIGN_BIT {
        bits - SIGN_BIT > INFINITY_BITS
    } else {
        bits > INFINITY_BITS
    }
}

/// Calls `SoftF64::add` of `const_soft_float` on two bit patterns. Not
/// proved: that the result is a function of the two patterns alone, here
/// named `ieee_sum`; that the sum of two zeros is a zero (the crate returns
/// the bitwise AND of the operands there); and that a zero added to a
/// number that is neither a zero nor a NaN leaves it as it is (the crate
/// returns the first operand there).
#[verifier::external_body]
fn soft_add(a: u64, b: u64) -> (r: u64)
    ensures
        r == ieee_sum(a, b),
        zero_pattern(a) && zero_pattern(b) ==> zero_pattern(r),
        zero_pattern(b) && !zero_pattern(a) && !nan_pattern(a) ==> r == a,
{
    SoftF64::from_bits(a).add(SoftF64::from_bits(b)).to_bits()
}

/// Calls `SoftF64::mul` of `const_soft_float` on two bit patterns. Not
/// proved: that the result is a function of the two patterns alone, here
/// named `ieee_product`, and that a zero times a finite number is a zero
/// (the crate returns the bare sign of the product there).
#[verifier::external_body]
fn soft_mul(a: u64, b: u64) -> (r: u64)
    ensures
        r == ieee_product(a, b),
        zero_pattern(a) && finite_pattern(b) ==> zero_pattern(r),
        finite_pattern(a) && zero_pattern(b) ==> zero_pattern(r),
{
    SoftF64::from_bits(a).mul(SoftF64::from_bits(b)).to_bits()
}

/// Calls `SoftF64::div` of `const_soft_float` on two bit patterns. Not
/// proved: that the result is a function of the two patterns alone, here
/// named `ieee_quotient`, and that a zero divided by anything but a zero or
/// a NaN is a zero (the crate returns the bare sign of the quotient there).
#[verifier::external_body]
fn soft_div(a: u64, b: u64) -> (r: u64)
    ensures
        r == ieee_quotient(a, b),
        zero_pattern(a) && !zero_pattern(b) && !nan_pattern(b) ==> zero_pattern(r),
{
    SoftF64::from_bits(a).div(SoftF64::from_bits(b)).to_bits()
}

/// The significand of a finite magnitude pattern, with the implicit bit of
/// a normal number: the number is its significand times two to its unit
/// exponent, in units of 2^-1074.
pub open spec fn significand(m: int) -> int {
    if m / (MIN_NORMAL_BITS as int) == 0 {
        m % (MIN_NORMAL_BITS as int)
    } else {
        MIN_NORMAL_BITS + m % (MIN_NORMAL_BITS as int)
    }
}

/// The exponent of the unit of the significand of a magnitude pattern, over
/// 2^-1074: zero for the subnormal numbers and the lowest normal ones.
pub open spec fn unit_exponent(m: int) -> int {
    if m / (MIN_NORMAL_BITS as int) == 0 {
        0
    } else {
        m / (MIN_NORMAL_BITS as int) - 1
    }
}

/// `n / d` rounded to the nearest integer, and to the even one of two that
/// are equally near.
pub open spec fn rounded_quotient(n: int, d: int) -> int {
    let q = n / d;
    let r = n % d;
    if 2 * r > d || (2 * r == d && q % 2 == 1) {
        q + 1
    } else {
        q
    }
}

/// The exponent under which the product of two unit exponents counts in
/// units of 2^-1074 squared.
pub const UNITS_PER_ONE: u64 = 1074;

/// Whether a pattern encodes a positive subnormal number.
pub open spec fn positive_subnormal_pattern(bits: u64) -> bool {
    0 < bits < MIN_NORMAL_BITS
}

/// How often a significand under 2^52 is doubled until it is not under it.
pub open spec fn doublings(m: int) -> nat
    decreases 2 * MIN_NORMAL_BITS - m,
{
    if 0 < m < MIN_NORMAL_BITS {
        1 + doublings(2 * m)
    } else {
        0
    }
}

/// Doubling a positive significand `doublings` times brings it into the
/// range of the normal significands, from 2^52 up to 2^53, in at most 52
/// steps.
pub proof fn doublings_normalize(m: int)
    requires
        0 < m < MIN_NORMAL_BITS,
    ensures
        1 <= doublings(m) <= 52,
        MIN_NORMAL_BITS <= m * pow2(doublings(m)) < 2 * MIN_NORMAL_BITS,
    decreases 2 * MIN_NORMAL_BITS - m,
{
    lemma2_to64();
    lemma2_to64_rest();
    if 2 * m < MIN_NORMAL_BITS {
        doublings_normalize(2 * m);
        let k = doublings(2 * m);
        lemma_pow2_unfold(k + 1);
        assert((2 * m) * pow2(k) == m * (2 * pow2(k))) by (nonlinear_arith);
    } else {
        assert(doublings(2 * m) == 0);
        assert(m * pow2(1) == 2 * m);
    }
    let d = doublings(m);
    if d > 52 {
        if d > 53 {
            lemma_pow2_strictly_increases(53, d);
        }
        assert(m * pow2(d) >= pow2(d)) by (nonlinear_arith)
            requires
                m >= 1,
                pow2(d) >= 0,
        ;
    }
}

/// Calls `SoftF64::sqrt` of `const_soft_float` on a bit pattern that is no
/// positive subnormal number; for those the crate shifts by the width of a
/// `usize`, too far where that has 32 bits. Not proved: that the result is
/// a function of the pattern alone, here named `ieee_sqrt`.
#[verifier::external_body]
fn soft_sqrt(a: u64) -> (r: u64)
    requires
        !positive_subnormal_pattern(a),
    ensures
        r == ieee_sqrt(a),
{
    SoftF64::from_bits(a).sqrt().to_bits()
}

fn significand_of(m: u64) -> (r: u64)
    requires
        m < INFINITY_BITS,
    ensures
        r == significand(m as int),
        r < 2 * MIN_NORMAL_BITS,
{
    if m / MIN_NORMAL_BITS == 0 {
        m % MIN_NORMAL_BITS
    } else {
        MIN_NORMAL_BITS + m % MIN_NORMAL_BITS
    }
}

fn unit_exponent_of(m: u64) -> (r: u64)
    requires
        m < INFINITY_BITS,
    ensures
        r == unit_exponent(m as int),
        r <= 2045,
{
    if m / MIN_NORMAL_BITS == 0 {
        0
    } else {
        m / MIN_NORMAL_BITS - 1
    }
}

/// Two to the power `k`, for a `k` of at most 106.
fn power_of_two(k: u64) -> (d: u128)
    requires
        k <= 106,
    ensures
        d == pow2(k as nat),
        0 < d <= 0x400_0000_0000_0000_0000_0000_0000,
{
    let mut d: u128 = 1;
    let mut i: u64 = 0;
    proof {
        lemma2_to64();
        lemma2_to64_rest();
        lemma_pow2_adds(64, 42);
        lemma_pow2_pos(106);
        if 0 < 106 {
            lemma_pow2_strictly_increases(0, 106);
        }
    }
    while i < k
        invariant
            i <= k,
            k <= 106,
            d == pow2(i as nat),
            0 < d,
            d <= pow2(106),
            pow2(106) == 0x400_0000_0000_0000_0000_0000_0000,
        decreases k - i,
    {
        proof {
            lemma_pow2_unfold((i + 1) as nat);
            if i + 1 < 106 {
                lemma_pow2_strictly_increases((i + 1) as nat, 106);
            }
        }
        d = d * 2;
        i = i + 1;
    }
    d
}

/// Rounds `product / 2^places` to the nearest whole number, and to the even
/// one of two equally near; `None` where the quotient is 2^53 or more.
fn round_to_units(product: u128, places: u64) -> (r: Option<u64>)
    requires
        places > 0,
        product < 0x400_0000_0000_0000_0000_0000_0000,
    ensures
        r is Some <==> product as int / (pow2(places as nat) as int) < 2 * MIN_NORMAL_BITS,
        r matches Some(units) ==> units == rounded_quotient(
            product as int,
            pow2(places as nat) as int,
        ) && units <= 2 * MIN_NORMAL_BITS,
{
    proof {
        lemma2_to64();
        lemma_pow2_adds(64, 42);
        lemma2_to64_rest();
        assert(pow2(106) == 0x400_0000_0000_0000_0000_0000_0000);
    }
    if places > 106 {
        proof {
            lemma_pow2_unfold(places as nat);
            if places > 107 {
                lemma_pow2_strictly_increases(106, (places - 1) as nat);
            }
            let d = pow2(places as nat) as int;
            assert(2 * product < d);
            assert(product as int / d == 0 && product as int % d == product) by (nonlinear_arith)
                requires
                    0 <= product < d,
            ;
        }
        return Some(0);
    }
    let d: u128 = power_of_two(places);
    let q: u128 = product / d;
    let rem: u128 = product % d;
    if q < 2 * (MIN_NORMAL_BITS as u128) {
        let up = 2 * rem > d || (2 * rem == d && q % 2 == 1);
        let units: u64 = q as u64;
        Some(if up { units + 1 } else { units })
    } else {
        None
    }
}

/// A double-precision number, held as its bit pattern.
#[derive(Clone, Copy, Debug)]
pub struct Scalar {
    pub bits: u64,
}

impl Scalar {
    /// The sign bit is set. True of negative zero and of NaNs with the bit set.
    pub open spec fn sign(self) -> bool {
        self.bits >= SIGN_BIT
    }

    /// The pattern with the sign bit cleared.
    pub open spec fn magnitude(self) -> int {
        if self.sign() {
            self.bits - SIGN_BIT
        } else {
            self.bits as int
        }
    }

    pub open spec fn is_nan(self) -> bool {
        self.magnitude() > INFINITY_BITS
    }

    pub open spec fn is_finite(self) -> bool {
        self.magnitude() < INFINITY_BITS
    }

    pub open spec fn is_zero(self) -> bool {
        self.magnitude() == 0
    }

    /// The place of a number on the real line: numbers that are not NaN
    /// compare as their ranks do. Both zeros have rank 0.
    pub open spec fn rank(self) -> int {
        if self.sign() {
            -self.magnitude()
        } else {
            self.magnitude()
        }
    }

    /// The place of a pattern in the IEEE 754 total order, in which negative
    /// zero precedes positive zero and NaNs sit at the two ends.
    pub open spec fn total_rank(self) -> int {
        if self.sign() {
            -self.magnitude() - 1
        } else {
            self.magnitude()
        }
    }

    /// `self < rhs` as IEEE 754 defines it: false whenever either is a NaN.
    pub open spec fn less(self, rhs: Scalar) -> bool {
        !self.is_nan() && !rhs.is_nan() && self.rank() < rhs.rank()
    }

    /// `self <= rhs` as IEEE 754 defines it: false whenever either is a NaN.
    pub open spec fn at_most(self, rhs: Scalar) -> bool {
        !self.is_nan() && !rhs.is_nan() && self.rank() <= rhs.rank()
    }

    /// `self == rhs` as IEEE 754 defines it: the zeros are equal to each
    /// other, and a NaN is equal to nothing.
    pub open spec fn same_value(self, rhs: Scalar) -> bool {
        !self.is_nan() && !rhs.is_nan() && self.rank() == rhs.rank()
    }

    /// Strictly greater than zero.
    pub open spec fn is_positive(self) -> bool {
        !self.is_nan() && self.rank() > 0
    }

    /// The number with the opposite sign bit.
    pub open spec fn negated(self) -> Scalar {
        if self.sign() {
            Scalar { bits: (self.bits - SIGN_BIT) as u64 }
        } else {
            Scalar { bits: (self.bits + SIGN_BIT) as u64 }
        }
    }

    /// The number with the sign bit cleared.
    pub open spec fn absolute(self) -> Scalar {
        Scalar { bits: self.magnitude() as u64 }
    }

    pub open spec fn plus(self, rhs: Scalar) -> Scalar {
        Scalar { bits: ieee_sum(self.bits, rhs.bits) }
    }

    /// Subtraction is the addition of the negated subtrahend.
    pub open spec fn minus(self, rhs: Scalar) -> Scalar {
        self.plus(rhs.negated())
    }

    /// The exact product of the two significands.
    pub open spec fn significand_product(self, rhs: Scalar) -> int {
        significand(self.magnitude()) * significand(rhs.magnitude())
    }

    /// By how many binary places the product of the significands lies
    /// above the unit 2^-1074: the product of the two numbers is
    /// `significand_product / 2^places_above` units.
    pub open spec fn places_above(self, rhs: Scalar) -> int {
        UNITS_PER_ONE - unit_exponent(self.magnitude()) - unit_exponent(rhs.magnitude())
    }

    /// Both numbers are finite and not zero, and their product is under
    /// 2^-1021: it rounds to a whole number of units of 2^-1074.
    pub open spec fn product_is_small(self, rhs: Scalar) -> bool {
        &&& 0 < self.magnitude() < INFINITY_BITS
        &&& 0 < rhs.magnitude() < INFINITY_BITS
        &&& self.places_above(rhs) > 0
        &&& self.significand_product(rhs) / (pow2(self.places_above(rhs) as nat) as int) < 2
            * MIN_NORMAL_BITS
    }

    /// The product of two numbers whose product is small: the exact
    /// product in units of 2^-1074, rounded to the nearest whole number and
    /// to the even one of two equally near, under the sign of the product.
    pub open spec fn small_product(self, rhs: Scalar) -> Scalar {
        let units = rounded_quotient(
            self.significand_product(rhs),
            pow2(self.places_above(rhs) as nat) as int,
        );
        if self.sign() != rhs.sign() {
            Scalar { bits: (SIGN_BIT + units) as u64 }
        } else {
            Scalar { bits: units as u64 }
        }
    }

    /// The product. A small one is rounded here; every other is what the
    /// outside crate computes.
    pub open spec fn times(self, rhs: Scalar) -> Scalar {
        if self.product_is_small(rhs) {
            self.small_product(rhs)
        } else {
            Scalar { bits: ieee_product(self.bits, rhs.bits) }
        }
    }

    pub open spec fn over(self, rhs: Scalar) -> Scalar {
        Scalar { bits: ieee_quotient(self.bits, rhs.bits) }
    }

    pub open spec fn is_positive_subnormal(self) -> bool {
        positive_subnormal_pattern(self.bits)
    }

    /// A positive subnormal number times 2^108, which is a normal number:
    /// the significand doubled until it is normal, under the exponent field
    /// that makes up for the doublings.
    pub open spec fn raised(self) -> Scalar {
        let k = doublings(self.bits as int);
        Scalar { bits: ((RAISE_EXPONENT - k) * MIN_NORMAL_BITS + self.bits * pow2(k)) as u64 }
    }

    /// The square root. That of a positive subnormal number is taken of
    /// the number raised by 2^108 and lowered by 2^-54, which is the same
    /// number, since both scalings are exact.
    pub open spec fn root(self) -> Scalar {
        if self.is_positive_subnormal() {
            (Scalar { bits: ieee_sqrt(self.raised().bits) }).times(
                Scalar { bits: LOWER_ROOT_BITS },
            )
        } else {
            Scalar { bits: ieee_sqrt(self.bits) }
        }
    }

    /// The larger of two numbers; where one is a NaN, the other.
    pub open spec fn larger(self, rhs: Scalar) -> Scalar {
        if self.is_nan() {
            rhs
        } else if rhs.is_nan() {
            self
        } else if self.rank() < rhs.rank() {
            rhs
        } else {
            self
        }
    }

    /// The smaller of two numbers; where one is a NaN, the other.
    pub open spec fn smaller(self, rhs: Scalar) -> Scalar {
        if self.is_nan() {
            rhs
        } else if rhs.is_nan() {
            self
        } else if rhs.rank() < self.rank() {
            rhs
        } else {
            self
        }
    }

    pub fn from_bits(bits: u64) -> (r: Scalar)
        ensures
            r.bits == bits,
    {
        Scalar { bits }
    }

    pub fn to_bits(self) -> (r: u64)
        ensures
            r == self.bits,
    {
        self.bits
    }

    pub fn zero() -> (r: Scalar)
        ensures
            r.bits == ZERO_BITS,
    {
        Scalar { bits: ZERO_BITS }
    }

    pub fn one() -> (r: Scalar)
        ensures
            r.bits == ONE_BITS,
    {
        Scalar { bits: ONE_BITS }
    }

    fn magnitude_bits(self) -> (r: u64)
        ensures
            r == self.magnitude(),
            r < SIGN_BIT,
    {
        if self.bits >= SIGN_BIT {
            self.bits - SIGN_BIT
        } else {
            self.bits
        }
    }

    fn rank_value(self) -> (r: i64)
        ensures
            r == self.rank(),
    {
        let m: u64 = self.magnitude_bits();
        if self.bits >= SIGN_BIT {
            -(m as i64)
        } else {
            m as i64
        }
    }

    pub fn nan(self) -> (r: bool)
        ensures
            r == self.is_nan(),
    {
        self.magnitude_bits() > INFINITY_BITS
    }

    pub fn finite(self) -> (r: bool)
        ensures
            r == self.is_finite(),
    {
        self.magnitude_bits() < INFINITY_BITS
    }

    /// The key by which the IEEE 754 total order sorts this pattern.
    pub fn total_key(self) -> (r: i64)
        ensures
            r == self.total_rank(),
    {
        let m: u64 = self.magnitude_bits();
        if self.bits >= SIGN_BIT {
            -(m as i64) - 1
        } else {
            m as i64
        }
    }

    pub fn lt(self, rhs: Scalar) -> (r: bool)
        ensures
            r == self.less(rhs),
    {
        !self.nan() && !rhs.nan() && self.rank_value() < rhs.rank_value()
    }

    pub fn le(self, rhs: Scalar) -> (r: bool)
        ensures
            r == self.at_most(rhs),
    {
        !self.nan() && !rhs.nan() && self.rank_value() <= rhs.rank_value()
    }

    pub fn equals(self, rhs: Scalar) -> (r: bool)
        ensures
            r == self.same_value(rhs),
    {
        !self.nan() && !rhs.nan() && self.rank_value() == rhs.rank_value()
    }

    pub fn gt(self, rhs: Scalar) -> (r: bool)
        ensures
            r == rhs.less(self),
    {
        rhs.lt(self)
    }

    pub fn positive(self) -> (r: bool)
        ensures
            r == self.is_positive(),
    {
        !self.nan() && self.rank_value() > 0
    }

    pub fn neg(self) -> (r: Scalar)
        ensures
            r == self.negated(),
    {
        if self.bits >= SIGN_BIT {
            Scalar { bits: self.bits - SIGN_BIT }
        } else {
            Scalar { bits: self.bits + SIGN_BIT }
        }
    }

    pub fn abs(self) -> (r: Scalar)
        ensures
            r == self.absolute(),
    {
        Scalar { bits: self.magnitude_bits() }
    }

    pub fn max(self, rhs: Scalar) -> (r: Scalar)
        ensures
            r == self.larger(rhs),
    {
        if self.nan() {
            rhs
        } else if rhs.nan() {
            self
        } else if self.rank_value() < rhs.rank_value() {
            rhs
        } else {
            self
        }
    }

    pub fn min(self, rhs: Scalar) -> (r: Scalar)
        ensures
            r == self.smaller(rhs),
    {
        if self.nan() {
            rhs
        } else if rhs.nan() {
            self
        } else if rhs.rank_value() < self.rank_value() {
            rhs
        } else {
            self
        }
    }

    pub fn add(self, rhs: Scalar) -> (r: Scalar)
        ensures
            r == self.plus(rhs),
            self.is_zero() && rhs.is_zero() ==> r.is_zero(),
            rhs.is_zero() && !self.is_nan() ==> r.same_value(self),
    {
        Scalar { bits: soft_add(self.bits, rhs.bits) }
    }

    pub fn sub(self, rhs: Scalar) -> (r: Scalar)
        ensures
            r == self.minus(rhs),
            self.is_zero() && rhs.is_zero() ==> r.is_zero(),
    {
        self.add(rhs.neg())
    }

    /// The product. Where it is under 2^-1021 it is rounded here, from the
    /// exact product of the significands: the outside crate rounds a
    /// product that comes out subnormal by more than the one sticky bit.
    pub fn mul(self, rhs: Scalar) -> (r: Scalar)
        ensures
            r == self.times(rhs),
            self.is_zero() && rhs.is_finite() ==> r.is_zero(),
            self.is_finite() && rhs.is_zero() ==> r.is_zero(),
    {
        let ma: u64 = self.magnitude_bits();
        let mb: u64 = rhs.magnitude_bits();
        if 0 < ma && ma < INFINITY_BITS && 0 < mb && mb < INFINITY_BITS {
            let ua: u64 = unit_exponent_of(ma);
            let ub: u64 = unit_exponent_of(mb);
            if ua + ub < UNITS_PER_ONE {
                let places: u64 = UNITS_PER_ONE - ua - ub;
                let sa: u128 = significand_of(ma) as u128;
                let sb: u128 = significand_of(mb) as u128;
                assert(sa * sb < 0x400_0000_0000_0000_0000_0000_0000) by (nonlinear_arith)
                    requires
                        sa < 0x20_0000_0000_0000,
                        sb < 0x20_0000_0000_0000,
                ;
                let product: u128 = sa * sb;
                let negative = (self.bits >= SIGN_BIT) != (rhs.bits >= SIGN_BIT);
                match round_to_units(product, places) {
                    Some(units) => {
                        return Scalar { bits: if negative { SIGN_BIT + units } else { units } };
                    },
                    None => {},
                }
            }
        }
        Scalar { bits: soft_mul(self.bits, rhs.bits) }
    }

    pub fn div(self, rhs: Scalar) -> (r: Scalar)
        ensures
            r == self.over(rhs),
            self.is_zero() && !rhs.is_zero() && !rhs.is_nan() ==> r.is_zero(),
    {
        Scalar { bits: soft_div(self.bits, rhs.bits) }
    }

    /// Multiplies a positive subnormal number by 2^108, by doubling its
    /// significand until it is that of a normal number.
    pub fn raise(self) -> (r: Scalar)
        requires
            self.is_positive_subnormal(),
        ensures
            r == self.raised(),
            MIN_NORMAL_BITS <= r.bits < INFINITY_BITS,
    {
        let mut m: u64 = self.bits;
        let mut k: u64 = 0;
        proof {
            lemma2_to64();
            lemma2_to64_rest();
            doublings_normalize(self.bits as int);
        }
        while m < MIN_NORMAL_BITS
            invariant
                0 < m < 2 * MIN_NORMAL_BITS,
                k <= 52,
                m == self.bits * pow2(k as nat),
                k + doublings(m as int) == doublings(self.bits as int),
                doublings(self.bits as int) <= 52,
            decreases 2 * MIN_NORMAL_BITS - m,
        {
            proof {
                lemma_pow2_unfold((k + 1) as nat);
                assert(self.bits * (2 * pow2(k as nat)) == 2 * (self.bits * pow2(k as nat)))
                    by (nonlinear_arith);
            }
            m = m * 2;
            k = k + 1;
        }
        Scalar { bits: (RAISE_EXPONENT - k) * MIN_NORMAL_BITS + m }
    }

    pub fn sqrt(self) -> (r: Scalar)
        ensures
            r == self.root(),
    {
        if 0 < self.bits && self.bits < MIN_NORMAL_BITS {
            let up = self.raise();
            let root = Scalar { bits: soft_sqrt(up.bits) };
            root.mul(Scalar::from_bits(LOWER_ROOT_BITS))
        } else {
            Scalar { bits: soft_sqrt(self.bits) }
        }
    }
}

/// The total order ranks two numbers as the comparison does, wherever the
/// comparison ranks them at all.
pub proof fn total_order_extends_less(a: Scalar, b: Scalar)
    requires
        a.less(b),
    ensures
        a.total_rank() < b.total_rank(),
{
}

/// The total order tells any two patterns apart: no two share a rank.
pub proof fn total_rank_is_injective(a: Scalar, b: Scalar)
    requires
        a.total_rank() == b.total_rank(),
    ensures
        a == b,
{
}

/// Of two numbers exactly one of "less", "same value" and "greater" holds.
pub proof fn comparison_is_a_trichotomy(a: Scalar, b: Scalar)
    requires
        !a.is_nan(),
        !b.is_nan(),
    ensures
        a.less(b) || a.same_value(b) || b.less(a),
        !(a.less(b) && a.same_value(b)),
        !(a.less(b) && b.less(a)),
        !(a.same_value(b) && b.less(a)),
        a.at_most(b) <==> a.less(b) || a.same_value(b),
{
}

/// Negating twice gives the pattern back, negation mirrors the rank, and
/// an absolute value is never below zero.
pub proof fn sign_laws(a: Scalar)
    ensures
        a.negated().negated() == a,
        a.negated().rank() == -a.rank(),
        a.negated().is_nan() == a.is_nan(),
        !a.absolute().sign(),
        a.absolute().rank() >= 0,
        a.absolute() == a.negated().absolute(),
{
}

/// The larger of two numbers is one of them and below neither; likewise
/// the smaller is one of them and above neither.
pub proof fn larger_and_smaller_bound(a: Scalar, b: Scalar)
    requires
        !a.is_nan(),
        !b.is_nan(),
    ensures
        a.larger(b) == a || a.larger(b) == b,
        a.at_most(a.larger(b)) && b.at_most(a.larger(b)),
        a.smaller(b) == a || a.smaller(b) == b,
        a.smaller(b).at_most(a) && a.smaller(b).at_most(b),
{
}

} // verus!
