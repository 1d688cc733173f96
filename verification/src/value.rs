//! What a bit pattern denotes.
//!
//! A finite double is an integer multiple of 2^-1074, the smallest positive
//! double. This module gives each pattern that integer, proves that the
//! comparisons of `Scalar` compare by it, and that the named constants
//! denote the numbers they are named for.
use crate::scalar::{
    doublings, doublings_normalize, rounded_quotient, significand, unit_exponent, Scalar, EPSILON_BITS, FOUR_BITS, HALF_BITS, LOWER_ROOT_BITS,
    MIN_NORMAL_BITS, ONE_BITS, RAISE_EXPONENT, TEN_BITS, THOUSAND_BITS, THREE_BITS,
    TICK_LENGTH_BITS, TOLERANCE_BITS, TWO_BITS, ZERO_BITS,
};
use vstd::arithmetic::div_mod::lemma_fundamental_div_mod_converse;
use vstd::arithmetic::power2::{
    lemma2_to64_rest, lemma_pow2_adds, lemma_pow2_pos, lemma_pow2_strictly_increases,
    lemma_pow2_unfold, pow2,
};
use vstd::prelude::*;

verus! {

/// The number of patterns that share one exponent: 2^52.
pub const FRACTION_RANGE: u64 = 0x10_0000_0000_0000;

/// The exponent of the unit in which `scaled` counts: a double equals its
/// scaled value times 2^-1074.
pub const UNIT_EXPONENT: u64 = 1074;

/// The number with magnitude pattern `m`, in units of 2^-1074.
///
/// The pattern holds an exponent field `e` above a fraction field `f` of 52
/// bits. With `e` zero the number is subnormal and equals `f` units; else
/// it is `(2^52 + f) 2^(e - 1)` units. The pattern of infinity, which has
/// the largest exponent field and no fraction, thereby counts as 2^1024.
pub open spec fn scaled(m: int) -> int {
    let e = m / (FRACTION_RANGE as int);
    let f = m % (FRACTION_RANGE as int);
    if e == 0 {
        f
    } else {
        (FRACTION_RANGE + f) * pow2((e - 1) as nat)
    }
}

impl Scalar {
    /// The number that the pattern denotes, in units of 2^-1074. It is
    /// meant for patterns that are not NaN.
    pub open spec fn scaled_value(self) -> int {
        if self.sign() {
            -scaled(self.magnitude())
        } else {
            scaled(self.magnitude())
        }
    }
}

/// A number with exponent field `e` lies below `2^52 2^e` units.
proof fn scaled_is_below_the_next_binade(m: int)
    requires
        0 <= m,
    ensures
        0 <= scaled(m) < FRACTION_RANGE * pow2((m / (FRACTION_RANGE as int)) as nat),
{
    let e = m / (FRACTION_RANGE as int);
    let f = m % (FRACTION_RANGE as int);
    lemma_pow2_pos(e as nat);
    if e == 0 {
        assert(pow2(0) == 1) by {
            vstd::arithmetic::power2::lemma2_to64();
        }
    } else {
        let half = pow2((e - 1) as nat);
        lemma_pow2_pos((e - 1) as nat);
        lemma_pow2_unfold(e as nat);
        assert((FRACTION_RANGE + f) * half < FRACTION_RANGE * (2 * half)) by (nonlinear_arith)
            requires
                0 <= f < FRACTION_RANGE,
                half > 0,
        ;
        assert(0 <= (FRACTION_RANGE + f) * half) by (nonlinear_arith)
            requires
                0 <= f,
                half > 0,
        ;
    }
}

/// A normal number with exponent field `e` is at least `2^52 2^(e - 1)`
/// units.
proof fn scaled_is_within_its_binade(m: int)
    requires
        m >= FRACTION_RANGE,
    ensures
        scaled(m) >= FRACTION_RANGE * pow2((m / (FRACTION_RANGE as int) - 1) as nat),
{
    let e = m / (FRACTION_RANGE as int);
    let f = m % (FRACTION_RANGE as int);
    let half = pow2((e - 1) as nat);
    lemma_pow2_pos((e - 1) as nat);
    assert((FRACTION_RANGE + f) * half >= FRACTION_RANGE * half) by (nonlinear_arith)
        requires
            0 <= f,
            half > 0,
    ;
}

/// A larger magnitude pattern denotes a larger magnitude.
pub proof fn scaled_is_monotone(m1: int, m2: int)
    requires
        0 <= m1 < m2,
    ensures
        0 <= scaled(m1) < scaled(m2),
{
    let e1 = m1 / (FRACTION_RANGE as int);
    let f1 = m1 % (FRACTION_RANGE as int);
    let e2 = m2 / (FRACTION_RANGE as int);
    let f2 = m2 % (FRACTION_RANGE as int);
    scaled_is_below_the_next_binade(m1);
    if e1 == e2 {
        if e1 != 0 {
            let half = pow2((e1 - 1) as nat);
            lemma_pow2_pos((e1 - 1) as nat);
            assert((FRACTION_RANGE + f1) * half < (FRACTION_RANGE + f2) * half)
                by (nonlinear_arith)
                requires
                    f1 < f2,
                    half > 0,
            ;
        }
    } else {
        scaled_is_within_its_binade(m2);
        let low = pow2(e1 as nat);
        let high = pow2((e2 - 1) as nat);
        if e1 < e2 - 1 {
            lemma_pow2_strictly_increases(e1 as nat, (e2 - 1) as nat);
        }
        assert(FRACTION_RANGE * low <= FRACTION_RANGE * high) by (nonlinear_arith)
            requires
                low <= high,
        ;
    }
}

/// The comparisons compare by value: of two patterns that are not NaN, one
/// is less than the other exactly when it denotes the smaller number, and
/// they have the same value exactly when they denote the same number.
pub proof fn comparison_is_by_value(a: Scalar, b: Scalar)
    requires
        !a.is_nan(),
        !b.is_nan(),
    ensures
        a.less(b) <==> a.scaled_value() < b.scaled_value(),
        a.at_most(b) <==> a.scaled_value() <= b.scaled_value(),
        a.same_value(b) <==> a.scaled_value() == b.scaled_value(),
{
    let ma = a.magnitude();
    let mb = b.magnitude();
    if ma < mb {
        scaled_is_monotone(ma, mb);
    } else if mb < ma {
        scaled_is_monotone(mb, ma);
    }
    if ma > 0 {
        scaled_is_monotone(0, ma);
    }
    if mb > 0 {
        scaled_is_monotone(0, mb);
    }
}

/// A number is positive exactly when it denotes more than nothing.
pub proof fn positive_is_by_value(a: Scalar)
    requires
        !a.is_nan(),
    ensures
        a.is_positive() <==> a.scaled_value() > 0,
        a.is_zero() <==> a.scaled_value() == 0,
{
    if a.magnitude() > 0 {
        scaled_is_monotone(0, a.magnitude());
    }
}

/// A significand of `k 2^(52 - s)` at exponent field `e` makes
/// `k 2^(e - 1023 - s)` times one: the arithmetic behind the value of a
/// constant.
pub proof fn units_of(k: int, s: nat, e: nat)
    requires
        s <= 52,
        1 <= e,
        e - 1 + 52 >= UNIT_EXPONENT + s,
    ensures
        (k * pow2((52 - s) as nat)) * pow2((e - 1) as nat) == k * pow2(
            (e - 1 + 52 - s - UNIT_EXPONENT) as nat,
        ) * pow2(UNIT_EXPONENT as nat),
{
    let shift = (e - 1 + 52 - s - UNIT_EXPONENT) as nat;
    lemma_pow2_adds((52 - s) as nat, (e - 1) as nat);
    lemma_pow2_adds(shift, UNIT_EXPONENT as nat);
    assert((52 - s) as nat + (e - 1) as nat == shift + UNIT_EXPONENT as nat);
    let a = pow2((52 - s) as nat);
    let b = pow2((e - 1) as nat);
    let c = pow2(shift);
    let d = pow2(UNIT_EXPONENT as nat);
    assert((k * a) * b == (k * c) * d) by (nonlinear_arith)
        requires
            a * b == c * d,
    ;
}

/// The named constants denote zero, a half, one, two, three, four, ten and
/// a thousand.
pub proof fn constants_denote_their_names()
    ensures
        (Scalar { bits: ZERO_BITS }).scaled_value() == 0,
        2 * (Scalar { bits: HALF_BITS }).scaled_value() == pow2(UNIT_EXPONENT as nat),
        (Scalar { bits: ONE_BITS }).scaled_value() == pow2(UNIT_EXPONENT as nat),
        (Scalar { bits: TWO_BITS }).scaled_value() == 2 * pow2(UNIT_EXPONENT as nat),
        (Scalar { bits: THREE_BITS }).scaled_value() == 3 * pow2(UNIT_EXPONENT as nat),
        (Scalar { bits: FOUR_BITS }).scaled_value() == 4 * pow2(UNIT_EXPONENT as nat),
        (Scalar { bits: TEN_BITS }).scaled_value() == 10 * pow2(UNIT_EXPONENT as nat),
        (Scalar { bits: THOUSAND_BITS }).scaled_value() == 1000 * pow2(UNIT_EXPONENT as nat),
{
    vstd::arithmetic::power2::lemma2_to64();
    lemma2_to64_rest();
    let unit = pow2(UNIT_EXPONENT as nat);
    // one half = 2^52 at exponent field 1022, and twice 2^1073 is the unit
    assert(scaled(HALF_BITS as int) == pow2(52) * pow2(1021));
    lemma_pow2_adds(52, 1021);
    lemma_pow2_unfold(UNIT_EXPONENT as nat);
    // one = 2^52 at exponent field 1023
    units_of(1, 0, 1023);
    assert(scaled(ONE_BITS as int) == (1 * pow2(52)) * pow2(1022));
    assert(1 * pow2(0) * unit == unit) by (nonlinear_arith)
        requires
            pow2(0) == 1,
    ;
    // two = 2^52 at exponent field 1024
    units_of(1, 0, 1024);
    assert(scaled(TWO_BITS as int) == (1 * pow2(52)) * pow2(1023));
    // three = 3 * 2^51 at exponent field 1024
    units_of(3, 1, 1024);
    assert(scaled(THREE_BITS as int) == (3 * pow2(51)) * pow2(1023));
    // four = 2^52 at exponent field 1025
    units_of(1, 0, 1025);
    assert(scaled(FOUR_BITS as int) == (1 * pow2(52)) * pow2(1024));
    // ten = 5 * 2^50 at exponent field 1026
    units_of(5, 2, 1026);
    assert(scaled(TEN_BITS as int) == (5 * pow2(50)) * pow2(1025));
    // a thousand = 125 * 2^46 at exponent field 1032
    units_of(125, 6, 1032);
    assert(scaled(THOUSAND_BITS as int) == (125 * pow2(46)) * pow2(1031));
}

/// Raising a positive subnormal number is exact: the raised pattern is that
/// of a positive normal number, and denotes 2^108 times what the pattern
/// denotes.
pub proof fn raised_is_exact(x: Scalar)
    requires
        x.is_positive_subnormal(),
    ensures
        MIN_NORMAL_BITS <= x.raised().bits,
        !x.raised().sign(),
        x.raised().is_finite(),
        x.raised().scaled_value() == x.scaled_value() * pow2(RAISE_EXPONENT as nat),
{
    let f = x.bits as int;
    let k = doublings(f);
    doublings_normalize(f);
    let m = f * pow2(k);
    let p = (RAISE_EXPONENT - k) * MIN_NORMAL_BITS + m;
    assert(x.raised().bits == p);
    assert(p / (FRACTION_RANGE as int) == RAISE_EXPONENT - k + 1);
    assert(p % (FRACTION_RANGE as int) == m - FRACTION_RANGE);
    let up = pow2((RAISE_EXPONENT - k) as nat);
    assert(scaled(p) == m * up);
    lemma_pow2_adds(k, (RAISE_EXPONENT - k) as nat);
    assert((f * pow2(k)) * up == f * (pow2(k) * up)) by (nonlinear_arith);
    assert(scaled(f) == f);
}

/// The number by which a raised root is lowered denotes 2^-54, the inverse
/// of the root of 2^108.
pub proof fn lowering_undoes_raising()
    ensures
        (Scalar { bits: LOWER_ROOT_BITS }).scaled_value() * pow2(54) == pow2(UNIT_EXPONENT as nat),
        pow2(54) * pow2(54) == pow2(RAISE_EXPONENT as nat),
{
    lemma2_to64_rest();
    assert(scaled(LOWER_ROOT_BITS as int) == pow2(52) * pow2(968));
    lemma_pow2_adds(52, 968);
    lemma_pow2_adds(1020, 54);
    lemma_pow2_adds(54, 54);
}

/// A number is its significand times two to its unit exponent.
pub proof fn scaled_is_significand_times_unit(m: int)
    requires
        0 <= m,
    ensures
        scaled(m) == significand(m) * pow2(unit_exponent(m) as nat),
        0 <= significand(m) < 2 * FRACTION_RANGE,
        0 <= unit_exponent(m),
{
    vstd::arithmetic::power2::lemma2_to64();
    if m / (FRACTION_RANGE as int) == 0 {
        let f = significand(m);
        assert(f * pow2(0) == f) by (nonlinear_arith)
            requires
                pow2(0) == 1,
        ;
    }
}

/// A magnitude pattern of at most 2^53 denotes as many units of 2^-1074
/// as the pattern is, read as a number: the subnormal numbers and the two
/// lowest binades of the normal ones are spaced one unit apart.
pub proof fn low_patterns_count_units(m: int)
    requires
        0 <= m <= 2 * FRACTION_RANGE,
    ensures
        scaled(m) == m,
{
    vstd::arithmetic::power2::lemma2_to64();
    let e = m / (FRACTION_RANGE as int);
    let f = m % (FRACTION_RANGE as int);
    if e == 1 {
        assert((FRACTION_RANGE + f) * pow2(0) == FRACTION_RANGE + f) by (nonlinear_arith)
            requires
                pow2(0) == 1,
        ;
    } else if e == 2 {
        assert(f == 0);
        assert((FRACTION_RANGE + f) * pow2(1) == 2 * FRACTION_RANGE) by (nonlinear_arith)
            requires
                pow2(1) == 2,
                f == 0,
        ;
    }
}

/// Rounding a quotient is the same with numerator and denominator
/// multiplied by one positive number.
pub proof fn rounded_quotient_ignores_a_common_factor(n: int, d: int, c: int)
    requires
        0 <= n,
        0 < d,
        0 < c,
    ensures
        rounded_quotient(n * c, d * c) == rounded_quotient(n, d),
{
    let q = n / d;
    let r = n % d;
    vstd::arithmetic::div_mod::lemma_fundamental_div_mod(n, d);
    assert(0 <= r < d);
    assert(n * c == q * (d * c) + r * c) by (nonlinear_arith)
        requires
            n == d * q + r,
    ;
    assert(0 <= r * c < d * c) by (nonlinear_arith)
        requires
            0 <= r < d,
            0 < c,
    ;
    assert(d * c > 0) by (nonlinear_arith)
        requires
            d > 0,
            c > 0,
    ;
    lemma_fundamental_div_mod_converse(n * c, d * c, q, r * c);
    assert(2 * (r * c) > d * c <==> 2 * r > d) by (nonlinear_arith)
        requires
            0 < c,
    ;
    assert(2 * (r * c) == d * c <==> 2 * r == d) by (nonlinear_arith)
        requires
            0 < c,
    ;
}

/// A small product is the correctly rounded one: it has the sign of the
/// product, and counts as many units of 2^-1074 as the exact product of
/// the two numbers, rounded to the nearest whole number and to the even
/// one of two equally near.
pub proof fn small_product_is_correctly_rounded(a: Scalar, b: Scalar)
    requires
        a.product_is_small(b),
    ensures
        a.times(b).sign() == (a.sign() != b.sign()),
        a.times(b).magnitude() == rounded_quotient(
            scaled(a.magnitude()) * scaled(b.magnitude()),
            pow2(UNIT_EXPONENT as nat) as int,
        ),
        scaled(a.times(b).magnitude()) == a.times(b).magnitude(),
        a.times(b).is_finite(),
{
    vstd::arithmetic::power2::lemma2_to64();
    lemma2_to64_rest();
    let ma = a.magnitude();
    let mb = b.magnitude();
    let sa = significand(ma);
    let sb = significand(mb);
    let ua = unit_exponent(ma) as nat;
    let ub = unit_exponent(mb) as nat;
    let places = a.places_above(b) as nat;
    let d = pow2(places) as int;
    let c = pow2(ua + ub) as int;
    let product = sa * sb;
    scaled_is_significand_times_unit(ma);
    scaled_is_significand_times_unit(mb);
    lemma_pow2_adds(ua, ub);
    lemma_pow2_adds(places, ua + ub);
    lemma_pow2_pos(places);
    lemma_pow2_pos(ua + ub);
    assert(places + (ua + ub) == UNIT_EXPONENT as nat);
    assert(product >= 0) by (nonlinear_arith)
        requires
            product == sa * sb,
            sa >= 0,
            sb >= 0,
    ;
    assert((sa * pow2(ua)) * (sb * pow2(ub)) == (sa * sb) * (pow2(ua) * pow2(ub)))
        by (nonlinear_arith);
    rounded_quotient_ignores_a_common_factor(product, d, c);
    let units = rounded_quotient(product, d);
    assert(0 <= product / d) by (nonlinear_arith)
        requires
            product >= 0,
            d > 0,
    ;
    assert(0 <= units <= 2 * FRACTION_RANGE);
    assert(a.times(b) == a.small_product(b));
    assert(a.times(b).magnitude() == units);
    low_patterns_count_units(units);
}

/// The distance between a double of magnitude pattern `m` and the next, in
/// units of 2^-1074.
pub open spec fn spacing(m: int) -> int {
    let e = m / (FRACTION_RANGE as int);
    if e == 0 {
        1
    } else {
        pow2((e - 1) as nat) as int
    }
}

/// The pattern denotes one of the doubles nearest to `1 / d`: it is
/// positive, and `d` times its value is off from one by at most `d` times
/// half the spacing of the doubles around it.
pub open spec fn nearest_to_reciprocal(x: Scalar, d: int) -> bool {
    let off = d * x.scaled_value() - pow2(UNIT_EXPONENT as nat);
    &&& !x.sign()
    &&& -d * spacing(x.magnitude()) <= 2 * off <= d * spacing(x.magnitude())
}

/// A significand `mant` at exponent field `e`, where `2^s` significands
/// make up one, is nearest to `1 / d` if `d mant` is within `d / 2` of
/// `2^s`.
proof fn reciprocal_by_significand(mant: int, e: nat, d: int, s: nat)
    requires
        1 <= e,
        e - 1 + s == UNIT_EXPONENT,
        -d <= 2 * (d * mant - pow2(s)) <= d,
    ensures
        -d * pow2((e - 1) as nat) <= 2 * (d * (mant * pow2((e - 1) as nat)) - pow2(
            UNIT_EXPONENT as nat,
        )) <= d * pow2((e - 1) as nat),
{
    let u = pow2((e - 1) as nat);
    let one = pow2(s);
    lemma_pow2_pos((e - 1) as nat);
    lemma_pow2_adds(s, (e - 1) as nat);
    assert(s + (e - 1) as nat == UNIT_EXPONENT as nat);
    assert(-d * u <= 2 * (d * (mant * u) - one * u) <= d * u) by (nonlinear_arith)
        requires
            -d <= 2 * (d * mant - one) <= d,
            u > 0,
    ;
}

/// The threshold of degeneracy is the double nearest to a millionth, the
/// tolerance of the refinement the one nearest to a ten-thousandth, and the
/// tick length the one nearest to a sixtieth.
pub proof fn small_constants_are_nearest()
    ensures
        nearest_to_reciprocal(Scalar { bits: EPSILON_BITS }, 1_000_000),
        nearest_to_reciprocal(Scalar { bits: TOLERANCE_BITS }, 10_000),
        nearest_to_reciprocal(Scalar { bits: TICK_LENGTH_BITS }, 60),
{
    vstd::arithmetic::power2::lemma2_to64();
    lemma2_to64_rest();
    lemma_pow2_adds(64, 8);
    lemma_pow2_adds(64, 2);
    assert(pow2(72) == 0x1_0000_0000_0000_0000 * 0x100);
    assert(pow2(66) == 0x1_0000_0000_0000_0000 * 4);
    // a millionth: significand 0x10c6f7a0b5ed8d at exponent field 1003
    assert(EPSILON_BITS as int / (FRACTION_RANGE as int) == 1003);
    assert(FRACTION_RANGE + EPSILON_BITS as int % (FRACTION_RANGE as int) == 0x10_c6f7_a0b5_ed8d);
    reciprocal_by_significand(0x10_c6f7_a0b5_ed8d, 1003, 1_000_000, 72);
    // a ten-thousandth: significand 0x1a36e2eb1c432d at exponent field 1009
    assert(TOLERANCE_BITS as int / (FRACTION_RANGE as int) == 1009);
    assert(FRACTION_RANGE + TOLERANCE_BITS as int % (FRACTION_RANGE as int)
        == 0x1a_36e2_eb1c_432d);
    reciprocal_by_significand(0x1a_36e2_eb1c_432d, 1009, 10_000, 66);
    // a sixtieth: significand 0x11111111111111 at exponent field 1017
    assert(TICK_LENGTH_BITS as int / (FRACTION_RANGE as int) == 1017);
    assert(FRACTION_RANGE + TICK_LENGTH_BITS as int % (FRACTION_RANGE as int)
        == 0x11_1111_1111_1111);
    reciprocal_by_significand(0x11_1111_1111_1111, 1017, 60, 58);
}

} // verus!
