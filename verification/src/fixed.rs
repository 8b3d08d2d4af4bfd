//! Decimal fixed-point numbers: an `i64` that counts millionths.
//!
//! Scores, strengths, weights, rewards and minutes are all held in this unit,
//! so that one is `SCALE` and 0.6 is `600_000`. Products and quotients round
//! towards negative infinity.

use vstd::prelude::*;
use vstd::arithmetic::div_mod::lemma_fundamental_div_mod;
use vstd::arithmetic::div_mod::lemma_fundamental_div_mod_converse;

verus! {

/// How many units make up the number one.
pub const SCALE: i64 = 1_000_000;

/// `x` limited to the closed interval from `lo` to `hi`.
pub open spec fn clamp(x: int, lo: int, hi: int) -> int {
    if x < lo {
        lo
    } else if x > hi {
        hi
    } else {
        x
    }
}

/// `x` limited to the interval from zero to one.
pub open spec fn unit(x: int) -> int {
    clamp(x, 0, SCALE as int)
}

/// `x` limited to what an `i64` holds.
pub open spec fn saturated(x: int) -> int {
    clamp(x, i64::MIN as int, i64::MAX as int)
}

/// The fixed-point product of two fixed-point numbers.
pub open spec fn product(a: int, b: int) -> int {
    (a * b) / (SCALE as int)
}

/// The fixed-point quotient of two counts; zero where the divisor is zero.
pub open spec fn ratio(num: int, den: int) -> int {
    if den > 0 {
        (num * SCALE) / den
    } else {
        0
    }
}

/// The quotient rounded towards negative infinity.
pub fn div_floor(a: i128, b: i128) -> (q: i128)
    requires
        b > 0,
        a > i128::MIN,
    ensures
        q == a / b,
{
    if a >= 0 {
        a / b
    } else {
        let n: i128 = -(a + 1);
        let q: i128 = n / b;
        proof {
            let r = (n as int) % (b as int);
            lemma_fundamental_div_mod(n as int, b as int);
            assert(a as int == (-(q as int) - 1) * (b as int) + ((b as int) - r - 1)) by (nonlinear_arith)
                requires
                    n as int == (b as int) * (q as int) + r,
                    n as int == -(a as int) - 1,
            ;
            lemma_fundamental_div_mod_converse(
                a as int,
                b as int,
                -(q as int) - 1,
                (b as int) - r - 1,
            );
        }
        -q - 1
    }
}

/// The fixed-point product of `a` and `b`.
pub fn times(a: i64, b: i64) -> (r: i128)
    ensures
        r == product(a as int, b as int),
        -0x800_0000_0000_0000_0000_0000_0000 <= r <= 0x800_0000_0000_0000_0000_0000_0000,
{
    let wide_a: i128 = a as i128;
    let wide_b: i128 = b as i128;
    assert(-0x4000_0000_0000_0000_0000_0000_0000_0000 <= (a as int) * (b as int)
        <= 0x4000_0000_0000_0000_0000_0000_0000_0000) by (nonlinear_arith)
        requires
            -0x8000_0000_0000_0000 <= (a as int) <= 0x7fff_ffff_ffff_ffff,
            -0x8000_0000_0000_0000 <= (b as int) <= 0x7fff_ffff_ffff_ffff,
    ;
    let p: i128 = wide_a * wide_b;
    let q = div_floor(p, 1_000_000);
    proof {
        lemma_quotient_bounds(
            p as int,
            1_000_000,
            -0x800_0000_0000_0000_0000_0000_0000,
            0x800_0000_0000_0000_0000_0000_0000,
        );
    }
    q
}

/// The fixed-point product of a wide number and a factor between zero and
/// one.
pub fn scale_by(x: i128, factor: i64) -> (r: i128)
    requires
        -0x1_0000_0000_0000_0000_0000 <= x <= 0x1_0000_0000_0000_0000_0000,
        0 <= factor <= SCALE,
    ensures
        r == product(x as int, factor as int),
        x >= 0 ==> 0 <= r <= x,
        x <= 0 ==> x <= r <= 0,
{
    let wide: i128 = factor as i128;
    assert(-0x1_0000_0000_0000_0000_0000 * 1_000_000 <= (x as int) * (wide as int)
        <= 0x1_0000_0000_0000_0000_0000 * 1_000_000) by (nonlinear_arith)
        requires
            -0x1_0000_0000_0000_0000_0000 <= (x as int) <= 0x1_0000_0000_0000_0000_0000,
            0 <= (wide as int) <= 1_000_000,
    ;
    proof {
        lemma_product_shrinks(x as int, factor as int);
    }
    div_floor(x * wide, 1_000_000)
}

/// Multiplying by a factor between zero and one moves a number no further
/// from zero, and never across it.
pub proof fn lemma_product_shrinks(x: int, factor: int)
    requires
        0 <= factor <= SCALE,
    ensures
        x >= 0 ==> 0 <= product(x, factor) <= x,
        x <= 0 ==> x <= product(x, factor) <= 0,
{
    let p = x * factor;
    lemma_fundamental_div_mod(p, SCALE as int);
    let q = p / (SCALE as int);
    let r = p % (SCALE as int);
    if x >= 0 {
        assert(0 <= p <= x * SCALE) by (nonlinear_arith)
            requires
                x >= 0,
                0 <= factor <= SCALE,
                p == x * factor,
        ;
        lemma_quotient_bounds(p, SCALE as int, 0, x);
    }
    if x <= 0 {
        assert(x * SCALE <= p <= 0) by (nonlinear_arith)
            requires
                x <= 0,
                0 <= factor <= SCALE,
                p == x * factor,
        ;
        lemma_quotient_bounds(p, SCALE as int, x, 0);
    }
}

/// A quotient by a positive divisor lies between `lo` and `hi` wherever the
/// dividend lies between their multiples by the divisor.
pub proof fn lemma_quotient_bounds(x: int, d: int, lo: int, hi: int)
    requires
        d > 0,
        lo * d <= x <= hi * d,
    ensures
        lo <= x / d <= hi,
{
    lemma_fundamental_div_mod(x, d);
    let q = x / d;
    let r = x % d;
    assert(0 <= r < d);
    if q > hi {
        assert(d * q >= d * (hi + 1)) by (nonlinear_arith)
            requires
                d >= 1,
                q >= hi + 1,
        ;
        assert(d * (hi + 1) == hi * d + d) by (nonlinear_arith);
    }
    if q < lo {
        assert(d * q <= d * (lo - 1)) by (nonlinear_arith)
            requires
                d >= 1,
                q <= lo - 1,
        ;
        assert(d * (lo - 1) == lo * d - d) by (nonlinear_arith);
    }
}

/// Limits a number to the interval from zero to one.
pub fn clamp_unit(x: i128) -> (r: i64)
    ensures
        r == unit(x as int),
        0 <= r <= SCALE,
{
    if x < 0 {
        0
    } else if x > 1_000_000 {
        SCALE
    } else {
        x as i64
    }
}

/// Limits a number to what an `i64` holds.
pub fn saturate(x: i128) -> (r: i64)
    ensures
        r == saturated(x as int),
{
    if x < -0x8000_0000_0000_0000 {
        i64::MIN
    } else if x > 0x7fff_ffff_ffff_ffff {
        i64::MAX
    } else {
        x as i64
    }
}

/// The fixed-point quotient of two counts, limited to the interval from zero
/// to one; zero where `den` is zero.
pub fn unit_ratio(num: u64, den: u64) -> (r: i64)
    ensures
        r == unit(ratio(num as int, den as int)),
        0 <= r <= SCALE,
{
    if den == 0 {
        0
    } else {
        let wide: i128 = num as i128;
        assert((wide as int) * 1_000_000 <= 0xffff_ffff_ffff_ffff * 1_000_000) by (nonlinear_arith)
            requires
                wide as int <= 0xffff_ffff_ffff_ffff,
        ;
        let scaled: i128 = wide * 1_000_000;
        let q = div_floor(scaled, den as i128);
        clamp_unit(q)
    }
}

/// The sum of two counts, up to the largest count that can be held.
pub open spec fn capped_sum(a: int, b: int) -> int {
    if a + b > usize::MAX {
        usize::MAX as int
    } else {
        a + b
    }
}

/// The sum of two counts, up to the largest count that can be held.
pub fn add_capped(a: usize, b: usize) -> (r: usize)
    ensures
        r == capped_sum(a as int, b as int),
{
    if a > usize::MAX - b {
        usize::MAX
    } else {
        a + b
    }
}

/// The fixed-point quotient of two fixed-point numbers or of two counts,
/// limited to what an `i64` holds.
pub open spec fn quotient(num: int, den: int) -> int {
    saturated((num * SCALE) / den)
}

/// The fixed-point quotient of `num` by `den`.
pub fn divide(num: i128, den: i128) -> (r: i64)
    requires
        den > 0,
        -0x1_0000_0000_0000_0000_0000 <= num <= 0x1_0000_0000_0000_0000_0000,
    ensures
        r == quotient(num as int, den as int),
{
    assert(-0x1_0000_0000_0000_0000_0000 * 1_000_000 <= (num as int) * 1_000_000
        <= 0x1_0000_0000_0000_0000_0000 * 1_000_000) by (nonlinear_arith)
        requires
            -0x1_0000_0000_0000_0000_0000 <= (num as int) <= 0x1_0000_0000_0000_0000_0000,
    ;
    saturate(div_floor(num * 1_000_000, den))
}

/// The whole part of a fixed-point number as a count: zero for what is
/// negative, and the largest count for what exceeds it.
pub open spec fn whole_count(x: int) -> int {
    if x <= 0 {
        0
    } else if x / (SCALE as int) > usize::MAX {
        usize::MAX as int
    } else {
        x / (SCALE as int)
    }
}

/// The whole part of `x` as a count.
pub fn to_count(x: i64) -> (r: usize)
    ensures
        r == whole_count(x as int),
{
    if x <= 0 {
        0
    } else {
        let whole: i64 = x / 1_000_000;
        if whole as u64 > usize::MAX as u64 {
            usize::MAX
        } else {
            whole as usize
        }
    }
}

/// The whole part of a fixed-point number, rounded towards zero.
pub open spec fn whole_part(x: int) -> int {
    if x >= 0 {
        x / (SCALE as int)
    } else {
        -((-x) / (SCALE as int))
    }
}

/// The whole part of `x`, rounded towards zero.
pub fn truncate(x: i64) -> (r: i64)
    ensures
        r == whole_part(x as int),
{
    if x >= 0 {
        x / 1_000_000
    } else {
        let magnitude: i128 = -(x as i128);
        (-(magnitude / 1_000_000)) as i64
    }
}

/// The mean of `a` with the weight `weight_a` and `b` with the weight
/// `weight_b`: `a` moved towards `b` by the share that `weight_b` has in both
/// weights; `a` where both weights are zero.
pub open spec fn blended(a: int, weight_a: int, b: int, weight_b: int) -> int {
    if weight_a + weight_b <= 0 {
        a
    } else {
        a + ((b - a) * weight_b) / (weight_a + weight_b)
    }
}

/// Rounding a negative quotient down is rounding its positive twin up.
pub proof fn lemma_floor_of_negative(m: int, t: int)
    requires
        m >= 0,
        t > 0,
    ensures
        (-m) / t == -((m + t - 1) / t),
{
    let q = (m + t - 1) / t;
    let r = (m + t - 1) % t;
    lemma_fundamental_div_mod(m + t - 1, t);
    assert(-m == (-q) * t + (t - 1 - r)) by (nonlinear_arith)
        requires
            m + t - 1 == t * q + r,
    ;
    lemma_fundamental_div_mod_converse(-m, t, -q, t - 1 - r);
}

/// A quotient rounded up stays within the bound of the exact quotient.
pub proof fn lemma_ceiling_bound(m: int, t: int, bound: int)
    requires
        t > 0,
        0 <= m <= bound * t,
    ensures
        0 <= (m + t - 1) / t <= bound,
{
    let x = m + t - 1;
    lemma_fundamental_div_mod(x, t);
    let q = x / t;
    let r = x % t;
    if q > bound {
        assert(t * q >= t * (bound + 1)) by (nonlinear_arith)
            requires
                t >= 1,
                q >= bound + 1,
        ;
        assert(t * (bound + 1) == bound * t + t) by (nonlinear_arith);
    }
    if q < 0 {
        assert(t * q <= -t) by (nonlinear_arith)
            requires
                t >= 1,
                q <= -1,
        ;
    }
}

/// The mean of `a` and `b` with the weights given.
pub fn blend(a: i64, weight_a: usize, b: i64, weight_b: usize) -> (r: i64)
    ensures
        r == blended(a as int, weight_a as int, b as int, weight_b as int),
{
    let total: u128 = (weight_a as u128) + (weight_b as u128);
    if total == 0 {
        return a;
    }
    let distance: i128 = (b as i128) - (a as i128);
    let weight: u128 = weight_b as u128;
    if distance >= 0 {
        let length: u128 = distance as u128;
        assert(0 <= (length as int) * (weight as int) <= (length as int) * (total as int)
            && (length as int) * (weight as int) <= 0xffff_ffff_ffff_ffff * 0xffff_ffff_ffff_ffff)
            by (nonlinear_arith)
            requires
                0 <= length as int <= 0xffff_ffff_ffff_ffff,
                0 <= weight as int <= total as int,
                weight as int <= 0xffff_ffff_ffff_ffff,
        ;
        let m: u128 = length * weight;
        proof {
            lemma_quotient_bounds(m as int, total as int, 0, length as int);
            assert((distance as int) * (weight_b as int) == m as int);
        }
        let step: u128 = m / total;
        ((a as i128) + (step as i128)) as i64
    } else {
        let length: u128 = (-distance) as u128;
        assert(0 <= (length as int) * (weight as int) <= (length as int) * (total as int)
            && (length as int) * (weight as int) <= 0xffff_ffff_ffff_ffff * 0xffff_ffff_ffff_ffff)
            by (nonlinear_arith)
            requires
                0 <= length as int <= 0xffff_ffff_ffff_ffff,
                0 <= weight as int <= total as int,
                weight as int <= 0xffff_ffff_ffff_ffff,
        ;
        let m: u128 = length * weight;
        proof {
            lemma_floor_of_negative(m as int, total as int);
            lemma_ceiling_bound(m as int, total as int, length as int);
            assert((distance as int) * (weight_b as int) == -(m as int)) by (nonlinear_arith)
                requires
                    distance as int == -(length as int),
                    m as int == (length as int) * (weight as int),
                    weight as int == weight_b as int,
            ;
        }
        let step: u128 = (m + total - 1) / total;
        ((a as i128) - (step as i128)) as i64
    }
}

/// A quotient of a count by a count that is no smaller is already within the
/// unit interval, so limiting it changes nothing.
pub proof fn lemma_ratio_of_part(num: int, den: int)
    requires
        0 <= num <= den,
    ensures
        unit(ratio(num, den)) == ratio(num, den),
        0 <= ratio(num, den) <= SCALE,
{
    if den > 0 {
        let x = num * SCALE;
        assert(0 <= x <= den * SCALE) by (nonlinear_arith)
            requires
                0 <= num <= den,
                x == num * SCALE,
        ;
        lemma_fundamental_div_mod(x, den);
        let q = x / den;
        let r = x % den;
        if q > SCALE {
            assert(den * q >= den * (SCALE + 1)) by (nonlinear_arith)
                requires
                    den > 0,
                    q >= SCALE + 1,
            ;
            assert(den * (SCALE + 1) == den * SCALE + den) by (nonlinear_arith);
        }
        if q < 0 {
            assert(den * q <= -den) by (nonlinear_arith)
                requires
                    den > 0,
                    q <= -1,
            ;
        }
    }
}

} // verus!
