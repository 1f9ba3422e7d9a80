//! Exact integer arithmetic on quantities stored as counts of billionths.
//!
//! Every physical quantity of this library is an `i64` number of billionths
//! of its unit.  Sums and differences are exact; a product or a quotient of
//! two stored values is rounded once, to the nearest billionth, ties away
//! from zero.  Each operation reports `None` when the rounded result leaves
//! the `i64` range, so no operation wraps or saturates.
use vstd::prelude::*;

verus! {

/// Stored units per whole: `1.0` is kept as `NANO`, and two inputs count as
/// equal exactly when they agree to nine decimal places.
pub const NANO: i64 = 1_000_000_000;

/// `x` can be stored.
pub open spec fn fits(x: int) -> bool {
    i64::MIN <= x <= i64::MAX
}

/// `x` can be held as a wide intermediate.
pub open spec fn fits_wide(x: int) -> bool {
    i128::MIN <= x <= i128::MAX
}

/// `x` as a stored value, where it can be stored.
pub open spec fn narrowed(x: int) -> Option<i64> {
    if fits(x) {
        Some(x as i64)
    } else {
        None
    }
}

/// `p / d` rounded to the nearest integer, ties away from zero (`d > 0`).
pub open spec fn round_div(p: int, d: int) -> int
    recommends
        d > 0,
{
    if p >= 0 {
        (p + d / 2) / d
    } else {
        -((-p + d / 2) / d)
    }
}

/// The product of two stored values, in stored units.
pub open spec fn scaled_product(a: int, b: int) -> int {
    round_div(a * b, NANO as int)
}

/// The quotient of two stored values, in stored units (`b != 0`).
pub open spec fn scaled_quotient(a: int, b: int) -> int
    recommends
        b != 0,
{
    if b > 0 {
        round_div(a * NANO, b)
    } else {
        round_div(-(a * NANO), -b)
    }
}

/// `r` is the integer square root of `n`, rounded down.
pub open spec fn is_floor_root(r: int, n: int) -> bool {
    0 <= r && r * r <= n < (r + 1) * (r + 1)
}

/// The integer square root of `n >= 0`, rounded down.
pub open spec fn floor_root(n: int) -> int {
    choose|r: int| is_floor_root(r, n)
}

/// The square root of a stored value `a >= 0`, in stored units, rounded down.
pub open spec fn scaled_root(a: int) -> int {
    floor_root(a * NANO)
}

/// Rounding is odd: negating the dividend negates the rounded quotient.
pub proof fn lemma_round_div_odd(p: int, d: int)
    requires
        d > 0,
    ensures
        round_div(-p, d) == -round_div(p, d),
{
    if p == 0 {
        assert(round_div(0, d) == 0) by {
            assert(d / 2 < d);
            vstd::arithmetic::div_mod::lemma_basic_div(d / 2, d);
        }
    }
}

/// Dividing an exact multiple of the divisor gives the multiplier back.
pub proof fn lemma_round_div_exact(x: int, d: int)
    requires
        d > 0,
    ensures
        round_div(x * d, d) == x,
{
    if x >= 0 {
        vstd::arithmetic::div_mod::lemma_fundamental_div_mod_converse(x * d + d / 2, d, x, d / 2);
    } else {
        assert(x * d < 0) by (nonlinear_arith)
            requires
                x < 0,
                d > 0,
        ;
        assert(-(x * d) == (-x) * d) by (nonlinear_arith);
        vstd::arithmetic::div_mod::lemma_fundamental_div_mod_converse(
            (-x) * d + d / 2,
            d,
            -x,
            d / 2,
        );
    }
}

/// `x` taken into the range from `low` to `high`.
pub open spec fn clamped(x: int, low: int, high: int) -> int {
    if x < low {
        low
    } else if x > high {
        high
    } else {
        x
    }
}

/// `x` taken into `[0, 1]`: where a reading of an exponential belongs.
pub open spec fn unit(x: int) -> int {
    clamped(x, 0, NANO as int)
}

/// `x` taken into `[-1, 1]`: where a reading of a sine or cosine belongs.
pub open spec fn signed_unit(x: int) -> int {
    clamped(x, -(NANO as int), NANO as int)
}

/// The magnitude of `x`.
pub open spec fn magnitude(x: int) -> int {
    if x < 0 {
        -x
    } else {
        x
    }
}

/// Rounding errs by at most half a unit: twice the distance between the
/// rounded quotient times the divisor and the dividend is at most the
/// divisor.
pub proof fn lemma_round_div_error(p: int, d: int)
    requires
        d > 0,
    ensures
        -d <= 2 * (round_div(p, d) * d - p) <= d,
{
    let m = magnitude(p);
    let q = (m + d / 2) / d;
    vstd::arithmetic::div_mod::lemma_fundamental_div_mod(m + d / 2, d);
    vstd::arithmetic::div_mod::lemma_mod_bound(m + d / 2, d);
    assert(d * q == q * d) by (nonlinear_arith);
    if p < 0 {
        assert((-q) * d == -(q * d)) by (nonlinear_arith);
    }
}

/// A rounded quotient is within `bound` where the dividend is within
/// `bound` times the divisor.
pub proof fn lemma_round_div_within(p: int, d: int, bound: int)
    requires
        d > 0,
        bound >= 0,
        -(bound * d) <= p <= bound * d,
    ensures
        -bound <= round_div(p, d) <= bound,
{
    let m = magnitude(p);
    assert(0 <= d / 2 < d);
    vstd::arithmetic::div_mod::lemma_fundamental_div_mod_converse(
        bound * d + d / 2,
        d,
        bound,
        d / 2,
    );
    vstd::arithmetic::div_mod::lemma_div_is_ordered(m + d / 2, bound * d + d / 2, d);
    vstd::arithmetic::div_mod::lemma_div_pos_is_pos(m + d / 2, d);
}

/// A rounded quotient has the sign of its dividend.
pub proof fn lemma_round_div_sign(p: int, d: int)
    requires
        d > 0,
    ensures
        p >= 0 ==> round_div(p, d) >= 0,
        p <= 0 ==> round_div(p, d) <= 0,
{
    let m = magnitude(p);
    assert(0 <= d / 2 < d);
    vstd::arithmetic::div_mod::lemma_div_pos_is_pos(m + d / 2, d);
    if p == 0 {
        vstd::arithmetic::div_mod::lemma_basic_div(d / 2, d);
    }
}

/// A stored value times a factor between 0 and `k` lies between 0 and
/// `k` times the value.
pub proof fn lemma_scaled_between(a: int, m: int, k: int)
    requires
        k >= 0,
        0 <= m <= k * NANO,
    ensures
        a >= 0 ==> 0 <= scaled_product(a, m) <= k * a,
        a <= 0 ==> k * a <= scaled_product(a, m) <= 0,
{
    let b = magnitude(a);
    assert(-(k * b * NANO) <= a * m <= k * b * NANO && (a >= 0 ==> a * m >= 0) && (a <= 0 ==> a * m
        <= 0)) by (nonlinear_arith)
        requires
            b == magnitude(a),
            k >= 0,
            0 <= m <= k * NANO,
    ;
    assert(k * b >= 0) by (nonlinear_arith)
        requires
            k >= 0,
            b >= 0,
    ;
    assert((k * b) * NANO == k * b * NANO) by (nonlinear_arith);
    lemma_round_div_within(a * m, NANO as int, k * b);
    lemma_round_div_sign(a * m, NANO as int);
    assert((a >= 0 ==> k * b == k * a) && (a <= 0 ==> k * b == -(k * a))) by (nonlinear_arith)
        requires
            k >= 0,
            b == magnitude(a),
    ;
}

/// A stored value times a factor between -1 and 1 is no larger than the
/// value.
pub proof fn lemma_scaled_within(a: int, m: int)
    requires
        -NANO <= m <= NANO,
    ensures
        -magnitude(a) <= scaled_product(a, m) <= magnitude(a),
{
    let b = magnitude(a);
    assert(-(b * NANO) <= a * m <= b * NANO) by (nonlinear_arith)
        requires
            b == magnitude(a),
            -NANO <= m <= NANO,
    ;
    lemma_round_div_within(a * m, NANO as int, b);
}

/// Every `n >= 0` has an integer square root, and `floor_root` is it.
pub proof fn lemma_floor_root(n: int)
    requires
        n >= 0,
    ensures
        is_floor_root(floor_root(n), n),
    decreases n,
{
    if n == 0 {
        assert(is_floor_root(0, 0));
    } else {
        lemma_floor_root(n - 1);
        let r = floor_root(n - 1);
        if n < (r + 1) * (r + 1) {
            assert(is_floor_root(r, n));
        } else {
            assert((r + 2) * (r + 2) > (r + 1) * (r + 1)) by (nonlinear_arith)
                requires
                    r >= 0,
            ;
            assert(is_floor_root(r + 1, n));
        }
    }
}

/// The integer square root is unique.
pub proof fn lemma_floor_root_unique(r: int, n: int)
    requires
        is_floor_root(r, n),
    ensures
        floor_root(n) == r,
{
    let c = floor_root(n);
    if c < r {
        assert((c + 1) * (c + 1) <= r * r) by (nonlinear_arith)
            requires
                0 <= c,
                c + 1 <= r,
        ;
    } else if r < c {
        assert((r + 1) * (r + 1) <= c * c) by (nonlinear_arith)
            requires
                0 <= r,
                r + 1 <= c,
        ;
    }
}

/// Narrows a wide intermediate to a stored value.
pub fn narrow(x: i128) -> (r: Option<i64>)
    ensures
        r == narrowed(x as int),
{
    if x < -0x8000_0000_0000_0000 || x > 0x7fff_ffff_ffff_ffff {
        None
    } else {
        Some(x as i64)
    }
}

/// `p / d`, rounded to the nearest integer, ties away from zero.
pub fn rounded_quotient(p: i128, d: i128) -> (q: i128)
    requires
        0 < d <= 0x1_0000_0000_0000_0000,
        -0x7000_0000_0000_0000_0000_0000_0000_0000 <= p,
        p <= 0x7000_0000_0000_0000_0000_0000_0000_0000,
    ensures
        q == round_div(p as int, d as int),
{
    if p >= 0 {
        (p + d / 2) / d
    } else {
        -((-p + d / 2) / d)
    }
}

/// A wide intermediate in units of a billionth of a billionth, rounded to
/// stored units, where the result can be stored.
pub fn rounded_output(total: i128) -> (r: Option<i64>)
    ensures
        r == narrowed(round_div(total as int, NANO as int)),
{
    if total > 0x7000_0000_0000_0000_0000_0000_0000_0000 || total
        < -0x7000_0000_0000_0000_0000_0000_0000_0000 {
        None
    } else {
        narrow(rounded_quotient(total, NANO as i128))
    }
}

/// `x` taken into the range from `low` to `high`.
pub fn clamp(x: i128, low: i64, high: i64) -> (r: i64)
    requires
        low <= high,
    ensures
        r == clamped(x as int, low as int, high as int),
{
    if x < low as i128 {
        low
    } else if x > high as i128 {
        high
    } else {
        x as i64
    }
}

/// `a * b / d`, rounded once.
pub fn rounded_product(a: i64, b: i64, d: i64) -> (r: i128)
    requires
        d > 0,
    ensures
        r == round_div(a * b, d as int),
        -0x4000_0000_0000_0000_0000_0000_0000_0000 <= r
            <= 0x4000_0000_0000_0000_0000_0000_0000_0000,
{
    let product = wide_product(a, b);
    proof {
        let bound = 0x4000_0000_0000_0000_0000_0000_0000_0000int;
        assert(bound * d >= bound) by (nonlinear_arith)
            requires
                d >= 1,
                bound >= 0,
        ;
        lemma_round_div_within(product as int, d as int, bound);
    }
    rounded_quotient(product, d as i128)
}

/// `2^64`: a sum too large for a wide intermediate is held in two parts,
/// as `high * LIMB + low`.
pub const LIMB: i128 = 0x1_0000_0000_0000_0000;

/// The value that the two parts of a sum stand for.
pub open spec fn joined(high: int, low: int) -> int {
    high * LIMB + low
}

/// Splits a wide intermediate in two parts, `high * LIMB + low` with
/// `0 <= low < LIMB`.
pub fn split_wide(x: i128) -> (parts: (i128, u128))
    ensures
        x == joined(parts.0 as int, parts.1 as int),
        0 <= parts.1 < LIMB,
        -0x8000_0000_0000_0000 <= parts.0 <= 0x7fff_ffff_ffff_ffff,
        -0x4000_0000_0000_0000_0000_0000_0000_0000 <= x
            <= 0x4000_0000_0000_0000_0000_0000_0000_0000 ==> -0x4000_0000_0000_0000 <= parts.0
            <= 0x4000_0000_0000_0000,
{
    if x >= 0 {
        (x / LIMB, (x % LIMB) as u128)
    } else {
        let m: i128 = -(x + 1);
        (-(m / LIMB) - 1, (LIMB - 1 - m % LIMB) as u128)
    }
}

/// The sum that two parts stand for, as a wide intermediate, where it can
/// be held.
pub fn join_wide(high: i128, low: u128) -> (r: Option<i128>)
    requires
        -0x7000_0000_0000_0000_0000_0000_0000_0000 <= high
            <= 0x7000_0000_0000_0000_0000_0000_0000_0000,
    ensures
        r is Some <==> fits_wide(joined(high as int, low as int)),
        r matches Some(sum) ==> sum == joined(high as int, low as int),
{
    let carry: i128 = (low / 0x1_0000_0000_0000_0000) as i128;
    let rest: i128 = (low % 0x1_0000_0000_0000_0000) as i128;
    let upper: i128 = high + carry;
    if upper < -0x8000_0000_0000_0000 || upper > 0x7fff_ffff_ffff_ffff {
        None
    } else {
        Some(upper * LIMB + rest)
    }
}

/// An output that can be stored comes from a total that can be held.
pub proof fn lemma_output_needs_total(total: int)
    requires
        fits(round_div(total, NANO as int)),
    ensures
        fits_wide(total),
{
    lemma_round_div_error(total, NANO as int);
}

/// The exact product of two stored values, as a wide intermediate.
pub fn wide_product(a: i64, b: i64) -> (p: i128)
    ensures
        p == a * b,
        -0x4000_0000_0000_0000_0000_0000_0000_0000 <= p,
        p <= 0x4000_0000_0000_0000_0000_0000_0000_0000,
{
    assert(-0x4000_0000_0000_0000_0000_0000_0000_0000 <= a * b
        <= 0x4000_0000_0000_0000_0000_0000_0000_0000) by (nonlinear_arith)
        requires
            -0x8000_0000_0000_0000 <= a <= 0x7fff_ffff_ffff_ffff,
            -0x8000_0000_0000_0000 <= b <= 0x7fff_ffff_ffff_ffff,
    ;
    (a as i128) * (b as i128)
}

/// `a + b`, where it can be stored.
pub fn checked_sum(a: i64, b: i64) -> (r: Option<i64>)
    ensures
        r == narrowed(a + b),
{
    narrow(a as i128 + b as i128)
}

/// `a - b`, where it can be stored.
pub fn checked_difference(a: i64, b: i64) -> (r: Option<i64>)
    ensures
        r == narrowed(a - b),
{
    narrow(a as i128 - b as i128)
}

/// The product of two stored values in stored units, where it can be stored.
pub fn checked_scaled_product(a: i64, b: i64) -> (r: Option<i64>)
    ensures
        r == narrowed(scaled_product(a as int, b as int)),
{
    narrow(rounded_quotient(wide_product(a, b), NANO as i128))
}

/// The quotient of two stored values in stored units; `None` for a zero
/// divisor or a quotient that cannot be stored.
pub fn checked_scaled_quotient(a: i64, b: i64) -> (r: Option<i64>)
    ensures
        b == 0 ==> r.is_none(),
        b != 0 ==> r == narrowed(scaled_quotient(a as int, b as int)),
{
    if b == 0 {
        None
    } else if b > 0 {
        narrow(rounded_quotient(wide_product(a, NANO), b as i128))
    } else {
        narrow(rounded_quotient(-wide_product(a, NANO), -(b as i128)))
    }
}

/// The integer square root of `n`, rounded down.
pub fn integer_root(n: u128) -> (r: u64)
    requires
        n < 0x4000_0000_0000_0000_0000_0000_0000_0000,
    ensures
        is_floor_root(r as int, n as int),
        r < 0x8000_0000_0000_0000,
{
    let mut low: u128 = 0;
    let mut high: u128 = 0x8000_0000_0000_0000;
    while high - low > 1
        invariant
            low < high <= 0x8000_0000_0000_0000,
            low * low <= n < high * high,
        decreases high - low,
    {
        let middle: u128 = low + (high - low) / 2;
        assert(middle * middle < 0x4000_0000_0000_0000_0000_0000_0000_0000) by (nonlinear_arith)
            requires
                0 <= middle < 0x8000_0000_0000_0000,
        ;
        if middle * middle <= n {
            low = middle;
        } else {
            high = middle;
        }
    }
    low as u64
}

/// The square root of a stored value in stored units, rounded down; `None`
/// for a negative value.
pub fn checked_scaled_root(a: i64) -> (r: Option<i64>)
    ensures
        a < 0 ==> r.is_none(),
        a >= 0 ==> r == Some(scaled_root(a as int) as i64) && 0 <= scaled_root(a as int)
            <= i64::MAX && is_floor_root(scaled_root(a as int), a * NANO),
{
    if a < 0 {
        None
    } else {
        let radicand: i128 = wide_product(a, NANO);
        let root: u64 = integer_root(radicand as u128);
        proof {
            lemma_floor_root_unique(root as int, a * NANO);
        }
        Some(root as i64)
    }
}

} // verus!
