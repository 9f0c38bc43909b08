//! Small arithmetic helpers shared by the viewport and mapping code:
//! truncating division, clamping, and saturating `i64` addition.

use vstd::prelude::*;

verus! {

use vstd::arithmetic::div_mod::{
    lemma_div_is_ordered, lemma_div_multiples_vanish, lemma_div_nonincreasing,
    lemma_div_pos_is_pos,
};

/// Quotient of `a` by `b` rounded toward zero, the rounding used throughout
/// the fixed-point arithmetic of this crate. Intended for `b > 0`.
pub open spec fn div_trunc(a: int, b: int) -> int {
    if a >= 0 {
        a / b
    } else {
        -((-a) / b)
    }
}

/// `v` forced into the interval `[lo, hi]`.
pub open spec fn clamp_int(v: int, lo: int, hi: int) -> int {
    if v < lo {
        lo
    } else if v > hi {
        hi
    } else {
        v
    }
}

/// `v` forced into the range representable by an `i64`.
pub open spec fn sat_i64(v: int) -> int {
    clamp_int(v, i64::MIN as int, i64::MAX as int)
}

/// If `a` is at most `k` multiples of `b`, its truncated quotient is at most `k`.
pub proof fn lemma_div_trunc_upper(a: int, b: int, k: int)
    requires
        b > 0,
        k >= 0,
        a <= k * b,
    ensures
        div_trunc(a, b) <= k,
{
    if a >= 0 {
        lemma_div_is_ordered(a, k * b, b);
        lemma_div_multiples_vanish(k, b);
        vstd::arithmetic::mul::lemma_mul_is_commutative(k, b);
    } else {
        lemma_div_pos_is_pos(-a, b);
    }
}

/// If `a` is at least `k` multiples of `b` (with `k` nonnegative), its
/// truncated quotient is at least `k`.
pub proof fn lemma_div_trunc_lower(a: int, b: int, k: int)
    requires
        b > 0,
        k >= 0,
        a >= k * b,
    ensures
        div_trunc(a, b) >= k,
{
    vstd::arithmetic::mul::lemma_mul_inequality(0, k, b);
    lemma_div_is_ordered(k * b, a, b);
    lemma_div_multiples_vanish(k, b);
    vstd::arithmetic::mul::lemma_mul_is_commutative(k, b);
}

/// A truncated quotient never grows past the dividend, on either side of
/// zero.
pub proof fn lemma_div_trunc_bounds(a: int, b: int)
    requires
        b > 0,
    ensures
        a >= 0 ==> 0 <= div_trunc(a, b) <= a,
        a < 0 ==> a <= div_trunc(a, b) <= 0,
{
    if a >= 0 {
        lemma_div_pos_is_pos(a, b);
        lemma_div_nonincreasing(a, b);
    } else {
        lemma_div_pos_is_pos(-a, b);
        lemma_div_nonincreasing(-a, b);
    }
}

/// Addition that saturates at the `i64` range instead of overflowing.
pub fn sat_add_i64(a: i64, b: i64) -> (r: i64)
    ensures
        r == sat_i64(a + b),
{
    let s: i128 = a as i128 + b as i128;
    if s > i64::MAX as i128 {
        i64::MAX
    } else if s < i64::MIN as i128 {
        i64::MIN
    } else {
        s as i64
    }
}

/// Division of a nonnegative value by a positive one; the quotient equals the
/// mathematical (Euclidean) quotient.
pub fn div_nonneg_i128(a: i128, b: i128) -> (q: i128)
    requires
        a >= 0,
        b > 0,
    ensures
        q == a as int / b as int,
        0 <= q <= a,
{
    proof {
        lemma_div_pos_is_pos(a as int, b as int);
        lemma_div_nonincreasing(a as int, b as int);
    }
    ((a as u128) / (b as u128)) as i128
}

/// Truncating division for a possibly negative dividend.
pub fn div_trunc_i128(a: i128, b: i128) -> (q: i128)
    requires
        b > 0,
        a > i128::MIN,
    ensures
        q == div_trunc(a as int, b as int),
{
    if a >= 0 {
        div_nonneg_i128(a, b)
    } else {
        -div_nonneg_i128(-a, b)
    }
}

} // verus!
