//! Fixed-point arithmetic helpers: clamped (saturating) additions and
//! truncated division, with their exact mathematical statements.

use vstd::prelude::*;

verus! {

/// Subdivisions per unit: continuous quantities (positions, rates) are
/// fixed-point integers with three fractional digits.
pub const UNIT: i64 = 1000;

/// `v` clamped to the range of `i64`.
pub open spec fn clamp_i64(v: int) -> int {
    if v > i64::MAX as int {
        i64::MAX as int
    } else if v < i64::MIN as int {
        i64::MIN as int
    } else {
        v
    }
}

/// `v` clamped to the range of `isize`.
pub open spec fn clamp_isize(v: int) -> int {
    if v > isize::MAX as int {
        isize::MAX as int
    } else if v < isize::MIN as int {
        isize::MIN as int
    } else {
        v
    }
}

/// `v / d` rounded toward zero, for a positive divisor.
pub open spec fn tdiv(v: int, d: int) -> int
    recommends
        d > 0,
{
    if v >= 0 {
        v / d
    } else {
        -((-v) / d)
    }
}

pub fn clamp_i128_to_i64(v: i128) -> (r: i64)
    ensures
        r as int == clamp_i64(v as int),
{
    if v > i64::MAX as i128 {
        i64::MAX
    } else if v < i64::MIN as i128 {
        i64::MIN
    } else {
        v as i64
    }
}

pub fn clamp_i128_to_isize(v: i128) -> (r: isize)
    ensures
        r as int == clamp_isize(v as int),
{
    if v > isize::MAX as i128 {
        isize::MAX
    } else if v < isize::MIN as i128 {
        isize::MIN
    } else {
        v as isize
    }
}

/// Saturating addition on `i64`.
pub fn sat_add_i64(a: i64, d: i64) -> (r: i64)
    ensures
        r as int == clamp_i64(a + d),
{
    clamp_i128_to_i64(a as i128 + d as i128)
}

/// Saturating addition on `isize`.
pub fn sat_add_isize(a: isize, d: isize) -> (r: isize)
    ensures
        r as int == clamp_isize(a + d),
{
    clamp_i128_to_isize(a as i128 + d as i128)
}

/// Division rounded toward zero, for a positive divisor.
pub fn tdiv_i128(v: i128, d: i128) -> (r: i128)
    requires
        d > 0,
        v > i128::MIN,
    ensures
        r == tdiv(v as int, d as int),
{
    if v >= 0 {
        v / d
    } else {
        -((-v) / d)
    }
}

/// A truncated quotient is bounded by any bound on the dividend, scaled down.
pub proof fn lemma_tdiv_bound(v: int, d: int, m: int)
    requires
        d > 0,
        m >= 0,
        -(d * m) <= v <= d * m,
    ensures
        -m <= tdiv(v, d) <= m,
{
    if v >= 0 {
        vstd::arithmetic::div_mod::lemma_div_is_ordered(v, d * m, d);
        vstd::arithmetic::div_mod::lemma_div_multiples_vanish(m, d);
        vstd::arithmetic::div_mod::lemma_div_pos_is_pos(v, d);
    } else {
        vstd::arithmetic::div_mod::lemma_div_is_ordered(-v, d * m, d);
        vstd::arithmetic::div_mod::lemma_div_multiples_vanish(m, d);
        vstd::arithmetic::div_mod::lemma_div_pos_is_pos(-v, d);
    }
}

} // verus!
