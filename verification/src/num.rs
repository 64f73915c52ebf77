//! Saturating integer arithmetic with exact contracts.
//!
//! Accumulators and camera coordinates are plain machine integers; every
//! update saturates at the type's bounds instead of overflowing, and each
//! operation's contract pins the result down exactly via the `clamp_*`
//! spec functions.

use vstd::prelude::*;

verus! {

/// The value `x` clamped to the range of `i64`.
pub open spec fn clamp_i64(x: int) -> int {
    if x > i64::MAX as int {
        i64::MAX as int
    } else if x < i64::MIN as int {
        i64::MIN as int
    } else {
        x
    }
}

/// The value `x` clamped to the range of `u64`.
pub open spec fn clamp_u64(x: int) -> int {
    if x > u64::MAX as int {
        u64::MAX as int
    } else if x < 0 {
        0
    } else {
        x
    }
}

/// Saturating addition on `u64`.
pub fn sat_add_u64(a: u64, b: u64) -> (r: u64)
    ensures
        r as int == clamp_u64(a as int + b as int),
{
    if a > u64::MAX - b {
        u64::MAX
    } else {
        a + b
    }
}

/// Saturating addition on `i64`.
pub fn sat_add_i64(a: i64, b: i64) -> (r: i64)
    ensures
        r as int == clamp_i64(a as int + b as int),
{
    if b >= 0 && a > i64::MAX - b {
        i64::MAX
    } else if b < 0 && a < i64::MIN - b {
        i64::MIN
    } else {
        a + b
    }
}

/// Adds the product `pan * dt` onto the coordinate `c`, saturating at the
/// bounds of `i64`. The product itself is exact: it is formed in 128-bit
/// arithmetic, where an `i64` times a `u64` always fits.
pub fn sat_add_scaled(c: i64, pan: i64, dt: u64) -> (r: i64)
    ensures
        r as int == clamp_i64(c as int + pan as int * dt as int),
{
    proof {
        assert(pan as int * dt as int <= i128::MAX as int && i128::MIN as int <= pan as int * dt as int)
            by (nonlinear_arith)
            requires
                i64::MIN as int <= pan as int <= i64::MAX as int,
                0 <= dt as int <= u64::MAX as int,
        ;
    }
    let d: i128 = (pan as i128) * (dt as i128);
    let hi: i128 = (i64::MAX as i128) - (c as i128);
    let lo: i128 = (i64::MIN as i128) - (c as i128);
    if d > hi {
        i64::MAX
    } else if d < lo {
        i64::MIN
    } else {
        ((c as i128) + d) as i64
    }
}

} // verus!
