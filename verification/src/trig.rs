//! Fixed-point cosine on a discretized circle.
//!
//! The palette channels follow a cosine ramp. All arithmetic in this crate is
//! integral, so the cosine is evaluated in fixed point: angles are measured in
//! units of 1/2_048_000 of a full turn, and the result is scaled by 32768
//! (`COS_ONE`). The quarter-wave is approximated by an even polynomial
//! (the first three terms of the cosine series in the scaled argument),
//! clamped to the valid range; the other quadrants follow by symmetry.

use vstd::prelude::*;

verus! {

/// Angle units in a full turn.
pub const TURN: u64 = 2048000;

/// Angle units in a half turn.
pub const HALF_TURN: u64 = 1024000;

/// Angle units in a quarter turn.
pub const QUARTER_TURN: u64 = 512000;

/// Fixed-point scale of the cosine result: `COS_ONE` stands for 1.0.
pub const COS_ONE: i64 = 32768;

/// Quarter-wave polynomial: for `s` in `[0, QUARTER_TURN]`, an approximation
/// of `cos` over the first quadrant, scaled by `COS_ONE` and clamped to
/// `[0, COS_ONE]`.
pub open spec fn spec_cos_quarter(s: int) -> int {
    let w = s * 64 / 1000;
    let u2 = w * w / 32768;
    let u4 = u2 * u2 / 32768;
    let raw = 32768 + 8312 * u4 / 32768 - 40426 * u2 / 32768;
    if raw < 0 {
        0
    } else if raw > 32768 {
        32768
    } else {
        raw
    }
}

/// Fixed-point cosine of an angle `a` in `[0, TURN)`, scaled by `COS_ONE`,
/// by quarter-wave symmetry.
pub open spec fn spec_cos(a: int) -> int {
    let h = if a >= HALF_TURN { TURN - a } else { a };
    if h <= QUARTER_TURN {
        spec_cos_quarter(h)
    } else {
        -spec_cos_quarter(HALF_TURN - h)
    }
}

/// The cosine value always lies within one fixed-point unit of magnitude.
pub proof fn lemma_cos_bounds(a: int)
    requires
        0 <= a < TURN,
    ensures
        -COS_ONE <= spec_cos(a) <= COS_ONE,
{
}

fn cos_quarter(s: u64) -> (c: i64)
    requires
        s <= QUARTER_TURN,
    ensures
        c == spec_cos_quarter(s as int),
        0 <= c <= COS_ONE,
{
    let w: u64 = s * 64 / 1000;
    assert(w <= 32768);
    assert(w * w <= 32768 * 32768) by (nonlinear_arith)
        requires
            w <= 32768,
    ;
    let u2: u64 = w * w / 32768;
    assert(u2 <= 32768);
    assert(u2 * u2 <= 32768 * 32768) by (nonlinear_arith)
        requires
            u2 <= 32768,
    ;
    let u4: u64 = u2 * u2 / 32768;
    assert(u4 <= 32768);
    let pos: i64 = (32768 + 8312 * u4 / 32768) as i64;
    let neg: i64 = (40426 * u2 / 32768) as i64;
    let raw: i64 = pos - neg;
    if raw < 0 {
        0
    } else if raw > 32768 {
        32768
    } else {
        raw
    }
}

/// Fixed-point cosine: the executable twin of `spec_cos`.
pub fn cos_fixed(a: u64) -> (c: i64)
    requires
        a < TURN,
    ensures
        c == spec_cos(a as int),
        -COS_ONE <= c <= COS_ONE,
{
    let h: u64 = if a >= HALF_TURN {
        TURN - a
    } else {
        a
    };
    if h <= QUARTER_TURN {
        cos_quarter(h)
    } else {
        let q: i64 = cos_quarter(HALF_TURN - h);
        -q
    }
}

} // verus!
