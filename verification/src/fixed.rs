//! Fixed-point helpers: clamping, and the scaled product `v * t / d` that
//! turns a velocity and an elapsed time into a displacement.

use vstd::prelude::*;

use vstd::arithmetic::div_mod::lemma_div_is_ordered;
use vstd::arithmetic::div_mod::lemma_div_pos_is_pos;
use vstd::arithmetic::mul::lemma_mul_inequality;
use vstd::arithmetic::mul::lemma_mul_nonnegative;

verus! {

/// Largest magnitude accepted by [`mul_div`] for its first factor.
pub const MUL_DIV_LIMIT: i64 = 2_000_000_000_000;

/// `x` pulled into `[lo, hi]`.
pub open spec fn clamped(x: int, lo: int, hi: int) -> int {
    if x < lo {
        lo
    } else if x > hi {
        hi
    } else {
        x
    }
}

/// Pulls `x` into `[lo, hi]`.
pub fn clamp(x: i64, lo: i64, hi: i64) -> (r: i64)
    requires
        lo <= hi,
    ensures
        r == clamped(x as int, lo as int, hi as int),
{
    if x < lo {
        lo
    } else if x > hi {
        hi
    } else {
        x
    }
}

/// `v * t / d` rounded toward zero, for `t >= 0` and `d > 0`: the
/// displacement of a body of velocity `v` over a time `t`, at scale `d`.
pub open spec fn scaled(v: int, t: int, d: int) -> int {
    if v >= 0 {
        v * t / d
    } else {
        -((-v) * t / d)
    }
}

/// The magnitude of a scaled product grows with the magnitude of its first
/// factor: `|scaled(v, t, d)| <= vb * t / d` whenever `|v| <= vb`.
pub proof fn lemma_scaled_bound(v: int, t: int, d: int, vb: int)
    requires
        -vb <= v <= vb,
        0 <= t,
        1 <= d,
    ensures
        -(vb * t / d) <= scaled(v, t, d) <= vb * t / d,
{
    if v >= 0 {
        lemma_mul_nonnegative(v, t);
        lemma_mul_inequality(v, vb, t);
        lemma_div_is_ordered(v * t, vb * t, d);
        lemma_div_pos_is_pos(v * t, d);
    } else {
        lemma_mul_nonnegative(-v, t);
        lemma_mul_inequality(-v, vb, t);
        lemma_div_is_ordered((-v) * t, vb * t, d);
        lemma_div_pos_is_pos((-v) * t, d);
    }
}

/// A product of bounded factors is bounded: `|x * y| <= xb * yb`.
pub proof fn lemma_mul_bound(x: int, xb: int, y: int, yb: int)
    requires
        -xb <= x <= xb,
        -yb <= y <= yb,
    ensures
        -(xb * yb) <= x * y <= xb * yb,
{
    assert(-(xb * yb) <= x * y <= xb * yb) by (nonlinear_arith)
        requires
            -xb <= x <= xb,
            -yb <= y <= yb,
    ;
}

/// Computes [`scaled`]`(v, t, d)` without overflow.
pub fn mul_div(v: i64, t: i64, d: i64) -> (r: i64)
    requires
        -MUL_DIV_LIMIT <= v <= MUL_DIV_LIMIT,
        0 <= t <= crate::config::DT_LIMIT,
        1 <= d,
    ensures
        r == scaled(v as int, t as int, d as int),
{
    proof {
        lemma_scaled_bound(v as int, t as int, d as int, MUL_DIV_LIMIT as int);
        lemma_div_is_ordered(
            MUL_DIV_LIMIT * t,
            MUL_DIV_LIMIT * (crate::config::DT_LIMIT as int),
            d as int,
        );
        lemma_mul_inequality(t as int, crate::config::DT_LIMIT as int, MUL_DIV_LIMIT as int);
        if v >= 0 {
            lemma_mul_nonnegative(v as int, t as int);
            lemma_mul_inequality(v as int, MUL_DIV_LIMIT as int, t as int);
        } else {
            lemma_mul_nonnegative(-v as int, t as int);
            lemma_mul_inequality(-v as int, MUL_DIV_LIMIT as int, t as int);
        }
    }
    if v >= 0 {
        (v * t) / d
    } else {
        -(((-v) * t) / d)
    }
}

/// The displacement, in milliunits, of a body with velocity `v` milliunits
/// per second over `dt` milliseconds, rounded toward zero.
pub fn displacement(v: i64, dt: i64) -> (r: i64)
    requires
        -crate::config::COORD_LIMIT <= v <= crate::config::COORD_LIMIT,
        0 <= dt <= crate::config::DT_LIMIT,
    ensures
        r == scaled(v as int, dt as int, crate::config::SCALE as int),
        -1_000_000_000 <= r <= 1_000_000_000,
{
    proof {
        let cl = crate::config::COORD_LIMIT as int;
        let dl = crate::config::DT_LIMIT as int;
        lemma_scaled_bound(v as int, dt as int, crate::config::SCALE as int, cl);
        lemma_mul_inequality(dt as int, dl, cl);
        lemma_mul_nonnegative(cl, dt as int);
        lemma_div_is_ordered(cl * (dt as int), cl * dl, crate::config::SCALE as int);
        lemma_div_pos_is_pos(cl * (dt as int), crate::config::SCALE as int);
    }
    mul_div(v, dt, crate::config::SCALE)
}

/// The displacement, in milliunits, of a paddle driven at axis deflection
/// `mv` (in thousandths) by a paddle of speed `speed` milliunits per second,
/// over `dt` milliseconds, rounded toward zero.
pub fn paddle_delta(mv: i64, speed: i64, dt: i64) -> (r: i64)
    requires
        -crate::config::AXIS_LIMIT <= mv <= crate::config::AXIS_LIMIT,
        0 <= speed <= crate::config::COORD_LIMIT,
        0 <= dt <= crate::config::DT_LIMIT,
    ensures
        r == scaled(
            mv * speed,
            dt as int,
            (crate::config::SCALE * crate::config::SCALE) as int,
        ),
        -1_000_000_000 <= r <= 1_000_000_000,
{
    proof {
        let al = crate::config::AXIS_LIMIT as int;
        let cl = crate::config::COORD_LIMIT as int;
        let dl = crate::config::DT_LIMIT as int;
        let d = (crate::config::SCALE * crate::config::SCALE) as int;
        lemma_mul_bound(mv as int, al, speed as int, cl);
        lemma_scaled_bound((mv * speed) as int, dt as int, d, al * cl);
        lemma_mul_inequality(dt as int, dl, al * cl);
        lemma_mul_nonnegative(al * cl, dt as int);
        lemma_div_is_ordered((al * cl) * (dt as int), (al * cl) * dl, d);
        lemma_div_pos_is_pos((al * cl) * (dt as int), d);
    }
    mul_div(mv * speed, dt, crate::config::SCALE * crate::config::SCALE)
}

} // verus!
