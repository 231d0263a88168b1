//! Fixed-point trigonometry.
//!
//! Angles and results are carried as `i64` multiples of one millionth
//! (`FP_ONE` units stand for the real value 1.0, and an angle of `FP_PI`
//! units stands for pi radians). Cosine and sine are evaluated with a
//! truncated Taylor polynomial after reduction to a quarter period, and the
//! result is clamped to `[-FP_ONE, FP_ONE]`; the spec functions below define
//! the computed value exactly.

use vstd::prelude::*;

verus! {

/// Fixed-point scale: the real value 1.0 is represented by `FP_ONE`.
pub const FP_ONE: i64 = 1_000_000;

/// pi/2, rounded to the nearest fixed-point unit.
pub const FP_HALF_PI: i64 = 1_570_796;

/// pi, rounded to the nearest fixed-point unit.
pub const FP_PI: i64 = 3_141_593;

/// 3*pi/2, rounded to the nearest fixed-point unit.
pub const FP_THREE_HALF_PI: i64 = 4_712_389;

/// 2*pi, rounded to the nearest fixed-point unit.
pub const FP_TWO_PI: i64 = 6_283_185;

/// The magnitude of a fixed-point value, as a mathematical integer.
pub open spec fn abs_fixed(a: i64) -> int {
    if a >= 0 {
        a as int
    } else {
        -(a as int)
    }
}

/// Clamps a value to the range a cosine or sine can take, `[-FP_ONE, FP_ONE]`.
pub open spec fn clamp_unit(v: int) -> int {
    if v > FP_ONE {
        FP_ONE as int
    } else if v < -(FP_ONE as int) {
        -(FP_ONE as int)
    } else {
        v
    }
}

/// Truncated Taylor polynomial for the cosine of `u` fixed-point radians,
/// intended for `0 <= u <= FP_HALF_PI + 1`. Every division truncates toward
/// negative infinity on the non-negative operands it is applied to.
pub open spec fn cos_poly(u: int) -> int {
    let t = u * u / (FP_ONE as int);
    let t2 = t * t / (FP_ONE as int);
    let t3 = t2 * t / (FP_ONE as int);
    FP_ONE - t / 2 + t2 / 24 - t3 / 720
}

/// Truncated Taylor polynomial for the sine of `u` fixed-point radians,
/// intended for `0 <= u <= FP_HALF_PI + 1`.
pub open spec fn sin_poly(u: int) -> int {
    let t = u * u / (FP_ONE as int);
    let t2 = t * t / (FP_ONE as int);
    let t3 = t2 * t / (FP_ONE as int);
    u - u * t / (FP_ONE as int) / 6 + u * t2 / (FP_ONE as int) / 120 - u * t3 / (FP_ONE as int)
        / 5040
}

/// Cosine of an angle already reduced to `[0, FP_TWO_PI)`, folded onto a
/// quarter period before the polynomial is applied.
pub open spec fn cos_reduced(m: int) -> int {
    if m < FP_HALF_PI {
        clamp_unit(cos_poly(m))
    } else if m <= FP_THREE_HALF_PI {
        let u = if m >= FP_PI {
            m - FP_PI
        } else {
            FP_PI - m
        };
        clamp_unit(-cos_poly(u))
    } else {
        clamp_unit(cos_poly(FP_TWO_PI - m))
    }
}

/// Sine of an angle already reduced to `[0, FP_TWO_PI)`, folded onto a
/// quarter period before the polynomial is applied.
pub open spec fn sin_reduced(m: int) -> int {
    if m < FP_HALF_PI {
        clamp_unit(sin_poly(m))
    } else if m <= FP_THREE_HALF_PI {
        if m >= FP_PI {
            clamp_unit(-sin_poly(m - FP_PI))
        } else {
            clamp_unit(sin_poly(FP_PI - m))
        }
    } else {
        clamp_unit(-sin_poly(FP_TWO_PI - m))
    }
}

/// The fixed-point cosine of any angle: cosine is even, so the magnitude of
/// the angle is reduced modulo `FP_TWO_PI` first.
pub open spec fn cos_fixed_spec(a: i64) -> int {
    cos_reduced(abs_fixed(a) % (FP_TWO_PI as int))
}

/// The fixed-point sine of any angle: sine is odd, so a negative angle gives
/// the negated sine of its magnitude.
pub open spec fn sin_fixed_spec(a: i64) -> int {
    if a >= 0 {
        sin_reduced((a as int) % (FP_TWO_PI as int))
    } else {
        -sin_reduced((-(a as int)) % (FP_TWO_PI as int))
    }
}

fn clamp_unit_exec(v: i64) -> (r: i64)
    ensures
        r == clamp_unit(v as int),
        -FP_ONE <= r <= FP_ONE,
{
    if v > FP_ONE {
        FP_ONE
    } else if v < -FP_ONE {
        -FP_ONE
    } else {
        v
    }
}

fn cos_poly_exec(u: u64) -> (r: i64)
    requires
        u <= 1_570_797,
    ensures
        r == cos_poly(u as int),
        -10_000_000 <= r <= 10_000_000,
{
    proof {
        assert((u as int) * (u as int) <= 1_570_797 * 1_570_797) by (nonlinear_arith)
            requires
                u <= 1_570_797,
        ;
    }
    let t: u64 = u * u / (FP_ONE as u64);
    proof {
        assert((t as int) * (t as int) <= 2_467_404 * 2_467_404) by (nonlinear_arith)
            requires
                t <= 2_467_404,
        ;
    }
    let t2: u64 = t * t / (FP_ONE as u64);
    proof {
        assert((t2 as int) * (t as int) <= 6_088_100 * 2_467_404) by (nonlinear_arith)
            requires
                t2 <= 6_088_100,
                t <= 2_467_404,
        ;
    }
    let t3: u64 = t2 * t / (FP_ONE as u64);
    let r: i64 = FP_ONE - (t / 2) as i64 + (t2 / 24) as i64 - (t3 / 720) as i64;
    r
}

fn sin_poly_exec(u: u64) -> (r: i64)
    requires
        u <= 1_570_797,
    ensures
        r == sin_poly(u as int),
        -10_000_000 <= r <= 10_000_000,
{
    proof {
        assert((u as int) * (u as int) <= 1_570_797 * 1_570_797) by (nonlinear_arith)
            requires
                u <= 1_570_797,
        ;
    }
    let t: u64 = u * u / (FP_ONE as u64);
    proof {
        assert((t as int) * (t as int) <= 2_467_404 * 2_467_404) by (nonlinear_arith)
            requires
                t <= 2_467_404,
        ;
        assert((u as int) * (t as int) <= 1_570_797 * 2_467_404) by (nonlinear_arith)
            requires
                u <= 1_570_797,
                t <= 2_467_404,
        ;
    }
    let t2: u64 = t * t / (FP_ONE as u64);
    proof {
        assert((t2 as int) * (t as int) <= 6_088_100 * 2_467_404) by (nonlinear_arith)
            requires
                t2 <= 6_088_100,
                t <= 2_467_404,
        ;
        assert((u as int) * (t2 as int) <= 1_570_797 * 6_088_100) by (nonlinear_arith)
            requires
                u <= 1_570_797,
                t2 <= 6_088_100,
        ;
    }
    let t3: u64 = t2 * t / (FP_ONE as u64);
    proof {
        assert((u as int) * (t3 as int) <= 1_570_797 * 15_022_733) by (nonlinear_arith)
            requires
                u <= 1_570_797,
                t3 <= 15_022_733,
        ;
    }
    let a3: u64 = u * t / (FP_ONE as u64) / 6;
    let a5: u64 = u * t2 / (FP_ONE as u64) / 120;
    let a7: u64 = u * t3 / (FP_ONE as u64) / 5040;
    let r: i64 = u as i64 - a3 as i64 + a5 as i64 - a7 as i64;
    r
}

fn cos_reduced_exec(m: u64) -> (r: i64)
    requires
        m < FP_TWO_PI as u64,
    ensures
        r == cos_reduced(m as int),
        -FP_ONE <= r <= FP_ONE,
{
    if m < (FP_HALF_PI as u64) {
        let p: i64 = cos_poly_exec(m);
        clamp_unit_exec(p)
    } else if m <= (FP_THREE_HALF_PI as u64) {
        let u: u64 = if m >= (FP_PI as u64) {
            m - (FP_PI as u64)
        } else {
            (FP_PI as u64) - m
        };
        let p: i64 = cos_poly_exec(u);
        clamp_unit_exec(-p)
    } else {
        let p: i64 = cos_poly_exec((FP_TWO_PI as u64) - m);
        clamp_unit_exec(p)
    }
}

fn sin_reduced_exec(m: u64) -> (r: i64)
    requires
        m < FP_TWO_PI as u64,
    ensures
        r == sin_reduced(m as int),
        -FP_ONE <= r <= FP_ONE,
{
    if m < (FP_HALF_PI as u64) {
        let p: i64 = sin_poly_exec(m);
        clamp_unit_exec(p)
    } else if m <= (FP_THREE_HALF_PI as u64) {
        if m >= (FP_PI as u64) {
            let p: i64 = sin_poly_exec(m - (FP_PI as u64));
            clamp_unit_exec(-p)
        } else {
            let p: i64 = sin_poly_exec((FP_PI as u64) - m);
            clamp_unit_exec(p)
        }
    } else {
        let p: i64 = sin_poly_exec((FP_TWO_PI as u64) - m);
        clamp_unit_exec(-p)
    }
}

/// The magnitude of `a` as a `u64`; written so that `i64::MIN` needs no
/// negation of itself.
fn abs_fixed_exec(a: i64) -> (mag: u64)
    ensures
        mag == abs_fixed(a),
{
    if a >= 0 {
        a as u64
    } else {
        ((-(a + 1)) as u64) + 1
    }
}

/// Fixed-point cosine of an arbitrary angle, exactly `cos_fixed_spec`.
pub fn cos_fixed(a: i64) -> (r: i64)
    ensures
        r == cos_fixed_spec(a),
        -FP_ONE <= r <= FP_ONE,
{
    let mag: u64 = abs_fixed_exec(a);
    let m: u64 = mag % (FP_TWO_PI as u64);
    cos_reduced_exec(m)
}

/// Fixed-point sine of an arbitrary angle, exactly `sin_fixed_spec`.
pub fn sin_fixed(a: i64) -> (r: i64)
    ensures
        r == sin_fixed_spec(a),
        -FP_ONE <= r <= FP_ONE,
{
    if a >= 0 {
        let m: u64 = (a as u64) % (FP_TWO_PI as u64);
        sin_reduced_exec(m)
    } else {
        let mag: u64 = abs_fixed_exec(a);
        let m: u64 = mag % (FP_TWO_PI as u64);
        let s: i64 = sin_reduced_exec(m);
        -s
    }
}

} // verus!
