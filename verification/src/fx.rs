//! Fixed-point arithmetic for chart coordinates.
//!
//! Every coordinate, amplitude, frequency and scale factor in this crate is a
//! signed count of millionths (`FX_SCALE` units per whole unit), kept inside
//! the symmetric range `[-FX_BOUND, FX_BOUND]`.  All operations clamp into
//! that range, so axis bounds can never become infinite or undefined.

use vstd::prelude::*;

verus! {

/// Number of fixed-point units in one whole unit.
pub const FX_SCALE: i64 = 1_000_000;

/// Largest magnitude a fixed-point value may take (2^62 - 1).
pub const FX_BOUND: i64 = 4_611_686_018_427_387_903;

/// A value that respects the fixed-point range.
pub open spec fn fx_ok(v: int) -> bool {
    -FX_BOUND <= v <= FX_BOUND
}

/// Clamp an unbounded value into the fixed-point range.
pub open spec fn fx_clamp(v: int) -> int {
    if v > FX_BOUND as int {
        FX_BOUND as int
    } else if v < -FX_BOUND as int {
        -FX_BOUND as int
    } else {
        v
    }
}

/// `a * b / d`, rounded toward zero and clamped into the fixed-point range.
pub open spec fn fx_mul_div_spec(a: int, b: int, d: int) -> int
    recommends
        d > 0,
{
    let p = a * b;
    if p >= 0 {
        fx_clamp(p / d)
    } else {
        fx_clamp(-((-p) / d))
    }
}

/// Saturating `a * b / d` for a positive divisor `d`.
pub fn fx_mul_div(a: i64, b: i64, d: i64) -> (r: i64)
    requires
        d > 0,
    ensures
        r == fx_mul_div_spec(a as int, b as int, d as int),
        fx_ok(r as int),
{
    proof {
        assert((a as int) * (b as int) <= 0x4000_0000_0000_0000_0000_0000_0000_0000int
            && (a as int) * (b as int) >= -0x4000_0000_0000_0000_0000_0000_0000_0000int)
            by (nonlinear_arith)
            requires
                -0x8000_0000_0000_0000int <= a as int <= 0x7FFF_FFFF_FFFF_FFFFint,
                -0x8000_0000_0000_0000int <= b as int <= 0x7FFF_FFFF_FFFF_FFFFint,
        ;
    }
    let p: i128 = (a as i128) * (b as i128);
    if p >= 0 {
        let q: u128 = (p as u128) / (d as u128);
        if q > FX_BOUND as u128 {
            FX_BOUND
        } else {
            q as i64
        }
    } else {
        let q: u128 = ((-p) as u128) / (d as u128);
        if q > FX_BOUND as u128 {
            -FX_BOUND
        } else {
            -(q as i64)
        }
    }
}

/// Saturating addition within the fixed-point range.
pub fn fx_add(a: i64, b: i64) -> (r: i64)
    requires
        fx_ok(a as int),
        fx_ok(b as int),
    ensures
        r == fx_clamp(a + b),
        fx_ok(r as int),
{
    let s: i64 = a + b;
    if s > FX_BOUND {
        FX_BOUND
    } else if s < -FX_BOUND {
        -FX_BOUND
    } else {
        s
    }
}

/// Saturating subtraction within the fixed-point range.
pub fn fx_sub(a: i64, b: i64) -> (r: i64)
    requires
        fx_ok(a as int),
        fx_ok(b as int),
    ensures
        r == fx_clamp(a - b),
        fx_ok(r as int),
{
    let s: i64 = a - b;
    if s > FX_BOUND {
        FX_BOUND
    } else if s < -FX_BOUND {
        -FX_BOUND
    } else {
        s
    }
}

/// With divisor one the scaled product is just the clamped product.
pub proof fn lemma_fx_mul_div_one(a: int, b: int)
    ensures
        fx_mul_div_spec(a, b, 1) == fx_clamp(a * b),
{
    let p = a * b;
    vstd::arithmetic::div_mod::lemma_div_basics(p);
    vstd::arithmetic::div_mod::lemma_div_basics(-p);
}

} // verus!
