//! Fixed-point sine and cosine of angles given in degrees.
//!
//! Rotation angles are reduced modulo a full turn, folded into one quadrant,
//! and evaluated there by degree-7 (sine) and degree-8 (cosine) Taylor
//! polynomials around zero, after an exact fixed-point degree-to-radian
//! conversion.  Quarter-turn angles evaluate exactly to 0 and one whole
//! unit of [`crate::fixed::FX_ONE`] scale.

use vstd::arithmetic::div_mod::{
    lemma_div_is_ordered, lemma_fundamental_div_mod, lemma_fundamental_div_mod_converse_mod,
};
use vstd::prelude::*;

verus! {

/// A full turn (360 degrees) in fixed-point scale units.
pub const DEG_FULL: u64 = 377487360;

/// A quarter turn (90 degrees) in fixed-point scale units.
pub const DEG_QUARTER: u64 = 94371840;

/// An eighth turn (45 degrees) in fixed-point scale units.
pub const DEG_EIGHTH: u64 = 47185920;

/// The circle constant rounded to fixed-point scale units.
pub const PI_FX: u64 = 3294199;

/// 180 degrees in fixed-point scale units, the degree-to-radian denominator.
pub const RAD_DEN: u64 = 188743680;

/// Fixed-point product of nonnegative values, truncated.
pub open spec fn fx_prod(a: int, b: int) -> int {
    (a * b) / 1048576
}

/// Radians corresponding to `t` fixed-point degrees, truncated.
pub open spec fn spec_rad_of_deg(t: int) -> int {
    (t * 3294199) / 188743680
}

/// Taylor polynomial for sine on `[0, pi/4]`, in fixed point.
pub open spec fn spec_sin_poly(x: int) -> int {
    let x2 = fx_prod(x, x);
    let x3 = fx_prod(x2, x);
    let x5 = fx_prod(x3, x2);
    let x7 = fx_prod(x5, x2);
    x - x3 / 6 + x5 / 120 - x7 / 5040
}

/// Taylor polynomial for cosine on `[0, pi/4]`, in fixed point.
pub open spec fn spec_cos_poly(x: int) -> int {
    let x2 = fx_prod(x, x);
    let x4 = fx_prod(x2, x2);
    let x6 = fx_prod(x4, x2);
    let x8 = fx_prod(x6, x2);
    1048576 - x2 / 2 + x4 / 24 - x6 / 720 + x8 / 40320
}

/// Sine over one quadrant (`0` to `90` degrees), folded at 45 degrees.
pub open spec fn spec_quarter_sin(t: int) -> int {
    if t <= DEG_EIGHTH {
        spec_sin_poly(spec_rad_of_deg(t))
    } else {
        spec_cos_poly(spec_rad_of_deg(DEG_QUARTER - t))
    }
}

/// Sine of an angle already reduced into `[0, DEG_FULL)`.
pub open spec fn spec_sin_reduced(m: int) -> int {
    let q = m / (DEG_QUARTER as int);
    let t = m % (DEG_QUARTER as int);
    if q == 0 {
        spec_quarter_sin(t)
    } else if q == 1 {
        spec_quarter_sin(DEG_QUARTER - t)
    } else if q == 2 {
        -spec_quarter_sin(t)
    } else {
        -spec_quarter_sin(DEG_QUARTER - t)
    }
}

/// Sine of `phi` fixed-point degrees.
pub open spec fn spec_sin_deg(phi: int) -> int {
    spec_sin_reduced(phi % (DEG_FULL as int))
}

/// Cosine of `phi` fixed-point degrees: the sine a quarter turn ahead.
pub open spec fn spec_cos_deg(phi: int) -> int {
    spec_sin_deg(phi + DEG_QUARTER)
}

/// Fixed-point product of small nonnegative values.
fn mulfx_small(a: u64, b: u64) -> (r: u64)
    requires
        a <= 1048576,
        b <= 1048576,
    ensures
        r == fx_prod(a as int, b as int),
        r <= 1048576,
{
    proof {
        assert((a as int) * (b as int) <= 1048576int * 1048576int) by (nonlinear_arith)
            requires
                0 <= a <= 1048576u64,
                0 <= b <= 1048576u64,
        ;
        lemma_div_is_ordered((a as int) * (b as int), 1048576int * 1048576int, 1048576);
    }
    (a * b) / 1048576
}

/// Converts fixed-point degrees in one half-quadrant to radians.
fn rad_of_deg(t: u64) -> (r: u64)
    requires
        t <= DEG_EIGHTH,
    ensures
        r == spec_rad_of_deg(t as int),
        r <= 823549,
{
    proof {
        assert((t as int) * 3294199int <= 47185920int * 3294199int) by (nonlinear_arith)
            requires
                0 <= t <= 47185920u64,
        ;
        lemma_div_is_ordered((t as int) * 3294199, 47185920int * 3294199int, 188743680);
    }
    (t * 3294199) / 188743680
}

/// Evaluates the sine Taylor polynomial.
fn sin_poly(x: u64) -> (r: i64)
    requires
        x <= 823549,
    ensures
        r == spec_sin_poly(x as int),
        -16777216 <= r <= 16777216,
{
    let x2: u64 = mulfx_small(x, x);
    let x3: u64 = mulfx_small(x2, x);
    let x5: u64 = mulfx_small(x3, x2);
    let x7: u64 = mulfx_small(x5, x2);
    let t3: u64 = x3 / 6;
    let t5: u64 = x5 / 120;
    let t7: u64 = x7 / 5040;
    (x as i64) - (t3 as i64) + (t5 as i64) - (t7 as i64)
}

/// Evaluates the cosine Taylor polynomial.
fn cos_poly(x: u64) -> (r: i64)
    requires
        x <= 823549,
    ensures
        r == spec_cos_poly(x as int),
        -16777216 <= r <= 16777216,
{
    let x2: u64 = mulfx_small(x, x);
    let x4: u64 = mulfx_small(x2, x2);
    let x6: u64 = mulfx_small(x4, x2);
    let x8: u64 = mulfx_small(x6, x2);
    let t2: u64 = x2 / 2;
    let t4: u64 = x4 / 24;
    let t6: u64 = x6 / 720;
    let t8: u64 = x8 / 40320;
    1048576i64 - (t2 as i64) + (t4 as i64) - (t6 as i64) + (t8 as i64)
}

/// Sine over one quadrant of fixed-point degrees.
fn quarter_sin(t: u64) -> (r: i64)
    requires
        t <= DEG_QUARTER,
    ensures
        r == spec_quarter_sin(t as int),
        -16777216 <= r <= 16777216,
{
    if t <= DEG_EIGHTH {
        let x = rad_of_deg(t);
        sin_poly(x)
    } else {
        let x = rad_of_deg(DEG_QUARTER - t);
        cos_poly(x)
    }
}

/// Magnitude of an `i64` as a `u64`.
fn mag_u64(a: i64) -> (r: u64)
    ensures
        r == crate::fixed::abs_int(a as int),
{
    if a >= 0 {
        a as u64
    } else {
        let wide: i128 = a as i128;
        (-wide) as u64
    }
}

/// Reduces an angle in fixed-point degrees into `[0, DEG_FULL)`.
fn reduce_deg(phi: i64) -> (m: u64)
    ensures
        m == (phi as int) % (DEG_FULL as int),
        m < DEG_FULL,
{
    let mag: u64 = mag_u64(phi);
    let r0: u64 = mag % DEG_FULL;
    if phi >= 0 {
        r0
    } else {
        proof {
            let p = DEG_FULL as int;
            let n = mag as int;
            lemma_fundamental_div_mod(n, p);
            let q0 = n / p;
            if r0 == 0 {
                assert(phi as int == (-q0) * p + 0) by (nonlinear_arith)
                    requires
                        phi as int == -n,
                        n == p * q0 + r0 as int,
                        r0 == 0u64,
                ;
                lemma_fundamental_div_mod_converse_mod(phi as int, p, -q0, 0);
            } else {
                assert(phi as int == (-q0 - 1) * p + (p - r0 as int)) by (nonlinear_arith)
                    requires
                        phi as int == -n,
                        n == p * q0 + r0 as int,
                        p == 377487360,
                ;
                lemma_fundamental_div_mod_converse_mod(phi as int, p, -q0 - 1, p - r0 as int);
            }
        }
        if r0 == 0 {
            0
        } else {
            DEG_FULL - r0
        }
    }
}

/// Sine of a reduced angle.
fn sin_reduced(m: u64) -> (r: i64)
    requires
        m < DEG_FULL,
    ensures
        r == spec_sin_reduced(m as int),
{
    let q: u64 = m / DEG_QUARTER;
    let t: u64 = m % DEG_QUARTER;
    if q == 0 {
        quarter_sin(t)
    } else if q == 1 {
        quarter_sin(DEG_QUARTER - t)
    } else if q == 2 {
        let s = quarter_sin(t);
        -s
    } else {
        let s = quarter_sin(DEG_QUARTER - t);
        -s
    }
}

/// Sine and cosine of an angle given in fixed-point degrees.
pub fn sin_cos_deg(phi: i64) -> (r: (i64, i64))
    ensures
        r.0 == spec_sin_deg(phi as int),
        r.1 == spec_cos_deg(phi as int),
{
    let m: u64 = reduce_deg(phi);
    let s: i64 = sin_reduced(m);
    let mc: u64 = (m + DEG_QUARTER) % DEG_FULL;
    proof {
        let p = DEG_FULL as int;
        let d = DEG_QUARTER as int;
        vstd::arithmetic::div_mod::lemma_add_mod_noop(phi as int, d, p);
        vstd::arithmetic::div_mod::lemma_small_mod(d as nat, p as nat);
    }
    let c: i64 = sin_reduced(mc);
    (s, c)
}

} // verus!
