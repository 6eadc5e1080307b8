//! Fixed-point arithmetic used throughout the engine.
//!
//! Continuous quantities (coordinates, matrix coefficients, intensities and
//! linear light levels) are represented as signed 64-bit fixed-point numbers
//! with [`FX_ONE`] scale units to one whole unit.  All operations saturate to
//! the `i64` range instead of wrapping, so every function here is total.

use vstd::arithmetic::div_mod::lemma_div_by_multiple;
use vstd::prelude::*;

verus! {

/// Number of scale units in one whole unit of the fixed-point domain.
pub const FX_ONE: i64 = 1048576;

/// Half of one whole unit, used for round-to-nearest quantization.
pub const FX_HALF: i64 = 524288;

/// Absolute value of an unbounded integer.
pub open spec fn abs_int(v: int) -> int {
    if v < 0 {
        -v
    } else {
        v
    }
}

/// Clamps an unbounded integer into the `i64` range.
pub open spec fn fx_clamp(v: int) -> int {
    if v > i64::MAX {
        i64::MAX as int
    } else if v < i64::MIN {
        i64::MIN as int
    } else {
        v
    }
}

/// Quotient of `p / d` rounded toward zero, as computed by machine division.
/// Meaningful only for `d != 0`.
pub open spec fn trunc_div(p: int, d: int) -> int {
    let q = abs_int(p) / abs_int(d);
    if (p < 0) != (d < 0) {
        -q
    } else {
        q
    }
}

/// Saturating fixed-point (and plain integer) addition.
pub open spec fn spec_sat_add(a: int, b: int) -> int {
    fx_clamp(a + b)
}

/// Saturating fixed-point (and plain integer) subtraction.
pub open spec fn spec_sat_sub(a: int, b: int) -> int {
    fx_clamp(a - b)
}

/// Saturating fixed-point multiplication: the exact product scaled back by
/// [`FX_ONE`] with truncation toward zero, clamped to the `i64` range.
pub open spec fn spec_fx_mul(a: int, b: int) -> int {
    fx_clamp(trunc_div(a * b, FX_ONE as int))
}

/// Saturating fixed-point division: the exact quotient scaled up by
/// [`FX_ONE`] with truncation toward zero, clamped to the `i64` range.
/// Meaningful only for `b != 0`.
pub open spec fn spec_fx_div(a: int, b: int) -> int {
    fx_clamp(trunc_div(a * (FX_ONE as int), b))
}

/// Integer square root: the greatest `r` with `r * r <= v`.
pub open spec fn spec_isqrt(v: nat) -> nat
    decreases v,
{
    if v == 0 {
        0
    } else {
        let r = spec_isqrt((v - 1) as nat);
        if (r + 1) * (r + 1) <= v {
            r + 1
        } else {
            r
        }
    }
}

/// Fixed-point square root of a value in `[0, FX_ONE]`.
pub open spec fn spec_fx_sqrt(v: int) -> int {
    spec_isqrt((v * (FX_ONE as int)) as nat) as int
}

/// Clamps a fixed-point value into the unit interval `[0, FX_ONE]`.
pub open spec fn spec_clamp_unit(v: int) -> int {
    if v < 0 {
        0
    } else if v > FX_ONE {
        FX_ONE as int
    } else {
        v
    }
}

/// Saturating addition on `i64`.
pub fn sat_add(a: i64, b: i64) -> (r: i64)
    ensures
        r == spec_sat_add(a as int, b as int),
{
    match a.checked_add(b) {
        Some(v) => v,
        None => {
            if b > 0 {
                i64::MAX
            } else {
                i64::MIN
            }
        },
    }
}

/// Saturating subtraction on `i64`.
pub fn sat_sub(a: i64, b: i64) -> (r: i64)
    ensures
        r == spec_sat_sub(a as int, b as int),
{
    match a.checked_sub(b) {
        Some(v) => v,
        None => {
            if b < 0 {
                i64::MAX
            } else {
                i64::MIN
            }
        },
    }
}

/// Magnitude of an `i64` as a `u128`.
fn abs_u128(a: i64) -> (r: u128)
    ensures
        r == abs_int(a as int),
        r <= 9223372036854775808u128,
{
    if a >= 0 {
        a as u128
    } else {
        let wide: i128 = a as i128;
        (-wide) as u128
    }
}

/// Applies a sign to an unsigned magnitude and clamps into the `i64` range.
fn clamp_signed(q: u128, neg: bool) -> (r: i64)
    ensures
        r == fx_clamp(
            if neg {
                -(q as int)
            } else {
                q as int
            },
        ),
{
    if neg {
        if q >= 9223372036854775808u128 {
            i64::MIN
        } else {
            -(q as i64)
        }
    } else {
        if q > i64::MAX as u128 {
            i64::MAX
        } else {
            q as i64
        }
    }
}

/// Magnitude of an `i64` as a `u64`.
pub fn i64_mag(a: i64) -> (r: u64)
    ensures
        r == abs_int(a as int),
{
    if a >= 0 {
        a as u64
    } else {
        let wide: i128 = a as i128;
        (-wide) as u64
    }
}

/// Saturating sum of the magnitudes of two `i64` values.
pub fn sat_abs_sum(a: i64, b: i64) -> (r: i64)
    ensures
        r == spec_sat_add(abs_int(a as int), abs_int(b as int)),
        r >= 0,
{
    let ma: u128 = abs_u128(a);
    let mb: u128 = abs_u128(b);
    clamp_signed(ma + mb, false)
}

/// The magnitude of a product is the product of the magnitudes.
proof fn lemma_abs_mul(a: int, b: int)
    ensures
        abs_int(a * b) == abs_int(a) * abs_int(b),
{
    assert(abs_int(a * b) == abs_int(a) * abs_int(b)) by (nonlinear_arith);
}

/// The sign of a product follows the signs of its factors.
proof fn lemma_mul_sign(a: int, b: int)
    ensures
        a == 0 || b == 0 ==> a * b == 0,
        a > 0 && b > 0 ==> a * b > 0,
        a < 0 && b < 0 ==> a * b > 0,
        a > 0 && b < 0 ==> a * b < 0,
        a < 0 && b > 0 ==> a * b < 0,
{
    assert(a == 0 || b == 0 ==> a * b == 0) by (nonlinear_arith);
    assert(a > 0 && b > 0 ==> a * b > 0) by (nonlinear_arith);
    assert(a < 0 && b < 0 ==> a * b > 0) by (nonlinear_arith);
    assert(a > 0 && b < 0 ==> a * b < 0) by (nonlinear_arith);
    assert(a < 0 && b > 0 ==> a * b < 0) by (nonlinear_arith);
}

/// Saturating fixed-point multiplication.
pub fn fx_mul(a: i64, b: i64) -> (r: i64)
    ensures
        r == spec_fx_mul(a as int, b as int),
{
    let neg: bool = (a < 0) != (b < 0);
    let ma: u128 = abs_u128(a);
    let mb: u128 = abs_u128(b);
    proof {
        assert((ma as int) * (mb as int) <= 9223372036854775808int * 9223372036854775808int)
            by (nonlinear_arith)
            requires
                0 <= ma <= 9223372036854775808u128,
                0 <= mb <= 9223372036854775808u128,
        ;
    }
    let q: u128 = (ma * mb) / (FX_ONE as u128);
    proof {
        lemma_abs_mul(a as int, b as int);
        lemma_mul_sign(a as int, b as int);
    }
    clamp_signed(q, neg)
}

/// Saturating fixed-point division.
pub fn fx_div(a: i64, b: i64) -> (r: i64)
    requires
        b != 0,
    ensures
        r == spec_fx_div(a as int, b as int),
{
    let neg: bool = (a < 0) != (b < 0);
    let ma: u128 = abs_u128(a);
    let mb: u128 = abs_u128(b);
    proof {
        assert(FX_ONE as u128 == 1048576u128);
        assert((ma as int) * 1048576int <= 9223372036854775808int * 1048576int)
            by (nonlinear_arith)
            requires
                0 <= ma <= 9223372036854775808u128,
        ;
    }
    let q: u128 = (ma * (FX_ONE as u128)) / mb;
    proof {
        lemma_abs_mul(a as int, FX_ONE as int);
        lemma_mul_sign(a as int, FX_ONE as int);
    }
    clamp_signed(q, neg)
}

/// The recursive integer square root satisfies its defining bounds.
pub proof fn lemma_isqrt_bounds(v: nat)
    ensures
        spec_isqrt(v) * spec_isqrt(v) <= v,
        v < (spec_isqrt(v) + 1) * (spec_isqrt(v) + 1),
    decreases v,
{
    if v == 0 {
        assert(spec_isqrt(0nat) == 0);
        assert((spec_isqrt(v) + 1) * (spec_isqrt(v) + 1) == 1) by (nonlinear_arith)
            requires
                spec_isqrt(v) == 0,
        ;
    } else {
        lemma_isqrt_bounds((v - 1) as nat);
        let r = spec_isqrt((v - 1) as nat);
        assert(r * r <= v - 1);
        assert(v - 1 < (r + 1) * (r + 1));
        if (r + 1) * (r + 1) <= v {
            assert(spec_isqrt(v) == r + 1);
            assert(v < (r + 2) * (r + 2)) by (nonlinear_arith)
                requires
                    v <= (r + 1) * (r + 1),
                    r >= 0,
            ;
            assert((spec_isqrt(v) + 1) * (spec_isqrt(v) + 1) == (r + 2) * (r + 2));
        } else {
            assert(spec_isqrt(v) == r);
            assert(r * r <= v);
            assert(v < (r + 1) * (r + 1));
        }
    }
}

/// Any `r` within the defining bounds is the integer square root.
pub proof fn lemma_isqrt_unique(v: nat, r: nat)
    requires
        r * r <= v,
        v < (r + 1) * (r + 1),
    ensures
        r == spec_isqrt(v),
{
    let s = spec_isqrt(v);
    lemma_isqrt_bounds(v);
    if r < s {
        assert((r + 1) * (r + 1) <= s * s) by (nonlinear_arith)
            requires
                r + 1 <= s,
                r >= 0,
        ;
    }
    if s < r {
        assert((s + 1) * (s + 1) <= r * r) by (nonlinear_arith)
            requires
                s + 1 <= r,
                s >= 0,
        ;
    }
}

/// Integer square root of a `u64`, by binary search.
pub fn isqrt64(v: u64) -> (r: u64)
    ensures
        r == spec_isqrt(v as nat),
        r * r <= v,
        v < (r + 1) * (r + 1),
{
    let mut lo: u64 = 0;
    let mut hi: u64 = 4294967296;
    assert(v < hi * hi) by (nonlinear_arith)
        requires
            v <= u64::MAX,
            hi == 4294967296,
    ;
    while lo + 1 < hi
        invariant
            lo < hi,
            hi <= 4294967296,
            lo * lo <= v,
            v < hi * hi,
        decreases hi - lo,
    {
        let mid: u64 = lo + (hi - lo) / 2;
        proof {
            assert((mid as int) * (mid as int) <= 4294967295int * 4294967295int)
                by (nonlinear_arith)
                requires
                    0 <= mid <= 4294967295u64,
            ;
        }
        if mid * mid <= v {
            lo = mid;
        } else {
            hi = mid;
        }
    }
    proof {
        lemma_isqrt_unique(v as nat, lo as nat);
    }
    lo
}

/// Fixed-point square root on the unit interval.
pub fn fx_sqrt(v: i64) -> (r: i64)
    requires
        0 <= v <= FX_ONE,
    ensures
        r == spec_fx_sqrt(v as int),
        0 <= r <= FX_ONE,
{
    proof {
        assert(FX_ONE as u64 == 1048576u64);
    }
    let x: u64 = (v as u64) * (FX_ONE as u64);
    let s: u64 = isqrt64(x);
    proof {
        assert(s <= 1048576u64) by (nonlinear_arith)
            requires
                x <= 1099511627776u64,
                s * s <= x,
                s >= 0,
        ;
    }
    s as i64
}

/// Clamps a fixed-point value into the unit interval.
pub fn fx_clamp_unit(v: i64) -> (r: i64)
    ensures
        r == spec_clamp_unit(v as int),
{
    if v < 0 {
        0
    } else if v > FX_ONE {
        FX_ONE
    } else {
        v
    }
}

/// Exact division: a product of the divisor divides without truncation.
pub proof fn lemma_trunc_div_exact(k: int, d: int)
    requires
        d > 0,
    ensures
        trunc_div(k * d, d) == k,
{
    lemma_abs_mul(k, d);
    lemma_mul_sign(k, d);
    lemma_div_by_multiple(abs_int(k), d);
}

/// Multiplying by one whole unit is the identity.
pub proof fn lemma_fx_mul_one(a: int)
    requires
        i64::MIN <= a <= i64::MAX,
    ensures
        spec_fx_mul(a, FX_ONE as int) == a,
        spec_fx_mul(FX_ONE as int, a) == a,
{
    lemma_trunc_div_exact(a, FX_ONE as int);
}

/// Multiplying by zero yields zero.
pub proof fn lemma_fx_mul_zero(a: int)
    ensures
        spec_fx_mul(a, 0) == 0,
        spec_fx_mul(0, a) == 0,
{
    lemma_abs_mul(a, 0);
}

} // verus!
