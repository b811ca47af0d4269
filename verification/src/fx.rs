//! Fixed-point scalar arithmetic for the simulation.
//!
//! Every scalar quantity of the game (coordinates, speeds, angles in radians,
//! health, seconds) is a 64-bit signed fixed-point number with 32 fractional
//! bits.  All operations saturate at the i64 range, so they are total and
//! their results are pinned down exactly by the spec functions below.

use vstd::prelude::*;

verus! {

/// One unit (1.0) in fixed-point representation: 2^32.
pub const SCALE: i64 = 4294967296;

/// A quarter turn (pi/2 radians) in fixed-point representation.
pub const HALF_PI: i64 = 6746518852;

/// One 60 Hz tick (1/60 s) in fixed-point representation, rounded up.
pub const TICK_DT: i64 = 71582789;

/// Saturate an unbounded integer into the i64 range.
pub open spec fn sat64(x: int) -> int {
    if x > i64::MAX as int {
        i64::MAX as int
    } else if x < i64::MIN as int {
        i64::MIN as int
    } else {
        x
    }
}

/// Saturate a non-negative unbounded integer into the u64 range.
pub open spec fn sat_u64(x: int) -> int {
    if x > u64::MAX as int {
        u64::MAX as int
    } else {
        x
    }
}

pub open spec fn abs_int(x: int) -> int {
    if x < 0 {
        -x
    } else {
        x
    }
}

/// Saturating fixed-point addition.
pub open spec fn fx_add_s(a: int, b: int) -> int {
    sat64(a + b)
}

/// Saturating fixed-point subtraction.
pub open spec fn fx_sub_s(a: int, b: int) -> int {
    sat64(a - b)
}

/// Division by SCALE rounding toward zero, as the hardware division does.
pub open spec fn div_scale_s(p: int) -> int {
    if p >= 0 {
        p / (SCALE as int)
    } else {
        -((-p) / (SCALE as int))
    }
}

/// Saturating fixed-point multiplication: (a * b) / SCALE, rounded toward zero.
pub open spec fn fx_mul_s(a: int, b: int) -> int {
    sat64(div_scale_s(a * b))
}

/// Multiplication of a fixed-point number by the plain integer ten,
/// saturating.  The health of a shot decays by ten units per second.
pub open spec fn times10_s(a: int) -> int {
    sat64(10 * a)
}

pub fn fx_add(a: i64, b: i64) -> (r: i64)
    ensures
        r as int == fx_add_s(a as int, b as int),
{
    let s: i128 = a as i128 + b as i128;
    if s > i64::MAX as i128 {
        i64::MAX
    } else if s < i64::MIN as i128 {
        i64::MIN
    } else {
        s as i64
    }
}

pub fn fx_sub(a: i64, b: i64) -> (r: i64)
    ensures
        r as int == fx_sub_s(a as int, b as int),
{
    let s: i128 = a as i128 - b as i128;
    if s > i64::MAX as i128 {
        i64::MAX
    } else if s < i64::MIN as i128 {
        i64::MIN
    } else {
        s as i64
    }
}

pub fn times10(a: i64) -> (r: i64)
    ensures
        r as int == times10_s(a as int),
{
    let s: i128 = 10 * (a as i128);
    if s > i64::MAX as i128 {
        i64::MAX
    } else if s < i64::MIN as i128 {
        i64::MIN
    } else {
        s as i64
    }
}

/// The absolute value of an i64, widened so that i64::MIN needs no special case.
pub fn abs_to_u128(a: i64) -> (r: u128)
    ensures
        r as int == abs_int(a as int),
{
    if a >= 0 {
        a as u128
    } else {
        (-(a as i128)) as u128
    }
}

pub fn fx_mul(a: i64, b: i64) -> (r: i64)
    ensures
        r as int == fx_mul_s(a as int, b as int),
{
    let neg: bool = (a < 0) != (b < 0);
    let aa: u128 = abs_to_u128(a);
    let bb: u128 = abs_to_u128(b);
    proof {
        assert(aa * bb == abs_int((a as int) * (b as int))) by (nonlinear_arith)
            requires
                aa == abs_int(a as int),
                bb == abs_int(b as int),
        ;
        assert(aa * bb < 0x100000000000000000000000000000000) by (nonlinear_arith)
            requires
                aa <= 0x8000000000000000,
                bb <= 0x8000000000000000,
        ;
    }
    let p: u128 = aa * bb;
    let q: u128 = p / (SCALE as u128);
    proof {
        let ab: int = (a as int) * (b as int);
        assert((neg && ab <= 0) || (!neg && ab >= 0)) by (nonlinear_arith)
            requires
                neg == ((a < 0) != (b < 0)),
                ab == (a as int) * (b as int),
        ;
        assert(q == abs_int(ab) / (SCALE as int));
        if ab >= 0 {
            assert(abs_int(ab) == ab);
            assert(div_scale_s(ab) == q);
        } else {
            assert(abs_int(ab) == -ab);
            assert(div_scale_s(ab) == -(q as int));
        }
        assert(q >= 0);
    }
    if neg {
        if q >= 9223372036854775808u128 {
            i64::MIN
        } else {
            -(q as i64)
        }
    } else {
        if q > i64::MAX as u128 {
            i64::MAX
        } else {
            q as i64
        }
    }
}

/// The integer square root: the greatest r with r * r <= n.
pub open spec fn isqrt_s(n: nat) -> nat
    decreases n,
{
    if n == 0 {
        0
    } else {
        let h = isqrt_s(n / 4);
        if (2 * h + 1) * (2 * h + 1) <= n {
            2 * h + 1
        } else {
            2 * h
        }
    }
}

pub proof fn lemma_isqrt_bounds(n: nat)
    ensures
        isqrt_s(n) * isqrt_s(n) <= n,
        n < (isqrt_s(n) + 1) * (isqrt_s(n) + 1),
    decreases n,
{
    if n == 0 {
        assert(isqrt_s(0) == 0);
        assert((0 as nat) * (0 as nat) == 0 && ((0 as nat) + 1) * ((0 as nat) + 1) == 1)
            by (nonlinear_arith);
    } else {
        let h = isqrt_s(n / 4);
        lemma_isqrt_bounds(n / 4);
        vstd::arithmetic::div_mod::lemma_fundamental_div_mod(n as int, 4);
        let r = isqrt_s(n);
        if (2 * h + 1) * (2 * h + 1) <= n {
            assert(r == 2 * h + 1);
            assert(r * r <= n);
            assert(n < (r + 1) * (r + 1)) by (nonlinear_arith)
                requires
                    r == 2 * h + 1,
                    n / 4 < (h + 1) * (h + 1),
                    n == 4 * (n / 4) + n % 4,
                    n % 4 < 4,
            ;
        } else {
            assert(r == 2 * h);
            assert(r * r <= n) by (nonlinear_arith)
                requires
                    r == 2 * h,
                    h * h <= n / 4,
                    n == 4 * (n / 4) + n % 4,
                    0 <= n % 4,
            ;
            assert(n < (r + 1) * (r + 1)) by (nonlinear_arith)
                requires
                    r == 2 * h,
                    n < (2 * h + 1) * (2 * h + 1),
            ;
        }
    }
}

pub proof fn lemma_isqrt_unique(n: nat, r: nat)
    requires
        r * r <= n,
        n < (r + 1) * (r + 1),
    ensures
        r == isqrt_s(n),
{
    let s = isqrt_s(n);
    lemma_isqrt_bounds(n);
    if r < s {
        assert(false) by (nonlinear_arith)
            requires
                r < s,
                s * s <= n,
                n < (r + 1) * (r + 1),
        ;
    }
    if s < r {
        assert(false) by (nonlinear_arith)
            requires
                s < r,
                r * r <= n,
                n < (s + 1) * (s + 1),
        ;
    }
}

pub fn isqrt(n: u128) -> (r: u128)
    ensures
        r as nat == isqrt_s(n as nat),
{
    if n == 0 {
        proof {
            assert(isqrt_s(0) == 0);
        }
        return 0;
    }
    let mut lo: u128 = 0;
    let mut hi: u128 = 0x10000000000000000;
    proof {
        assert((n as int) < (hi as int) * (hi as int)) by (nonlinear_arith)
            requires
                hi == 0x10000000000000000,
                n <= u128::MAX,
        ;
    }
    while lo + 1 < hi
        invariant
            lo < hi,
            hi <= 0x10000000000000000,
            (lo as int) * (lo as int) <= n as int,
            (n as int) < (hi as int) * (hi as int),
        decreases hi - lo,
    {
        let mid: u128 = lo + (hi - lo) / 2;
        proof {
            assert(lo < mid < hi);
            assert((mid as int) * (mid as int) < 0x100000000000000000000000000000000) by (nonlinear_arith)
                requires
                    mid < 0x10000000000000000,
            ;
        }
        if mid * mid <= n {
            lo = mid;
        } else {
            hi = mid;
        }
    }
    proof {
        assert((n as int) < ((lo + 1) as int) * ((lo + 1) as int));
        lemma_isqrt_unique(n as nat, lo as nat);
    }
    lo
}

/// The value of cordic::sin at a given angle, both as I32F32 bit patterns.
pub uninterp spec fn sin_of(bits: i64) -> i64;

/// The value of cordic::cos at a given angle, both as I32F32 bit patterns.
pub uninterp spec fn cos_of(bits: i64) -> i64;

/// Relies on cordic::sin over fixed::types::I32F32: the result depends on the
/// angle bits alone.  The angle and the result are fixed-point numbers with
/// the same layout as every scalar of this crate.
#[verifier::external_body]
pub fn fx_sin(h: i64) -> (r: i64)
    ensures
        r == sin_of(h),
{
    cordic::sin(fixed::types::I32F32::from_bits(h)).to_bits()
}

/// Relies on cordic::cos over fixed::types::I32F32: the result depends on the
/// angle bits alone.
#[verifier::external_body]
pub fn fx_cos(h: i64) -> (r: i64)
    ensures
        r == cos_of(h),
{
    cordic::cos(fixed::types::I32F32::from_bits(h)).to_bits()
}

} // verus!
