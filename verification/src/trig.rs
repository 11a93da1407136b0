//! Fixed-point angle arithmetic.
//!
//! Angles are integers in millidegrees (1/1000 of a degree) or, for the
//! higher-precision astronomical terms, microdegrees.  Ratios such as sine
//! values are integers scaled by 1_000_000, so that 1.0 is `SCALE`.
//! The sine is computed by Bhaskara's quadratic rational approximation,
//! which is exact at 0, 90 and 180 degrees, stays within [-SCALE, SCALE],
//! and is monotone on each quarter turn.

use vstd::prelude::*;
use vstd::arithmetic::div_mod::{
    lemma_fundamental_div_mod, lemma_fundamental_div_mod_converse, lemma_div_is_ordered,
    lemma_div_is_ordered_by_denominator, lemma_small_mod,
};

verus! {

/// 1.0 in the fixed-point scale used for sines, cosines and phase fractions.
pub const SCALE: i64 = 1_000_000;

/// A full turn in millidegrees.
pub const FULL_TURN_MDEG: u64 = 360_000;

/// Euclidean remainder of `x` modulo `m`: the unique representative in `[0, m)`.
pub fn rem_euclid_i128(x: i128, m: u64) -> (r: u64)
    requires
        m > 0,
        x > i128::MIN,
    ensures
        r == (x as int) % (m as int),
        r < m,
{
    if x >= 0 {
        let q: u128 = (x as u128) % (m as u128);
        q as u64
    } else {
        let a: u128 = (-x) as u128;
        let rm: u128 = a % (m as u128);
        proof {
            let ai = a as int;
            let mi = m as int;
            lemma_fundamental_div_mod(ai, mi);
            let qq = ai / mi;
            let rr = ai % mi;
            assert(ai == mi * qq + rr);
            assert(x as int == -ai);
            if rr == 0 {
                assert(x as int == (-qq) * mi + 0) by (nonlinear_arith)
                    requires
                        x as int == -ai,
                        ai == mi * qq + rr,
                        rr == 0,
                ;
                lemma_fundamental_div_mod_converse(x as int, mi, -qq, 0);
            } else {
                assert(x as int == (-qq - 1) * mi + (mi - rr)) by (nonlinear_arith)
                    requires
                        x as int == -ai,
                        ai == mi * qq + rr,
                ;
                lemma_fundamental_div_mod_converse(x as int, mi, -qq - 1, mi - rr);
            }
        }
        if rm == 0 {
            0
        } else {
            m - (rm as u64)
        }
    }
}

/// The product `x * (180000 - x)`, the quadratic kernel of the sine
/// approximation for `x` in millidegrees on the half turn `[0, 180000]`.
pub open spec fn sine_kernel(x: int) -> int {
    x * (180000 - x)
}

/// Sine on the first half turn, scaled by `SCALE`; domain `[0, 180000]`.
pub open spec fn spec_sin_half(x: int) -> int {
    4000000 * sine_kernel(x) / (40500000000 - sine_kernel(x))
}

/// Sine on a full turn, scaled by `SCALE`; domain `[0, 360000)`.
pub open spec fn spec_sin_mdeg(x: int) -> int {
    if x <= 180000 {
        spec_sin_half(x)
    } else {
        -spec_sin_half(x - 180000)
    }
}

/// Cosine on a full turn, scaled by `SCALE`; domain `[0, 360000)`.
pub open spec fn spec_cos_mdeg(x: int) -> int {
    spec_sin_mdeg((x + 90000) % 360000)
}

pub proof fn lemma_kernel_bounds(x: int)
    requires
        0 <= x <= 180000,
    ensures
        0 <= sine_kernel(x) <= 8100000000,
        x == 90000 ==> sine_kernel(x) == 8100000000,
{
    assert(0 <= x * (180000 - x) <= 8100000000) by (nonlinear_arith)
        requires
            0 <= x <= 180000,
    ;
    if x == 90000 {
        assert(sine_kernel(90000) == 90000 * (180000 - 90000));
    }
}

pub proof fn lemma_kernel_monotone(x1: int, x2: int)
    requires
        0 <= x1 <= x2 <= 90000,
    ensures
        sine_kernel(x1) <= sine_kernel(x2),
{
    assert(x1 * (180000 - x1) <= x2 * (180000 - x2)) by (nonlinear_arith)
        requires
            0 <= x1 <= x2 <= 90000,
    ;
}

pub proof fn lemma_kernel_symmetric(x: int)
    requires
        0 <= x <= 180000,
    ensures
        sine_kernel(x) == sine_kernel(180000 - x),
{
    assert(x * (180000 - x) == (180000 - x) * (180000 - (180000 - x))) by (nonlinear_arith);
}

/// The scaled sine is ordered as its kernel is.
pub proof fn lemma_sin_half_monotone_in_kernel(p1: int, p2: int)
    requires
        0 <= p1 <= p2 <= 8100000000,
    ensures
        4000000 * p1 / (40500000000 - p1) <= 4000000 * p2 / (40500000000 - p2),
{
    let n1 = 4000000 * p1;
    let n2 = 4000000 * p2;
    let d1 = 40500000000 - p1;
    let d2 = 40500000000 - p2;
    assert(n1 <= n2);
    assert(1 <= d2 <= d1);
    assert(n1 >= 0);
    lemma_div_is_ordered_by_denominator(n1, d2, d1);
    lemma_div_is_ordered(n1, n2, d2);
}

pub proof fn lemma_sin_half_bounds(x: int)
    requires
        0 <= x <= 180000,
    ensures
        0 <= spec_sin_half(x) <= 1000000,
        x == 0 ==> spec_sin_half(x) == 0,
        x == 90000 ==> spec_sin_half(x) == 1000000,
        x == 180000 ==> spec_sin_half(x) == 0,
{
    lemma_kernel_bounds(x);
    let p = sine_kernel(x);
    lemma_sin_half_monotone_in_kernel(0, p);
    lemma_sin_half_monotone_in_kernel(p, 8100000000);
    assert(4000000 * 0int / (40500000000 - 0) == 0);
    assert(4000000 * 8100000000int / (40500000000 - 8100000000) == 1000000);
    if x == 0 {
        assert(sine_kernel(0) == 0) by (nonlinear_arith);
    }
    if x == 180000 {
        assert(sine_kernel(180000) == 180000 * (180000 - 180000));
    }
    if x == 90000 {
        assert(sine_kernel(90000) == 90000 * (180000 - 90000));
    }
}

/// Monotonicity of the scaled sine on the first quarter turn.
pub proof fn lemma_sin_half_monotone(x1: int, x2: int)
    requires
        0 <= x1 <= x2 <= 90000,
    ensures
        spec_sin_half(x1) <= spec_sin_half(x2),
{
    lemma_kernel_monotone(x1, x2);
    lemma_kernel_bounds(x1);
    lemma_kernel_bounds(x2);
    lemma_sin_half_monotone_in_kernel(sine_kernel(x1), sine_kernel(x2));
}

/// Mirror symmetry of the scaled sine about the quarter turn.
pub proof fn lemma_sin_half_symmetric(x: int)
    requires
        0 <= x <= 180000,
    ensures
        spec_sin_half(x) == spec_sin_half(180000 - x),
{
    lemma_kernel_symmetric(x);
}

pub proof fn lemma_sin_mdeg_bounds(x: int)
    requires
        0 <= x < 360000,
    ensures
        -1000000 <= spec_sin_mdeg(x) <= 1000000,
{
    if x <= 180000 {
        lemma_sin_half_bounds(x);
    } else {
        lemma_sin_half_bounds(x - 180000);
    }
}

pub proof fn lemma_cos_mdeg_bounds(x: int)
    requires
        0 <= x < 360000,
    ensures
        -1000000 <= spec_cos_mdeg(x) <= 1000000,
{
    vstd::arithmetic::div_mod::lemma_mod_bound(x + 90000, 360000);
    lemma_sin_mdeg_bounds((x + 90000) % 360000);
}

/// On the first half turn the cosine does not increase.
pub proof fn lemma_cos_antitone_first_half(a1: int, a2: int)
    requires
        0 <= a1 <= a2 <= 180000,
    ensures
        spec_cos_mdeg(a2) <= spec_cos_mdeg(a1),
{
    lemma_small_mod((a1 + 90000) as nat, 360000nat);
    lemma_small_mod((a2 + 90000) as nat, 360000nat);
    if a2 <= 90000 {
        lemma_sin_half_symmetric(a1 + 90000);
        lemma_sin_half_symmetric(a2 + 90000);
        lemma_sin_half_monotone(90000 - a2, 90000 - a1);
    } else if a1 > 90000 {
        lemma_sin_half_monotone(a1 - 90000, a2 - 90000);
    } else {
        lemma_sin_half_symmetric(a1 + 90000);
        lemma_sin_half_bounds(90000 - a1);
        if a2 + 90000 <= 180000 {
            lemma_sin_half_bounds(a2 + 90000);
            lemma_sin_half_symmetric(a2 + 90000);
            lemma_sin_half_monotone(90000 - a2, 90000 - a1);
        } else {
            lemma_sin_half_bounds(a2 - 90000);
        }
    }
}

/// On the second half turn the cosine does not decrease.
pub proof fn lemma_cos_monotone_second_half(a1: int, a2: int)
    requires
        180000 <= a1 <= a2 < 360000,
    ensures
        spec_cos_mdeg(a1) <= spec_cos_mdeg(a2),
{
    if a1 < 270000 {
        lemma_small_mod((a1 + 90000) as nat, 360000nat);
        lemma_sin_half_symmetric(a1 - 90000);
        lemma_sin_half_bounds(270000 - a1);
    } else {
        lemma_fundamental_div_mod_converse(a1 + 90000, 360000, 1, a1 - 270000);
        lemma_sin_half_bounds(a1 - 270000);
    }
    if a2 < 270000 {
        lemma_small_mod((a2 + 90000) as nat, 360000nat);
        lemma_sin_half_symmetric(a2 - 90000);
        lemma_sin_half_bounds(270000 - a2);
    } else {
        lemma_fundamental_div_mod_converse(a2 + 90000, 360000, 1, a2 - 270000);
        lemma_sin_half_bounds(a2 - 270000);
    }
    if a2 < 270000 {
        lemma_sin_half_monotone(270000 - a2, 270000 - a1);
    } else if a1 >= 270000 {
        lemma_sin_half_monotone(a1 - 270000, a2 - 270000);
    }
}

/// Sine of an angle in millidegrees, scaled by `SCALE`.
pub fn sin_mdeg(x: u64) -> (s: i64)
    requires
        x < 360000,
    ensures
        s == spec_sin_mdeg(x as int),
        -1000000 <= s <= 1000000,
{
    if x <= 180000 {
        sin_half(x)
    } else {
        -sin_half(x - 180000)
    }
}

/// Cosine of an angle in millidegrees, scaled by `SCALE`.
pub fn cos_mdeg(x: u64) -> (c: i64)
    requires
        x < 360000,
    ensures
        c == spec_cos_mdeg(x as int),
        -1000000 <= c <= 1000000,
{
    proof {
        if x < 270000 {
            lemma_small_mod((x + 90000) as nat, 360000nat);
        } else {
            lemma_fundamental_div_mod_converse(x as int + 90000, 360000, 1, x as int - 270000);
        }
    }
    if x < 270000 {
        sin_mdeg(x + 90000)
    } else {
        sin_mdeg(x - 270000)
    }
}

fn sin_half(x: u64) -> (s: i64)
    requires
        x <= 180000,
    ensures
        s == spec_sin_half(x as int),
        0 <= s <= 1000000,
{
    proof {
        lemma_kernel_bounds(x as int);
        lemma_sin_half_bounds(x as int);
    }
    let p: u64 = x * (180000 - x);
    let num: u64 = 4000000 * p;
    let den: u64 = 40500000000 - p;
    let r: u64 = num / den;
    r as i64
}

/// Euclidean quotient of `x` by `d`: rounds toward minus infinity for a
/// positive divisor, matching the `/` of specifications.
pub fn div_euclid_i64(x: i64, d: u64) -> (q: i64)
    requires
        0 < d <= 0x7fff_ffff_ffff_ffff,
        x > i64::MIN,
    ensures
        q == (x as int) / (d as int),
{
    if x >= 0 {
        let r: u64 = (x as u64) / d;
        proof {
            lemma_div_is_ordered(x as int, 0x7fff_ffff_ffff_ffffint, d as int);
            lemma_div_is_ordered_by_denominator(0x7fff_ffff_ffff_ffffint, 1, d as int);
        }
        r as i64
    } else {
        let a: u64 = (-x) as u64;
        let qq: u64 = a / d;
        let rm: u64 = a % d;
        proof {
            let ai = a as int;
            let di = d as int;
            lemma_fundamental_div_mod(ai, di);
            if rm == 0 {
                assert(x as int == (-(qq as int)) * di + 0) by (nonlinear_arith)
                    requires
                        x as int == -ai,
                        ai == di * (qq as int) + 0,
                ;
                lemma_fundamental_div_mod_converse(x as int, di, -(qq as int), 0);
            } else {
                assert(x as int == (-(qq as int) - 1) * di + (di - rm as int)) by (nonlinear_arith)
                    requires
                        x as int == -ai,
                        ai == di * (qq as int) + rm as int,
                ;
                lemma_fundamental_div_mod_converse(x as int, di, -(qq as int) - 1, di - rm as int);
            }
            lemma_div_is_ordered(ai, 0x7fff_ffff_ffff_ffffint, di);
            lemma_div_is_ordered_by_denominator(0x7fff_ffff_ffff_ffffint, 1, di);
        }
        if rm == 0 {
            -(qq as i64)
        } else {
            -(qq as i64) - 1
        }
    }
}

/// Holds when `r` is the integer square root of `n`.
pub open spec fn is_int_sqrt(n: int, r: int) -> bool {
    0 <= r && r * r <= n && n < (r + 1) * (r + 1)
}

/// The integer square root of a nonnegative `n`.
pub open spec fn spec_isqrt(n: int) -> int {
    choose|r: int| is_int_sqrt(n, r)
}

pub proof fn lemma_isqrt_unique(n: int, r1: int, r2: int)
    requires
        is_int_sqrt(n, r1),
        is_int_sqrt(n, r2),
    ensures
        r1 == r2,
{
    assert(r1 == r2) by (nonlinear_arith)
        requires
            0 <= r1 && r1 * r1 <= n && n < (r1 + 1) * (r1 + 1),
            0 <= r2 && r2 * r2 <= n && n < (r2 + 1) * (r2 + 1),
    ;
}

/// Whatever satisfies the square-root property is `spec_isqrt`.
pub proof fn lemma_isqrt_is(n: int, r: int)
    requires
        is_int_sqrt(n, r),
    ensures
        spec_isqrt(n) == r,
{
    assert(is_int_sqrt(n, spec_isqrt(n))) by {
        assert(exists|rr: int| is_int_sqrt(n, rr));
    }
    lemma_isqrt_unique(n, spec_isqrt(n), r);
}

/// Integer square root: the greatest `r` with `r * r <= n`.
pub fn isqrt_u64(n: u64) -> (r: u64)
    requires
        n < 0x8000_0000_0000_0000,
    ensures
        r * r <= n < (r + 1) * (r + 1),
        r == spec_isqrt(n as int),
{
    let mut lo: u64 = 0;
    let mut hi: u64 = 3037000500;
    if n < hi {
        hi = n + 1;
        proof {
            assert((n as int + 1) * (n as int + 1) > n as int) by (nonlinear_arith);
        }
    }
    proof {
        assert(3037000500int * 3037000500int > 0x8000_0000_0000_0000int);
    }
    while lo + 1 < hi
        invariant
            lo < hi,
            lo * lo <= n,
            hi * hi > n,
            hi <= 3037000500,
        decreases hi - lo,
    {
        let mid: u64 = lo + (hi - lo) / 2;
        proof {
            assert(mid as int * mid as int <= 3037000500int * 3037000500int) by (nonlinear_arith)
                requires
                    0 <= mid as int <= 3037000500int,
            ;
        }
        if mid * mid <= n {
            lo = mid;
        } else {
            hi = mid;
        }
    }
    proof {
        lemma_isqrt_is(n as int, lo as int);
    }
    lo
}

} // verus!
