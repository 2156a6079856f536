//! Saturating fixed-point scalars.
//!
//! A scalar is an `i64` holding `value * FP_ONE`.  Every operation
//! saturates at the `i64` bounds, so all operations are total; the
//! saturated extremes play the role that signed infinities play in
//! floating-point arithmetic (a division by zero yields the extreme of
//! the dividend's sign).  Quotients round toward zero.

use vstd::arithmetic::div_mod::lemma_div_is_ordered;
use vstd::prelude::*;

verus! {

/// Number of fractional steps in one unit: a scalar stores
/// `round(value * FP_ONE)`.
pub const FP_ONE: i64 = 65536;

/// `1/2` and `2`, scaled by `FP_ONE`.
pub const HALF_FP: i64 = 32768;

pub const TWO_FP: i64 = 131072;

/// Saturation to the representable range.
pub open spec fn fp_clip(x: int) -> int {
    if x > i64::MAX as int {
        i64::MAX as int
    } else if x < i64::MIN as int {
        i64::MIN as int
    } else {
        x
    }
}

pub open spec fn abs_i(x: int) -> int {
    if x < 0 {
        -x
    } else {
        x
    }
}

/// Quotient of `a` by `b` rounded toward zero (the rounding of the
/// scaling operations below); meaningful only for `b != 0`.
pub open spec fn dtz(a: int, b: int) -> int
    recommends
        b != 0,
{
    let q = abs_i(a) / abs_i(b);
    if (a < 0) != (b < 0) {
        -q
    } else {
        q
    }
}

pub open spec fn fp_add_s(a: int, b: int) -> int {
    fp_clip(a + b)
}

pub open spec fn fp_sub_s(a: int, b: int) -> int {
    fp_clip(a - b)
}

pub open spec fn fp_neg_s(a: int) -> int {
    fp_clip(-a)
}

pub open spec fn fp_mul_s(a: int, b: int) -> int {
    fp_clip(dtz(a * b, FP_ONE as int))
}

/// Division saturates by the dividend's sign when the divisor is zero,
/// mirroring the signed-infinity convention of real division.
pub open spec fn fp_div_s(a: int, b: int) -> int {
    if b == 0 {
        if a > 0 {
            i64::MAX as int
        } else if a < 0 {
            i64::MIN as int
        } else {
            0
        }
    } else {
        fp_clip(dtz(a * (FP_ONE as int), b))
    }
}

pub open spec fn fp_min_s(a: int, b: int) -> int {
    if a < b {
        a
    } else {
        b
    }
}

pub open spec fn fp_max_s(a: int, b: int) -> int {
    if a > b {
        a
    } else {
        b
    }
}

/// The integer-square-root property: `r` is the rounded-down square
/// root of `n`.
pub open spec fn is_isqrt(r: int, n: int) -> bool {
    0 <= r && r * r <= n && n < (r + 1) * (r + 1)
}

/// The integer square root: the unique `r` with `is_isqrt(r, n)`.
pub open spec fn isqrt_s(n: int) -> int {
    choose|r: int| is_isqrt(r, n)
}

/// Square root of a fixed-point scalar; non-positive inputs map to zero.
pub open spec fn fp_sqrt_s(a: int) -> int {
    if a <= 0 {
        0
    } else {
        isqrt_s(a * (FP_ONE as int))
    }
}

/// `base` raised to an integer exponent, one factor at a time, in the
/// order the executable loop multiplies.
pub open spec fn fp_powi_s(b: int, e: nat) -> int
    decreases e,
{
    if e == 0 {
        FP_ONE as int
    } else {
        fp_mul_s(fp_powi_s(b, (e - 1) as nat), b)
    }
}

/// Magnitude of a scalar as an unsigned value (total, unlike `i64::abs`).
pub fn fp_mag(a: i64) -> (m: u64)
    ensures
        m as int == abs_i(a as int),
{
    if a >= 0 {
        a as u64
    } else if a == i64::MIN {
        9223372036854775808u64
    } else {
        (-a) as u64
    }
}

/// Reattaches a sign to an unsigned magnitude, saturating at the `i64`
/// bounds.
fn fp_of_mag(q: u128, neg: bool) -> (r: i64)
    ensures
        r as int == fp_clip(if neg { -(q as int) } else { q as int }),
{
    if neg {
        if q >= 9223372036854775808u128 {
            i64::MIN
        } else {
            -(q as i64)
        }
    } else {
        if q > 9223372036854775807u128 {
            i64::MAX
        } else {
            q as i64
        }
    }
}

pub fn fp_add(a: i64, b: i64) -> (r: i64)
    ensures
        r as int == fp_add_s(a as int, b as int),
{
    let s: i128 = a as i128 + b as i128;
    if s > i64::MAX as i128 {
        i64::MAX
    } else if s < i64::MIN as i128 {
        i64::MIN
    } else {
        s as i64
    }
}

pub fn fp_sub(a: i64, b: i64) -> (r: i64)
    ensures
        r as int == fp_sub_s(a as int, b as int),
{
    let s: i128 = a as i128 - b as i128;
    if s > i64::MAX as i128 {
        i64::MAX
    } else if s < i64::MIN as i128 {
        i64::MIN
    } else {
        s as i64
    }
}

pub fn fp_neg(a: i64) -> (r: i64)
    ensures
        r as int == fp_neg_s(a as int),
{
    if a == i64::MIN {
        i64::MAX
    } else {
        -a
    }
}

proof fn lemma_abs_mul(a: int, b: int)
    ensures
        abs_i(a * b) == abs_i(a) * abs_i(b),
{
    assert(abs_i(a * b) == abs_i(a) * abs_i(b)) by (nonlinear_arith);
}

/// The executable scaled product (magnitudes, then a reattached sign)
/// computes `dtz(a * b, d)` for a positive divisor `d`.
proof fn lemma_signed_quot(a: int, b: int, d: int, q: int)
    requires
        d > 0,
        q == (abs_i(a) * abs_i(b)) / d,
    ensures
        dtz(a * b, d) == if (a < 0) != (b < 0) {
            -q
        } else {
            q
        },
{
    lemma_abs_mul(a, b);
    if a * b == 0 {
        assert(abs_i(a * b) / d == 0);
    } else {
        assert(a != 0 && b != 0) by (nonlinear_arith)
            requires
                a * b != 0,
        ;
        assert((a * b < 0) == ((a < 0) != (b < 0))) by (nonlinear_arith)
            requires
                a != 0 && b != 0,
        ;
    }
}

/// The executable scaled division (magnitudes, then a reattached sign)
/// computes `dtz(a * FP_ONE, b)`.
proof fn lemma_scaled_quot(a: int, b: int, q: int)
    requires
        b != 0,
        q == (abs_i(a) * 65536) / abs_i(b),
    ensures
        dtz(a * (FP_ONE as int), b) == if (a < 0) != (b < 0) {
            -q
        } else {
            q
        },
{
    assert(abs_i(a * 65536) == abs_i(a) * 65536);
    if a == 0 {
        vstd::arithmetic::div_mod::lemma_div_of0(abs_i(b));
    }
}

pub fn fp_mul(a: i64, b: i64) -> (r: i64)
    ensures
        r as int == fp_mul_s(a as int, b as int),
{
    let ma: u64 = fp_mag(a);
    let mb: u64 = fp_mag(b);
    proof {
        assert((ma as int) * (mb as int) < 0x100000000000000000000000000000000)
            by (nonlinear_arith)
            requires
                ma <= 0x8000000000000000u64 && mb <= 0x8000000000000000u64,
        ;
    }
    let p: u128 = (ma as u128) * (mb as u128);
    let q: u128 = p / 65536u128;
    proof {
        lemma_signed_quot(a as int, b as int, FP_ONE as int, q as int);
    }
    fp_of_mag(q, (a < 0) != (b < 0))
}

pub fn fp_div(a: i64, b: i64) -> (r: i64)
    ensures
        r as int == fp_div_s(a as int, b as int),
{
    if b == 0 {
        if a > 0 {
            i64::MAX
        } else if a < 0 {
            i64::MIN
        } else {
            0
        }
    } else {
        let ma: u64 = fp_mag(a);
        let p: u128 = (ma as u128) * 65536u128;
        let mb: u64 = fp_mag(b);
        let q: u128 = p / (mb as u128);
        proof {
            lemma_scaled_quot(a as int, b as int, q as int);
        }
        fp_of_mag(q, (a < 0) != (b < 0))
    }
}

pub open spec fn fp_abs_s(a: int) -> int {
    fp_clip(abs_i(a))
}

pub fn fp_abs(a: i64) -> (r: i64)
    ensures
        r as int == fp_abs_s(a as int),
{
    if a == i64::MIN {
        i64::MAX
    } else if a < 0 {
        -a
    } else {
        a
    }
}

pub fn fp_min(a: i64, b: i64) -> (r: i64)
    ensures
        r as int == fp_min_s(a as int, b as int),
{
    if a < b {
        a
    } else {
        b
    }
}

pub fn fp_max(a: i64, b: i64) -> (r: i64)
    ensures
        r as int == fp_max_s(a as int, b as int),
{
    if a > b {
        a
    } else {
        b
    }
}

/// A value `r` witnessing the integer-square-root property exists for
/// every `n >= 0`.
proof fn lemma_isqrt_exists(n: int) -> (r: int)
    requires
        n >= 0,
    ensures
        0 <= r && r * r <= n && n < (r + 1) * (r + 1),
    decreases n,
{
    if n == 0 {
        0
    } else {
        let p = lemma_isqrt_exists(n - 1);
        if (p + 1) * (p + 1) <= n {
            assert(n < (p + 2) * (p + 2)) by (nonlinear_arith)
                requires
                    n - 1 < (p + 1) * (p + 1) && (p + 1) * (p + 1) <= n && p >= 0,
            ;
            p + 1
        } else {
            p
        }
    }
}

/// Two witnesses of the integer-square-root property agree.
pub proof fn lemma_isqrt_unique(n: int, r1: int, r2: int)
    requires
        0 <= r1 && r1 * r1 <= n && n < (r1 + 1) * (r1 + 1),
        0 <= r2 && r2 * r2 <= n && n < (r2 + 1) * (r2 + 1),
    ensures
        r1 == r2,
{
    if r1 < r2 {
        assert((r1 + 1) * (r1 + 1) <= r2 * r2) by (nonlinear_arith)
            requires
                0 <= r1 && r1 + 1 <= r2,
        ;
    }
    if r2 < r1 {
        assert((r2 + 1) * (r2 + 1) <= r1 * r1) by (nonlinear_arith)
            requires
                0 <= r2 && r2 + 1 <= r1,
        ;
    }
}

/// `isqrt_s(n)` itself satisfies the property it is chosen by.
pub proof fn lemma_isqrt(n: int)
    requires
        n >= 0,
    ensures
        0 <= isqrt_s(n),
        isqrt_s(n) * isqrt_s(n) <= n,
        n < (isqrt_s(n) + 1) * (isqrt_s(n) + 1),
{
    let w = lemma_isqrt_exists(n);
    assert(is_isqrt(w, n));
    assert(is_isqrt(isqrt_s(n), n));
}

/// Integer square root of an unsigned 128-bit value, by binary search.
pub fn isqrt_u128(n: u128) -> (r: u64)
    ensures
        r as int == isqrt_s(n as int),
{
    let mut lo: u128 = 0;
    let mut hi: u128 = 18446744073709551616u128;  // 2^64
    proof {
        assert(hi * hi > n as int) by (nonlinear_arith)
            requires
                hi == 0x10000000000000000u128 && n <= u128::MAX,
        ;
    }
    while hi - lo > 1
        invariant
            0 <= lo < hi <= 0x10000000000000000u128,
            (lo as int) * (lo as int) <= n as int,
            (n as int) < (hi as int) * (hi as int),
        decreases hi - lo,
    {
        let mid: u128 = lo + (hi - lo) / 2;
        proof {
            assert((mid as int) * (mid as int) < 0x100000000000000000000000000000000)
                by (nonlinear_arith)
                requires
                    0 <= mid < 0x10000000000000000u128,
            ;
        }
        let sq: u128 = mid * mid;
        if sq <= n {
            lo = mid;
        } else {
            hi = mid;
        }
    }
    proof {
        lemma_isqrt(n as int);
        lemma_isqrt_unique(n as int, lo as int, isqrt_s(n as int));
    }
    lo as u64
}

pub fn fp_sqrt(a: i64) -> (r: i64)
    ensures
        r as int == fp_sqrt_s(a as int),
{
    if a <= 0 {
        0
    } else {
        let n: u128 = (a as u128) * 65536u128;
        let s: u64 = isqrt_u128(n);
        proof {
            lemma_isqrt(n as int);
            assert(isqrt_s(n as int) < 0x100000000000i64 as int) by (nonlinear_arith)
                requires
                    n as int <= 0x7fffffffffffffffi64 as int * 65536
                        && isqrt_s(n as int) * isqrt_s(n as int) <= n as int && 0 <= isqrt_s(
                        n as int,
                    ),
            ;
        }
        s as i64
    }
}

pub fn fp_powi(b: i64, e: u32) -> (r: i64)
    ensures
        r as int == fp_powi_s(b as int, e as nat),
{
    let mut acc: i64 = FP_ONE;
    let mut i: u32 = 0;
    while i < e
        invariant
            i <= e,
            acc as int == fp_powi_s(b as int, i as nat),
        decreases e - i,
    {
        acc = fp_mul(acc, b);
        i = i + 1;
    }
    acc
}

/// Remainder of a nonnegative scalar by a positive one; the scaling
/// cancels, so this is also the fixed-point remainder.
pub open spec fn fp_rem_s(a: int, b: int) -> int
    recommends
        a >= 0,
        b > 0,
{
    a % b
}

pub fn fp_rem(a: i64, b: i64) -> (r: i64)
    requires
        a >= 0,
        b > 0,
    ensures
        r as int == fp_rem_s(a as int, b as int),
{
    let r: u64 = (a as u64) % (b as u64);
    r as i64
}


/// A product of a multiple of the divisor divides back exactly.
pub proof fn lemma_dtz_mul_exact(k: int, b: int)
    requires
        b > 0,
    ensures
        dtz(k * b, b) == k,
{
    lemma_abs_mul(k, b);
    assert((abs_i(k) * b) / b == abs_i(k)) by (nonlinear_arith)
        requires
            b > 0 && abs_i(k) >= 0,
    ;
    if k != 0 {
        assert((k * b < 0) == (k < 0)) by (nonlinear_arith)
            requires
                b > 0 && k != 0,
        ;
    }
}

/// A saturated scaled product keeps the sign of the exact product.
pub proof fn lemma_fp_mul_sign(a: int, b: int)
    ensures
        a >= 0 && b >= 0 ==> fp_mul_s(a, b) >= 0,
        a <= 0 && b >= 0 ==> fp_mul_s(a, b) <= 0,
        a >= 0 && b <= 0 ==> fp_mul_s(a, b) <= 0,
        a <= 0 && b <= 0 ==> fp_mul_s(a, b) >= 0,
{
    if a >= 0 && b >= 0 {
        assert(a * b >= 0) by (nonlinear_arith)
            requires
                a >= 0 && b >= 0,
        ;
    }
    if a <= 0 && b >= 0 {
        assert(a * b <= 0) by (nonlinear_arith)
            requires
                a <= 0 && b >= 0,
        ;
    }
    if a >= 0 && b <= 0 {
        assert(a * b <= 0) by (nonlinear_arith)
            requires
                a >= 0 && b <= 0,
        ;
    }
    if a <= 0 && b <= 0 {
        assert(a * b >= 0) by (nonlinear_arith)
            requires
                a <= 0 && b <= 0,
        ;
    }
    lemma_dtz_sign(a * b, FP_ONE as int);
    assert(abs_i(a * b) / (FP_ONE as int) >= 0) by (nonlinear_arith);
}

/// A saturated scaled quotient keeps the sign of the exact quotient
/// for a nonzero divisor; a zero divisor saturates by the dividend's
/// sign.
pub proof fn lemma_fp_div_sign(a: int, b: int)
    ensures
        a >= 0 && b > 0 ==> fp_div_s(a, b) >= 0,
        a <= 0 && b > 0 ==> fp_div_s(a, b) <= 0,
        a >= 0 && b < 0 ==> fp_div_s(a, b) <= 0,
        a <= 0 && b < 0 ==> fp_div_s(a, b) >= 0,
        a > 0 && b == 0 ==> fp_div_s(a, b) == i64::MAX as int,
        a < 0 && b == 0 ==> fp_div_s(a, b) == i64::MIN as int,
        a == 0 && b == 0 ==> fp_div_s(a, b) == 0,
{
    if b != 0 {
        if a >= 0 {
            assert(a * (FP_ONE as int) >= 0) by (nonlinear_arith)
                requires
                    a >= 0,
            ;
        }
        if a <= 0 {
            assert(a * (FP_ONE as int) <= 0) by (nonlinear_arith)
                requires
                    a <= 0,
            ;
        }
        lemma_dtz_sign(a * (FP_ONE as int), b);
        assert(abs_i(a * (FP_ONE as int)) / abs_i(b) >= 0) by (nonlinear_arith)
            requires
                b != 0,
        ;
    }
}

/// The rounded-down square root of an exact square.
pub proof fn lemma_isqrt_square(v: int)
    requires
        v >= 0,
    ensures
        isqrt_s(v * v) == v,
{
    assert(is_isqrt(v, v * v)) by (nonlinear_arith)
        requires
            v >= 0,
    ;
    lemma_isqrt(v * v);
    lemma_isqrt_unique(v * v, v, isqrt_s(v * v));
}

/// Signs: a quotient rounded toward zero keeps the sign of the exact
/// quotient, and clipping keeps signs as well.
pub proof fn lemma_dtz_sign(a: int, b: int)
    requires
        b != 0,
    ensures
        a == 0 ==> dtz(a, b) == 0,
        (a > 0 && b > 0) || (a < 0 && b < 0) ==> dtz(a, b) >= 0,
        (a > 0 && b < 0) || (a < 0 && b > 0) ==> dtz(a, b) <= 0,
{
    assert(abs_i(a) / abs_i(b) >= 0) by (nonlinear_arith)
        requires
            b != 0,
    ;
}

/// Strict division bound: if `0 <= a < b` then the scaled quotient
/// `a * FP_ONE / b` stays below `FP_ONE`.
pub proof fn lemma_div_ratio_lt_one(a: int, b: int)
    requires
        0 <= a < b,
    ensures
        0 <= fp_div_s(a, b) < FP_ONE as int,
{
    let s = FP_ONE as int;
    assert(a * s <= (b - 1) * s) by (nonlinear_arith)
        requires
            0 <= a && a <= b - 1 && s > 0,
    ;
    assert(abs_i(a * s) == a * s) by (nonlinear_arith)
        requires
            a >= 0 && s > 0,
    ;
    lemma_div_is_ordered(a * s, (b - 1) * s, b);
    assert(((b - 1) * s) / b < s) by (nonlinear_arith)
        requires
            b >= 1 && s > 0,
    ;
    assert((a * s) / b >= 0) by (nonlinear_arith)
        requires
            a >= 0 && b > 0 && s > 0,
    ;
}

} // verus!
