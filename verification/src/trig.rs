//! Fixed-point circular functions.
//!
//! Sine and cosine use Bhaskara's rational approximation on a half
//! period; the inverse functions use the classic one-term arctangent
//! approximation `atan(t) = t * (pi/4 + 0.273 * (1 - |t|))` on the unit
//! interval, extended to all quadrants.  Each executable function is
//! pinned exactly to its specification mirror; the mirrors are the
//! library's definition of these approximations.

use crate::fixed::abs_i;
use crate::fixed::fp_abs;
use crate::fixed::fp_abs_s;
use crate::fixed::fp_add;
use crate::fixed::fp_add_s;
use crate::fixed::fp_div;
use crate::fixed::fp_div_s;
use crate::fixed::fp_mag;
use crate::fixed::fp_mul;
use crate::fixed::fp_mul_s;
use crate::fixed::fp_neg;
use crate::fixed::fp_neg_s;
use crate::fixed::fp_sqrt;
use crate::fixed::fp_sqrt_s;
use crate::fixed::fp_sub;
use crate::fixed::fp_sub_s;
use crate::fixed::FP_ONE;
use vstd::prelude::*;

verus! {

/// `pi`, `2 pi`, `pi / 2` and `pi / 4`, scaled by `FP_ONE`.
pub const PI_FP: i64 = 205887;

pub const TWO_PI_FP: i64 = 411775;

pub const HALF_PI_FP: i64 = 102944;

pub const QUARTER_PI_FP: i64 = 51472;

/// `0.273`, the corrective weight of the arctangent approximation.
pub const ATAN_K: i64 = 17891;

/// `16` and `4`, scaled by `FP_ONE`.
pub const K16: i64 = 1048576;

pub const K4: i64 = 262144;

/// `5 * pi * pi`, scaled by `FP_ONE`.
pub const K5PI2: i64 = 3234072;

/// An angle reduced to `[0, 2 pi)`.
pub open spec fn norm_angle_s(x: int) -> int {
    let m = abs_i(x) % (TWO_PI_FP as int);
    if x >= 0 {
        m
    } else if m == 0 {
        0
    } else {
        TWO_PI_FP - m
    }
}

pub fn norm_angle(x: i64) -> (r: i64)
    ensures
        r as int == norm_angle_s(x as int),
        0 <= r < TWO_PI_FP,
{
    let m: u64 = fp_mag(x) % (TWO_PI_FP as u64);
    if x >= 0 {
        m as i64
    } else if m == 0 {
        0
    } else {
        TWO_PI_FP - m as i64
    }
}

/// Bhaskara's sine approximation, meant for inputs in `[0, pi]`:
/// `sin(x) = 16 x (pi - x) / (5 pi^2 - 4 x (pi - x))`.
pub open spec fn sin_half_s(x: int) -> int {
    let p = fp_mul_s(x, fp_sub_s(PI_FP as int, x));
    fp_div_s(fp_mul_s(K16 as int, p), fp_sub_s(K5PI2 as int, fp_mul_s(K4 as int, p)))
}

fn sin_half(x: i64) -> (r: i64)
    ensures
        r as int == sin_half_s(x as int),
{
    let p = fp_mul(x, fp_sub(PI_FP, x));
    fp_div(fp_mul(K16, p), fp_sub(K5PI2, fp_mul(K4, p)))
}

pub open spec fn sin_s(x: int) -> int {
    let a = norm_angle_s(x);
    if a <= PI_FP as int {
        sin_half_s(a)
    } else {
        fp_neg_s(sin_half_s(fp_sub_s(a, PI_FP as int)))
    }
}

pub fn sin_fp(x: i64) -> (r: i64)
    ensures
        r as int == sin_s(x as int),
{
    let a = norm_angle(x);
    if a <= PI_FP {
        sin_half(a)
    } else {
        fp_neg(sin_half(fp_sub(a, PI_FP)))
    }
}

pub open spec fn cos_s(x: int) -> int {
    sin_s(fp_add_s(x, HALF_PI_FP as int))
}

pub fn cos_fp(x: i64) -> (r: i64)
    ensures
        r as int == cos_s(x as int),
{
    sin_fp(fp_add(x, HALF_PI_FP))
}

/// One-term arctangent approximation, meant for `|t| <= 1`.
pub open spec fn atan_unit_s(t: int) -> int {
    fp_mul_s(
        t,
        fp_add_s(
            QUARTER_PI_FP as int,
            fp_mul_s(ATAN_K as int, fp_sub_s(FP_ONE as int, fp_abs_s(t))),
        ),
    )
}

fn atan_unit(t: i64) -> (r: i64)
    ensures
        r as int == atan_unit_s(t as int),
{
    fp_mul(t, fp_add(QUARTER_PI_FP, fp_mul(ATAN_K, fp_sub(FP_ONE, fp_abs(t)))))
}

/// The angle of the point `(x, y)`, in `(-pi, pi]`, with the octant
/// folding that keeps the approximation's argument on the unit
/// interval.  Both coordinates zero yield zero.
pub open spec fn atan2_s(y: int, x: int) -> int {
    let ay = abs_i(y);
    let ax = abs_i(x);
    if ax == 0 && ay == 0 {
        0
    } else if ax >= ay {
        let b = atan_unit_s(fp_div_s(y, x));
        if x > 0 {
            b
        } else if y >= 0 {
            fp_add_s(b, PI_FP as int)
        } else {
            fp_sub_s(b, PI_FP as int)
        }
    } else {
        let b = atan_unit_s(fp_div_s(x, y));
        if y > 0 {
            fp_sub_s(HALF_PI_FP as int, b)
        } else {
            fp_sub_s(fp_neg_s(HALF_PI_FP as int), b)
        }
    }
}

pub fn atan2_fp(y: i64, x: i64) -> (r: i64)
    ensures
        r as int == atan2_s(y as int, x as int),
{
    let ay: u64 = fp_mag(y);
    let ax: u64 = fp_mag(x);
    if ax == 0 && ay == 0 {
        0
    } else if ax >= ay {
        let b = atan_unit(fp_div(y, x));
        if x > 0 {
            b
        } else if y >= 0 {
            fp_add(b, PI_FP)
        } else {
            fp_sub(b, PI_FP)
        }
    } else {
        let b = atan_unit(fp_div(x, y));
        if y > 0 {
            fp_sub(HALF_PI_FP, b)
        } else {
            fp_sub(fp_neg(HALF_PI_FP), b)
        }
    }
}

/// Arcsine through `asin(t) = atan2(t, sqrt(1 - t^2))`; inputs beyond
/// the unit interval saturate to `+-pi/2`.
pub open spec fn asin_s(t: int) -> int {
    atan2_s(t, fp_sqrt_s(fp_sub_s(FP_ONE as int, fp_mul_s(t, t))))
}

pub fn asin_fp(t: i64) -> (r: i64)
    ensures
        r as int == asin_s(t as int),
{
    atan2_fp(t, fp_sqrt(fp_sub(FP_ONE, fp_mul(t, t))))
}

} // verus!
