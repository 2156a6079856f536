//! Three-component vectors of fixed-point scalars.
//!
//! `Vec3` is the executable vector; `V3i` is its mathematical image,
//! a triple of unbounded integers, and every vector operation is pinned
//! to a specification mirror over `V3i`.

use crate::fixed::fp_add;
use crate::fixed::fp_add_s;
use crate::fixed::fp_div;
use crate::fixed::fp_div_s;
use crate::fixed::fp_mul;
use crate::fixed::fp_mul_s;
use crate::fixed::fp_neg;
use crate::fixed::fp_neg_s;
use crate::fixed::fp_sqrt;
use crate::fixed::fp_sqrt_s;
use crate::fixed::fp_sub;
use crate::fixed::fp_sub_s;
use vstd::prelude::*;

verus! {

/// The mathematical image of a vector: its components as unbounded
/// integers (still scaled by `FP_ONE`).
pub ghost struct V3i {
    pub x: int,
    pub y: int,
    pub z: int,
}

#[derive(Clone, Copy, PartialEq, Eq, Structural, Debug)]
pub struct Vec3 {
    pub x: i64,
    pub y: i64,
    pub z: i64,
}

pub open spec fn v3(v: Vec3) -> V3i {
    V3i { x: v.x as int, y: v.y as int, z: v.z as int }
}

/// All components within the executable scalar range.
pub open spec fn v_in_range(v: V3i) -> bool {
    i64::MIN as int <= v.x <= i64::MAX as int && i64::MIN as int <= v.y <= i64::MAX as int
        && i64::MIN as int <= v.z <= i64::MAX as int
}

pub open spec fn vzero_s() -> V3i {
    V3i { x: 0, y: 0, z: 0 }
}

pub open spec fn vadd_s(a: V3i, b: V3i) -> V3i {
    V3i { x: fp_add_s(a.x, b.x), y: fp_add_s(a.y, b.y), z: fp_add_s(a.z, b.z) }
}

pub open spec fn vsub_s(a: V3i, b: V3i) -> V3i {
    V3i { x: fp_sub_s(a.x, b.x), y: fp_sub_s(a.y, b.y), z: fp_sub_s(a.z, b.z) }
}

pub open spec fn vneg_s(a: V3i) -> V3i {
    V3i { x: fp_neg_s(a.x), y: fp_neg_s(a.y), z: fp_neg_s(a.z) }
}

pub open spec fn vscale_s(a: V3i, k: int) -> V3i {
    V3i { x: fp_mul_s(a.x, k), y: fp_mul_s(a.y, k), z: fp_mul_s(a.z, k) }
}

/// Componentwise division by a scalar.
pub open spec fn vdiv_s(a: V3i, k: int) -> V3i {
    V3i { x: fp_div_s(a.x, k), y: fp_div_s(a.y, k), z: fp_div_s(a.z, k) }
}

pub open spec fn vdot_s(a: V3i, b: V3i) -> int {
    fp_add_s(fp_add_s(fp_mul_s(a.x, b.x), fp_mul_s(a.y, b.y)), fp_mul_s(a.z, b.z))
}

pub open spec fn vcross_s(a: V3i, b: V3i) -> V3i {
    V3i {
        x: fp_sub_s(fp_mul_s(a.y, b.z), fp_mul_s(a.z, b.y)),
        y: fp_sub_s(fp_mul_s(a.z, b.x), fp_mul_s(a.x, b.z)),
        z: fp_sub_s(fp_mul_s(a.x, b.y), fp_mul_s(a.y, b.x)),
    }
}

pub open spec fn vlen_s(a: V3i) -> int {
    fp_sqrt_s(vdot_s(a, a))
}

/// Normalization; a vector whose computed length rounds to zero maps to
/// the zero vector, the library's defined fallback for degenerate
/// directions.
pub open spec fn vnorm_s(a: V3i) -> V3i {
    let l = vlen_s(a);
    if l == 0 {
        vzero_s()
    } else {
        vdiv_s(a, l)
    }
}

impl Vec3 {
    pub fn new(x: i64, y: i64, z: i64) -> (r: Vec3)
        ensures
            v3(r) == (V3i { x: x as int, y: y as int, z: z as int }),
    {
        Vec3 { x, y, z }
    }

    pub fn zero() -> (r: Vec3)
        ensures
            v3(r) == vzero_s(),
    {
        Vec3 { x: 0, y: 0, z: 0 }
    }

    pub fn plus(&self, o: &Vec3) -> (r: Vec3)
        ensures
            v3(r) == vadd_s(v3(*self), v3(*o)),
    {
        Vec3 { x: fp_add(self.x, o.x), y: fp_add(self.y, o.y), z: fp_add(self.z, o.z) }
    }

    pub fn minus(&self, o: &Vec3) -> (r: Vec3)
        ensures
            v3(r) == vsub_s(v3(*self), v3(*o)),
    {
        Vec3 { x: fp_sub(self.x, o.x), y: fp_sub(self.y, o.y), z: fp_sub(self.z, o.z) }
    }

    pub fn negate(&self) -> (r: Vec3)
        ensures
            v3(r) == vneg_s(v3(*self)),
    {
        Vec3 { x: fp_neg(self.x), y: fp_neg(self.y), z: fp_neg(self.z) }
    }

    pub fn scale(&self, k: i64) -> (r: Vec3)
        ensures
            v3(r) == vscale_s(v3(*self), k as int),
    {
        Vec3 { x: fp_mul(self.x, k), y: fp_mul(self.y, k), z: fp_mul(self.z, k) }
    }

    pub fn div_by(&self, k: i64) -> (r: Vec3)
        ensures
            v3(r) == vdiv_s(v3(*self), k as int),
    {
        Vec3 { x: fp_div(self.x, k), y: fp_div(self.y, k), z: fp_div(self.z, k) }
    }

    pub fn dot(&self, o: &Vec3) -> (r: i64)
        ensures
            r as int == vdot_s(v3(*self), v3(*o)),
    {
        fp_add(fp_add(fp_mul(self.x, o.x), fp_mul(self.y, o.y)), fp_mul(self.z, o.z))
    }

    pub fn cross(&self, o: &Vec3) -> (r: Vec3)
        ensures
            v3(r) == vcross_s(v3(*self), v3(*o)),
    {
        Vec3 {
            x: fp_sub(fp_mul(self.y, o.z), fp_mul(self.z, o.y)),
            y: fp_sub(fp_mul(self.z, o.x), fp_mul(self.x, o.z)),
            z: fp_sub(fp_mul(self.x, o.y), fp_mul(self.y, o.x)),
        }
    }

    pub fn magnitude(&self) -> (r: i64)
        ensures
            r as int == vlen_s(v3(*self)),
    {
        fp_sqrt(self.dot(self))
    }

    pub fn normalize(&self) -> (r: Vec3)
        ensures
            v3(r) == vnorm_s(v3(*self)),
    {
        let l = self.magnitude();
        if l == 0 {
            Vec3::zero()
        } else {
            self.div_by(l)
        }
    }
}

} // verus!
