//! The sphere primitive.

use crate::fixed::fp_add;
use crate::fixed::fp_add_s;
use crate::fixed::fp_div;
use crate::fixed::fp_div_s;
use crate::fixed::fp_mul;
use crate::fixed::fp_mul_s;
use crate::fixed::fp_neg;
use crate::fixed::fp_neg_s;
use crate::fixed::fp_sqrt;
use crate::fixed::fp_sqrt_s;
use crate::fixed::fp_sub;
use crate::fixed::fp_sub_s;
use crate::material::Material;
use crate::ray_intersect::matches_hit_opt;
use crate::ray_intersect::HitV;
use crate::ray_intersect::Intersect;
use crate::ray_intersect::RayIntersect;
use crate::vec3::v3;
use crate::vec3::vadd_s;
use crate::vec3::vdiv_s;
use crate::vec3::vdot_s;
use crate::vec3::vscale_s;
use crate::vec3::vsub_s;
use crate::vec3::V3i;
use crate::vec3::Vec3;
use vstd::prelude::*;

verus! {

/// The smallest distance a reported root may have; roots closer than
/// this (about `0.001` units) count as self-intersections and are
/// discarded.
pub const RAY_EPS: i64 = 66;

pub struct Sphere {
    pub center: Vec3,
    pub radius: i64,
    pub material: Material,
}

/// Ray/sphere intersection: solve the quadratic
/// `|o + t d - c|^2 = r^2`; among roots at least `RAY_EPS`, report the
/// smaller; the normal is `(hit - center) / radius`.
pub open spec fn sphere_model_s(center: V3i, radius: int, mat: Material, o: V3i, d: V3i) -> Option<
    HitV,
> {
    let oc = vsub_s(o, center);
    let a = vdot_s(d, d);
    let b = vdot_s(oc, d);
    let c = fp_sub_s(vdot_s(oc, oc), fp_mul_s(radius, radius));
    let disc = fp_sub_s(fp_mul_s(b, b), fp_mul_s(a, c));
    if disc < 0 {
        Option::None
    } else {
        let sq = fp_sqrt_s(disc);
        let t0 = fp_div_s(fp_sub_s(fp_neg_s(b), sq), a);
        let t1 = fp_div_s(fp_add_s(fp_neg_s(b), sq), a);
        let t = if t0 >= RAY_EPS {
            t0
        } else {
            t1
        };
        if t >= RAY_EPS {
            let point = vadd_s(o, vscale_s(d, t));
            let normal = vdiv_s(vsub_s(point, center), radius);
            Option::Some(HitV { dist: t, point, normal, mat })
        } else {
            Option::None
        }
    }
}

impl RayIntersect for Sphere {
    open spec fn model(&self, origin: V3i, direction: V3i) -> Option<HitV> {
        sphere_model_s(v3(self.center), self.radius as int, self.material, origin, direction)
    }

    fn ray_intersect(&self, origin: &Vec3, direction: &Vec3) -> (r: Intersect)
        ensures
            matches_hit_opt(r, self.model(v3(*origin), v3(*direction))),
    {
        let oc = origin.minus(&self.center);
        let a = direction.dot(direction);
        let b = oc.dot(direction);
        let c = fp_sub(oc.dot(&oc), fp_mul(self.radius, self.radius));
        let disc = fp_sub(fp_mul(b, b), fp_mul(a, c));
        if disc < 0 {
            return Intersect::no_hit();
        }
        let sq = fp_sqrt(disc);
        let t0 = fp_div(fp_sub(fp_neg(b), sq), a);
        let t1 = fp_div(fp_add(fp_neg(b), sq), a);
        let t = if t0 >= RAY_EPS {
            t0
        } else {
            t1
        };
        if t >= RAY_EPS {
            let point = origin.plus(&direction.scale(t));
            let normal = point.minus(&self.center).div_by(self.radius);
            Intersect::hit(t, point, normal, &self.material)
        } else {
            Intersect::no_hit()
        }
    }
}

} // verus!
