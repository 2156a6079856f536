//! The axis-aligned box primitive.

use crate::fixed::fp_div;
use crate::fixed::fp_div_s;
use crate::fixed::fp_max;
use crate::fixed::fp_max_s;
use crate::fixed::fp_min;
use crate::fixed::fp_min_s;
use crate::fixed::fp_mul;
use crate::fixed::fp_mul_s;
use crate::fixed::fp_sub;
use crate::fixed::fp_sub_s;
use crate::fixed::FP_ONE;
use crate::fixed::HALF_FP;
use crate::material::Material;
use crate::ray_intersect::matches_hit_opt;
use crate::ray_intersect::HitV;
use crate::ray_intersect::Intersect;
use crate::ray_intersect::RayIntersect;
use crate::vec3::v3;
use crate::vec3::vadd_s;
use crate::vec3::vnorm_s;
use crate::vec3::vscale_s;
use crate::vec3::vsub_s;
use crate::vec3::V3i;
use crate::vec3::Vec3;
use vstd::prelude::*;

verus! {

pub struct Cube {
    pub min: Vec3,
    pub max: Vec3,
    pub material: Material,
}

/// The two parametric distances at which a ray crosses one axis's slab,
/// in ascending order.  A zero direction component divides to the
/// saturated extremes, the fixed-point stand-in for signed infinity.
pub open spec fn slab_s(mn: int, mx: int, o: int, d: int) -> (int, int) {
    let inv = fp_div_s(FP_ONE as int, d);
    let t1 = fp_mul_s(fp_sub_s(mn, o), inv);
    let t2 = fp_mul_s(fp_sub_s(mx, o), inv);
    (fp_min_s(t1, t2), fp_max_s(t1, t2))
}

/// Ray/box intersection by the slab method: the running interval
/// `[tmin, tmax]` is intersected across the three axes, an empty
/// interval at any pairwise stage meaning a miss.  The reported
/// distance is the last axis entry distance; the normal points from the
/// box centroid toward the hit point (exactly axis-aligned only at face
/// centers, the design's accepted approximation).
pub open spec fn cube_model_s(mn: V3i, mx: V3i, mat: Material, o: V3i, d: V3i) -> Option<HitV> {
    let sx = slab_s(mn.x, mx.x, o.x, d.x);
    let sy = slab_s(mn.y, mx.y, o.y, d.y);
    if sx.0 > sy.1 || sy.0 > sx.1 {
        Option::None
    } else {
        let tmin = fp_max_s(sx.0, sy.0);
        let tmax = fp_min_s(sx.1, sy.1);
        let sz = slab_s(mn.z, mx.z, o.z, d.z);
        if tmin > sz.1 || sz.0 > tmax {
            Option::None
        } else {
            let dist = fp_max_s(sz.0, tmin);
            let point = vadd_s(o, vscale_s(d, dist));
            let centroid = vscale_s(vadd_s(mx, mn), HALF_FP as int);
            let normal = vnorm_s(vsub_s(point, centroid));
            Option::Some(HitV { dist, point, normal, mat })
        }
    }
}

/// One axis's slab crossings, ascending.
fn slab(mn: i64, mx: i64, o: i64, d: i64) -> (r: (i64, i64))
    ensures
        (r.0 as int, r.1 as int) == slab_s(mn as int, mx as int, o as int, d as int),
{
    let inv = fp_div(FP_ONE, d);
    let t1 = fp_mul(fp_sub(mn, o), inv);
    let t2 = fp_mul(fp_sub(mx, o), inv);
    (fp_min(t1, t2), fp_max(t1, t2))
}

impl RayIntersect for Cube {
    open spec fn model(&self, origin: V3i, direction: V3i) -> Option<HitV> {
        cube_model_s(v3(self.min), v3(self.max), self.material, origin, direction)
    }

    fn ray_intersect(&self, origin: &Vec3, direction: &Vec3) -> (r: Intersect)
        ensures
            matches_hit_opt(r, self.model(v3(*origin), v3(*direction))),
    {
        let sx = slab(self.min.x, self.max.x, origin.x, direction.x);
        let sy = slab(self.min.y, self.max.y, origin.y, direction.y);
        if sx.0 > sy.1 || sy.0 > sx.1 {
            return Intersect::no_hit();
        }
        let tmin = fp_max(sx.0, sy.0);
        let tmax = fp_min(sx.1, sy.1);
        let sz = slab(self.min.z, self.max.z, origin.z, direction.z);
        if tmin > sz.1 || sz.0 > tmax {
            return Intersect::no_hit();
        }
        let dist = fp_max(sz.0, tmin);
        let point = origin.plus(&direction.scale(dist));
        let centroid = self.max.plus(&self.min).scale(HALF_FP);
        let normal = point.minus(&centroid).normalize();
        Intersect::hit(dist, point, normal, &self.material)
    }
}

} // verus!
