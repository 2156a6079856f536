//! The intersection query: its result record and the capability trait.

use crate::material::default_material_s;
use crate::material::Material;
use crate::vec3::v3;
use crate::vec3::vzero_s;
use crate::vec3::V3i;
use crate::vec3::Vec3;
use vstd::prelude::*;

verus! {

/// The mathematical record of a genuine hit: distance along the ray,
/// world-space hit point, surface normal, and the hit material.
pub ghost struct HitV {
    pub dist: int,
    pub point: V3i,
    pub normal: V3i,
    pub mat: Material,
}

/// The transient result of an intersection query.  A miss carries the
/// hit flag down, the saturated maximum as its distance, zero vectors
/// and the default material.
pub struct Intersect {
    pub is_intersecting: bool,
    pub distance: i64,
    pub point: Vec3,
    pub normal: Vec3,
    pub material: Material,
}

/// The mathematical image of a hit record's payload.
pub open spec fn hitv_of(r: Intersect) -> HitV {
    HitV { dist: r.distance as int, point: v3(r.point), normal: v3(r.normal), mat: r.material }
}

/// How an executable record realises a query outcome: `None` is the
/// empty record (flag down, the saturated maximum for its distance,
/// zero vectors, and the full default sentinel material), `Some(h)`
/// carries exactly the fields of `h` with the hit flag up.
pub open spec fn matches_hit_opt(r: Intersect, m: Option<HitV>) -> bool {
    match m {
        Option::None => !r.is_intersecting && r.distance == i64::MAX && v3(r.point) == vzero_s()
            && v3(r.normal) == vzero_s() && default_material_s(r.material),
        Option::Some(h) => r.is_intersecting && r.distance as int == h.dist && v3(r.point)
            == h.point && v3(r.normal) == h.normal && r.material == h.mat,
    }
}

impl Intersect {
    pub fn empty() -> (r: Intersect)
        ensures
            matches_hit_opt(r, Option::<HitV>::None),
    {
        Intersect {
            is_intersecting: false,
            distance: i64::MAX,
            point: Vec3::zero(),
            normal: Vec3::zero(),
            material: Material::default(),
        }
    }

    pub fn hit(distance: i64, point: Vec3, normal: Vec3, material: &Material) -> (r: Intersect)
        ensures
            matches_hit_opt(
                r,
                Option::Some(
                    HitV {
                        dist: distance as int,
                        point: v3(point),
                        normal: v3(normal),
                        mat: *material,
                    },
                ),
            ),
    {
        Intersect {
            is_intersecting: true,
            distance,
            point,
            normal,
            material: material.duplicate(),
        }
    }

    pub fn no_hit() -> (r: Intersect)
        ensures
            matches_hit_opt(r, Option::<HitV>::None),
    {
        Intersect::empty()
    }
}

/// The single capability a primitive offers: intersecting a ray.
pub trait RayIntersect {
    /// The mathematical intersection of the ray from `origin` along
    /// `direction` with this shape: `None` for a miss.
    spec fn model(&self, origin: V3i, direction: V3i) -> Option<HitV>;

    /// Intersects the ray from `origin` along `direction` (expected to
    /// be a unit vector) with this shape.
    fn ray_intersect(&self, origin: &Vec3, direction: &Vec3) -> (r: Intersect)
        ensures
            matches_hit_opt(r, self.model(v3(*origin), v3(*direction))),
    ;
}

} // verus!
