//! The scene's primitives as a closed sum type, and the nearest-hit
//! selection over an ordered scene.

use crate::cube::cube_model_s;
use crate::cube::Cube;
use crate::ray_intersect::matches_hit_opt;
use crate::ray_intersect::HitV;
use crate::ray_intersect::Intersect;
use crate::ray_intersect::RayIntersect;
use crate::sphere::sphere_model_s;
use crate::sphere::Sphere;
use crate::vec3::v3;
use crate::vec3::V3i;
use crate::vec3::Vec3;
use vstd::prelude::*;

verus! {

/// A geometric primitive: the closed set of shapes a scene may hold.
pub enum Primitive {
    Sphere(Sphere),
    Cube(Cube),
}

/// The intersection model of either shape.
pub open spec fn prim_model_s(p: Primitive, o: V3i, d: V3i) -> Option<HitV> {
    match p {
        Primitive::Sphere(s) => sphere_model_s(v3(s.center), s.radius as int, s.material, o, d),
        Primitive::Cube(c) => cube_model_s(v3(c.min), v3(c.max), c.material, o, d),
    }
}

/// The distance of an outcome, the saturated maximum for a miss.
pub open spec fn dist_of_s(m: Option<HitV>) -> int {
    match m {
        Option::None => i64::MAX as int,
        Option::Some(h) => h.dist,
    }
}

/// The nearest hit among the first `n` primitives, scanned in scene
/// order, a later hit displacing an earlier one only when strictly
/// closer (so exact ties go to the first primitive seen).
pub open spec fn nearest_upto_s(scene: Seq<Primitive>, o: V3i, d: V3i, n: int) -> Option<HitV>
    decreases n,
{
    if n <= 0 {
        Option::<HitV>::None
    } else {
        let prev = nearest_upto_s(scene, o, d, n - 1);
        match prim_model_s(scene[n - 1], o, d) {
            Option::Some(h) => if h.dist < dist_of_s(prev) {
                Option::Some(h)
            } else {
                prev
            },
            Option::None => prev,
        }
    }
}

/// The nearest hit in the whole scene.
pub open spec fn nearest_s(scene: Seq<Primitive>, o: V3i, d: V3i) -> Option<HitV> {
    nearest_upto_s(scene, o, d, scene.len() as int)
}

impl RayIntersect for Primitive {
    open spec fn model(&self, origin: V3i, direction: V3i) -> Option<HitV> {
        prim_model_s(*self, origin, direction)
    }

    fn ray_intersect(&self, origin: &Vec3, direction: &Vec3) -> (r: Intersect)
        ensures
            matches_hit_opt(r, self.model(v3(*origin), v3(*direction))),
    {
        match self {
            Primitive::Sphere(s) => s.ray_intersect(origin, direction),
            Primitive::Cube(c) => c.ray_intersect(origin, direction),
        }
    }
}

/// Scans the scene in order and returns the record of the nearest hit,
/// or the empty record when every primitive misses.
pub fn nearest_hit(objects: &Vec<Primitive>, origin: &Vec3, direction: &Vec3) -> (r: Intersect)
    ensures
        matches_hit_opt(r, nearest_s(objects@, v3(*origin), v3(*direction))),
{
    let ghost o = v3(*origin);
    let ghost d = v3(*direction);
    let mut best = Intersect::empty();
    let mut i: usize = 0;
    while i < objects.len()
        invariant
            0 <= i <= objects@.len(),
            matches_hit_opt(best, nearest_upto_s(objects@, o, d, i as int)),
            o == v3(*origin),
            d == v3(*direction),
        decreases objects@.len() - i,
    {
        let inter = objects[i].ray_intersect(origin, direction);
        if inter.is_intersecting && inter.distance < best.distance {
            best = inter;
        }
        i = i + 1;
    }
    best
}

} // verus!
