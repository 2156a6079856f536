//! General laws of the tracer, stated over the specification mirrors
//! and proved once and for all.
//!
//! The fixed-point scalars round every product and quotient toward
//! zero, so the laws that claim exact values hold on the inputs where
//! the arithmetic is exact; each lemma's premises carve out exactly
//! those inputs.

use crate::color::c3;
use crate::color::c_bytes_s;
use crate::color::c_nonneg_s;
use crate::color::cadd_s;
use crate::color::cscale_s;
use crate::color::czero_s;
use crate::color::C3i;
use crate::cube::cube_model_s;
use crate::cube::slab_s;
use crate::fixed::abs_i;
use crate::fixed::dtz;
use crate::fixed::fp_abs_s;
use crate::fixed::fp_add_s;
use crate::fixed::fp_clip;
use crate::fixed::fp_div_s;
use crate::fixed::fp_max_s;
use crate::fixed::fp_min_s;
use crate::fixed::fp_mul_s;
use crate::fixed::fp_neg_s;
use crate::fixed::fp_powi_s;
use crate::fixed::fp_sqrt_s;
use crate::fixed::fp_sub_s;
use crate::fixed::isqrt_s;
use crate::fixed::lemma_div_ratio_lt_one;
use crate::fixed::lemma_dtz_mul_exact;
use crate::fixed::lemma_fp_div_sign;
use crate::fixed::lemma_fp_mul_sign;
use crate::fixed::lemma_isqrt_square;
use crate::fixed::FP_ONE;
use crate::light::Light;
use crate::material::Material;
use crate::scene::nearest_s;
use crate::scene::nearest_upto_s;
use crate::scene::prim_model_s;
use crate::scene::Primitive;
use crate::sphere::sphere_model_s;
use crate::sphere::Sphere;
use crate::tracer::cast_shadow_s;
use crate::tracer::occludes_s;
use crate::tracer::offset_origin_s;
use crate::tracer::realistic_texture_s;
use crate::tracer::reflect_s;
use crate::tracer::refract_s;
use crate::tracer::shadow_dir_s;
use crate::tracer::shadow_dist_s;
use crate::tracer::shadow_from_s;
use crate::tracer::shadow_intensity_s;
use crate::tracer::shadow_origin_s;
use crate::tracer::skybox_s;
use crate::tracer::ORIGIN_BIAS_FP;
use crate::tracer::spec_cast_ray;
use crate::tracer::uv_mapping_s;
use crate::tracer::REFLECT_SCALE_FP;
use crate::tracer::REFRACT_SCALE_FP;
use crate::trig::ATAN_K;
use crate::trig::QUARTER_PI_FP;
use crate::vec3::v3;
use crate::vec3::v_in_range;
use crate::vec3::vadd_s;
use crate::vec3::vdiv_s;
use crate::vec3::vdot_s;
use crate::vec3::vlen_s;
use crate::vec3::vneg_s;
use crate::vec3::vnorm_s;
use crate::vec3::vscale_s;
use crate::vec3::vsub_s;
use crate::vec3::V3i;
use vstd::prelude::*;

verus! {

/// `fp_mul_s` by zero vanishes.
proof fn lemma_fp_mul_zero(t: int)
    ensures
        fp_mul_s(0, t) == 0,
        fp_mul_s(t, 0) == 0,
{
    lemma_dtz_mul_exact(0, FP_ONE as int);
    assert(0 * t == 0) by (nonlinear_arith);
    assert(t * 0 == 0) by (nonlinear_arith);
}

/// `fp_mul_s(x, k * FP_ONE)` is the exact product `x * k` while it
/// stays in range; stated here for the unit factors the laws use.
proof fn lemma_fp_mul_unit(x: int)
    requires
        i64::MIN as int <= x <= i64::MAX as int,
    ensures
        fp_mul_s(x, FP_ONE as int) == x,
        fp_mul_s(FP_ONE as int, x) == x,
        x > i64::MIN as int ==> fp_mul_s(x, -(FP_ONE as int)) == -x,
        x > i64::MIN as int ==> fp_mul_s(-(FP_ONE as int), x) == -x,
{
    lemma_dtz_mul_exact(x, FP_ONE as int);
    assert(x * (FP_ONE as int) == (FP_ONE as int) * x) by (nonlinear_arith);
    lemma_dtz_mul_exact(-x, FP_ONE as int);
    assert(x * (-(FP_ONE as int)) == (-x) * (FP_ONE as int)) by (nonlinear_arith);
    assert((-(FP_ONE as int)) * x == (-x) * (FP_ONE as int)) by (nonlinear_arith);
}

/// Shadow strength lies in `[0, 1]` whatever the scene, ray and light
/// distance: each occluder contributes `1 - min(1, ratio^2)`, and the
/// squared ratio is never negative.
pub proof fn lemma_shadow_strength_bounds(
    scene: Seq<Primitive>,
    i: int,
    so: V3i,
    ldir: V3i,
    ldist: int,
)
    ensures
        0 <= shadow_from_s(scene, i, so, ldir, ldist) <= FP_ONE as int,
    decreases scene.len() - i,
{
    if 0 <= i < scene.len() {
        lemma_shadow_strength_bounds(scene, i + 1, so, ldir, ldist);
        match prim_model_s(scene[i], so, ldir) {
            Option::Some(h) => {
                if h.dist < ldist {
                    let ratio = fp_div_s(h.dist, ldist);
                    lemma_fp_mul_sign(ratio, ratio);
                }
            },
            Option::None => {},
        }
    }
}

/// A nonnegative base keeps every scaled power nonnegative.
proof fn lemma_powi_nonneg(b: int, e: nat)
    requires
        b >= 0,
    ensures
        fp_powi_s(b, e) >= 0,
    decreases e,
{
    if e > 0 {
        lemma_powi_nonneg(b, (e - 1) as nat);
        lemma_fp_mul_sign(fp_powi_s(b, (e - 1) as nat), b);
    }
}

/// Scaling a nonnegative color by a nonnegative factor keeps every
/// channel nonnegative.
proof fn lemma_cscale_nonneg(c: C3i, k: int)
    requires
        c_nonneg_s(c),
        k >= 0,
    ensures
        c_nonneg_s(cscale_s(c, k)),
{
    lemma_fp_mul_sign(c.r, k);
    lemma_fp_mul_sign(c.g, k);
    lemma_fp_mul_sign(c.b, k);
}

/// At the exact `+z` pole normal, the spherical UV coordinates are the
/// center of the texture square and the gradient texture there is the
/// mid-gray `(127, 127, 63)`.
proof fn lemma_head_on_texture()
    ensures
        uv_mapping_s(V3i { x: 0, y: 0, z: FP_ONE as int }) == (32768int, 32768int),
        realistic_texture_s(32768, 32768) == c_bytes_s(127, 127, 63),
{
    let one = FP_ONE as int;
    // atan2(0, 1) and asin(0) both vanish
    lemma_dtz_mul_exact(0, one);
    lemma_dtz_mul_exact(0, 411775);
    lemma_dtz_mul_exact(0, 205887);
    lemma_fp_mul_zero(0);
    lemma_fp_mul_zero(
        fp_add_s(
            QUARTER_PI_FP as int,
            fp_mul_s(ATAN_K as int, fp_sub_s(one, fp_abs_s(0))),
        ),
    );
    lemma_dtz_mul_exact(one, one);
    lemma_isqrt_square(one);
    assert(fp_mul_s(one, one) == one);
    assert(fp_sqrt_s(one) == one);
    assert(crate::trig::atan2_s(0, one) == 0);
    assert(crate::trig::asin_s(0) == 0);
    assert(fp_div_s(0, crate::trig::TWO_PI_FP as int) == 0);
    assert(fp_div_s(0, crate::trig::PI_FP as int) == 0);
    // the gradient bytes at (1/2, 1/2)
    assert(32768 * 32768 == 16384 * 65536);
    lemma_dtz_mul_exact(16384, one);
    assert(fp_mul_s(32768, 32768) == 16384);
    assert(32768 * 16711680 == 8355840 * 65536);
    lemma_dtz_mul_exact(8355840, one);
    assert(fp_mul_s(32768, 16711680) == 8355840);
    assert(16384 * 16711680 == 4177920 * 65536);
    lemma_dtz_mul_exact(4177920, one);
    assert(fp_mul_s(16384, 16711680) == 4177920);
    assert(crate::tracer::grad_byte_s(32768) == 127);
    assert(crate::tracer::grad_byte_s(16384) == 63);
}

/// Scaling a unit-bounded scalar by the origin bias keeps it within
/// the bias.
proof fn lemma_bias_scale(n: int)
    requires
        abs_i(n) <= FP_ONE as int,
    ensures
        abs_i(fp_mul_s(n, ORIGIN_BIAS_FP as int)) <= ORIGIN_BIAS_FP as int,
{
    if n >= 0 {
        assert(0 <= n * 7 <= 458752);
        vstd::arithmetic::div_mod::lemma_div_is_ordered(n * 7, 458752, 65536);
        vstd::arithmetic::div_mod::lemma_div_pos_is_pos(n * 7, 65536);
        assert(458752int / 65536 == 7);
    } else {
        assert(0 <= (-n) * 7 <= 458752);
        vstd::arithmetic::div_mod::lemma_div_is_ordered((-n) * 7, 458752, 65536);
        vstd::arithmetic::div_mod::lemma_div_pos_is_pos((-n) * 7, 65536);
        assert(458752int / 65536 == 7);
        assert(abs_i(n * 7) == (-n) * 7);
    }
}

/// A saturating shift of an in-range value moves it by at most the
/// shift's magnitude.
proof fn lemma_clip_shift(p: int, delta: int)
    requires
        i64::MIN as int <= p <= i64::MAX as int,
    ensures
        abs_i(fp_clip(p + delta) - p) <= abs_i(delta),
        abs_i(fp_clip(p - delta) - p) <= abs_i(delta),
{
}

/// Any secondary ray (shadow, reflection or refraction) starts within
/// the shadow-acne bias of the hit point: each component of the biased
/// origin differs from the hit point's by at most `ORIGIN_BIAS_FP`,
/// whichever side of the surface the new direction leaves by, for
/// every unit-bounded normal.
pub proof fn lemma_offset_origin_within_bias(point: V3i, normal: V3i, dir: V3i)
    requires
        v_in_range(point),
        abs_i(normal.x) <= FP_ONE as int,
        abs_i(normal.y) <= FP_ONE as int,
        abs_i(normal.z) <= FP_ONE as int,
    ensures
        abs_i(offset_origin_s(point, normal, dir).x - point.x) <= ORIGIN_BIAS_FP as int,
        abs_i(offset_origin_s(point, normal, dir).y - point.y) <= ORIGIN_BIAS_FP as int,
        abs_i(offset_origin_s(point, normal, dir).z - point.z) <= ORIGIN_BIAS_FP as int,
{
    lemma_bias_scale(normal.x);
    lemma_bias_scale(normal.y);
    lemma_bias_scale(normal.z);
    lemma_clip_shift(point.x, fp_mul_s(normal.x, ORIGIN_BIAS_FP as int));
    lemma_clip_shift(point.y, fp_mul_s(normal.y, ORIGIN_BIAS_FP as int));
    lemma_clip_shift(point.z, fp_mul_s(normal.z, ORIGIN_BIAS_FP as int));
}

/// A ray aimed straight along an axis at a sphere's center from
/// outside intersects at exactly `|origin - center| - radius`, with the
/// hit point on the near pole (`point - center == -radius * d`) and the
/// normal the exact unit vector against the ray.  The displacement
/// premises say that the origin sits at distance `zd` from the center
/// against the unit direction `d`; the divisibility premises put the
/// squares on the scalar grid, where the quadratic is computed without
/// rounding, and the size bound keeps every intermediate below
/// saturation.
pub proof fn lemma_sphere_center_ray(center: V3i, radius: int, mat: Material, o: V3i, d: V3i, zd: int)
    requires
        v_in_range(center),
        v_in_range(o),
        axis_unit_s(d),
        (o.x - center.x) * 65536 == -zd * d.x,
        (o.y - center.y) * 65536 == -zd * d.y,
        (o.z - center.z) * 65536 == -zd * d.z,
        0 < radius < zd <= 0x8000000000,
        radius % 256 == 0,
        zd % 256 == 0,
    ensures
        ({
            let m = sphere_model_s(center, radius, mat, o, d);
            &&& m is Some
            &&& m->Some_0.dist == zd - radius
            &&& m->Some_0.dist == vlen_s(vsub_s(o, center)) - radius
            &&& vsub_s(m->Some_0.point, center) == vscale_s(vneg_s(d), radius)
            &&& m->Some_0.normal == vneg_s(d)
        }),
{
    let one = FP_ONE as int;
    let mq = zd / 256;
    let nq = radius / 256;
    vstd::arithmetic::div_mod::lemma_fundamental_div_mod(zd, 256);
    vstd::arithmetic::div_mod::lemma_fundamental_div_mod(radius, 256);
    assert(zd == 256 * mq && radius == 256 * nq);
    assert(0 < nq < mq <= 0x80000000);

    // scalar facts, shared by all six directions
    lemma_fp_mul_zero(0);
    lemma_fp_mul_zero(zd);
    lemma_fp_mul_zero(-zd);
    lemma_fp_mul_zero(zd - radius);
    lemma_fp_mul_zero(radius);
    lemma_dtz_mul_exact(one, one);
    assert((-one) * (-one) == one * one) by (nonlinear_arith);
    lemma_fp_mul_unit(zd);
    lemma_fp_mul_unit(-zd);
    lemma_fp_mul_unit(zd - radius);
    lemma_fp_mul_unit(radius);
    lemma_fp_mul_unit(-radius);
    assert(zd * zd == (mq * mq) * 65536) by (nonlinear_arith)
        requires
            zd == 256 * mq,
    ;
    assert((-zd) * (-zd) == (mq * mq) * 65536) by (nonlinear_arith)
        requires
            zd == 256 * mq,
    ;
    assert(mq * mq <= 0x4000000000000000) by (nonlinear_arith)
        requires
            0 < mq <= 0x80000000,
    ;
    lemma_dtz_mul_exact(mq * mq, one);
    assert(fp_mul_s(zd, zd) == mq * mq);
    assert(fp_mul_s(-zd, -zd) == mq * mq);
    assert(radius * radius == (nq * nq) * 65536) by (nonlinear_arith)
        requires
            radius == 256 * nq,
    ;
    assert(0 < nq * nq <= mq * mq) by (nonlinear_arith)
        requires
            0 < nq <= mq,
    ;
    lemma_dtz_mul_exact(nq * nq, one);
    assert(fp_mul_s(radius, radius) == nq * nq);
    let c = mq * mq - nq * nq;
    lemma_dtz_mul_exact(c, one);
    assert(65536 * c == c * 65536) by (nonlinear_arith);
    assert(fp_mul_s(one, c) == c);
    assert((nq * nq) * 65536 == radius * radius) by (nonlinear_arith)
        requires
            radius == 256 * nq,
    ;
    lemma_isqrt_square(radius);
    assert(fp_sqrt_s(nq * nq) == radius);
    lemma_dtz_mul_exact(zd - radius, one);
    assert(fp_div_s(zd - radius, one) == zd - radius);
    assert(zd - radius >= 256) by (nonlinear_arith)
        requires
            zd == 256 * mq && radius == 256 * nq && nq < mq,
    ;
    lemma_dtz_mul_exact(0, radius);
    assert(0 * radius == 0 * 65536) by (nonlinear_arith);
    lemma_dtz_mul_exact(one, radius);
    assert(radius * 65536 == 65536 * radius) by (nonlinear_arith);
    lemma_dtz_mul_exact(-one, radius);
    assert((-radius) * 65536 == (-65536) * radius) by (nonlinear_arith);
    assert((mq * mq) * 65536 == zd * zd) by (nonlinear_arith)
        requires
            zd == 256 * mq,
    ;
    lemma_isqrt_square(zd);
    assert(fp_sqrt_s(mq * mq) == zd);

    let oc = vsub_s(o, center);
    if d.x == one {
        assert(oc == (V3i { x: -zd, y: 0, z: 0 }));
        assert(vdot_s(d, d) == one);
        assert(vdot_s(oc, d) == -zd);
        assert(vdot_s(oc, oc) == mq * mq);
        assert(vscale_s(d, zd - radius) == (V3i { x: (zd - radius), y: 0, z: 0 }));
        assert(vsub_s(vadd_s(o, vscale_s(d, zd - radius)), center) == (V3i { x: -radius, y: 0, z: 0 }));
        assert(vdiv_s(V3i { x: -radius, y: 0, z: 0 }, radius) == vneg_s(d));
        assert(vscale_s(vneg_s(d), radius) == (V3i { x: -radius, y: 0, z: 0 }));
    } else    if d.x == -one {
        assert(oc == (V3i { x: zd, y: 0, z: 0 }));
        assert(vdot_s(d, d) == one);
        assert(vdot_s(oc, d) == -zd);
        assert(vdot_s(oc, oc) == mq * mq);
        assert(vscale_s(d, zd - radius) == (V3i { x: -(zd - radius), y: 0, z: 0 }));
        assert(vsub_s(vadd_s(o, vscale_s(d, zd - radius)), center) == (V3i { x: radius, y: 0, z: 0 }));
        assert(vdiv_s(V3i { x: radius, y: 0, z: 0 }, radius) == vneg_s(d));
        assert(vscale_s(vneg_s(d), radius) == (V3i { x: radius, y: 0, z: 0 }));
    } else    if d.y == one {
        assert(oc == (V3i { y: -zd, x: 0, z: 0 }));
        assert(vdot_s(d, d) == one);
        assert(vdot_s(oc, d) == -zd);
        assert(vdot_s(oc, oc) == mq * mq);
        assert(vscale_s(d, zd - radius) == (V3i { y: (zd - radius), x: 0, z: 0 }));
        assert(vsub_s(vadd_s(o, vscale_s(d, zd - radius)), center) == (V3i { y: -radius, x: 0, z: 0 }));
        assert(vdiv_s(V3i { y: -radius, x: 0, z: 0 }, radius) == vneg_s(d));
        assert(vscale_s(vneg_s(d), radius) == (V3i { y: -radius, x: 0, z: 0 }));
    } else    if d.y == -one {
        assert(oc == (V3i { y: zd, x: 0, z: 0 }));
        assert(vdot_s(d, d) == one);
        assert(vdot_s(oc, d) == -zd);
        assert(vdot_s(oc, oc) == mq * mq);
        assert(vscale_s(d, zd - radius) == (V3i { y: -(zd - radius), x: 0, z: 0 }));
        assert(vsub_s(vadd_s(o, vscale_s(d, zd - radius)), center) == (V3i { y: radius, x: 0, z: 0 }));
        assert(vdiv_s(V3i { y: radius, x: 0, z: 0 }, radius) == vneg_s(d));
        assert(vscale_s(vneg_s(d), radius) == (V3i { y: radius, x: 0, z: 0 }));
    } else    if d.z == one {
        assert(oc == (V3i { z: -zd, x: 0, y: 0 }));
        assert(vdot_s(d, d) == one);
        assert(vdot_s(oc, d) == -zd);
        assert(vdot_s(oc, oc) == mq * mq);
        assert(vscale_s(d, zd - radius) == (V3i { z: (zd - radius), x: 0, y: 0 }));
        assert(vsub_s(vadd_s(o, vscale_s(d, zd - radius)), center) == (V3i { z: -radius, x: 0, y: 0 }));
        assert(vdiv_s(V3i { z: -radius, x: 0, y: 0 }, radius) == vneg_s(d));
        assert(vscale_s(vneg_s(d), radius) == (V3i { z: -radius, x: 0, y: 0 }));
    } else    if d.z == -one {
        assert(oc == (V3i { z: zd, x: 0, y: 0 }));
        assert(vdot_s(d, d) == one);
        assert(vdot_s(oc, d) == -zd);
        assert(vdot_s(oc, oc) == mq * mq);
        assert(vscale_s(d, zd - radius) == (V3i { z: -(zd - radius), x: 0, y: 0 }));
        assert(vsub_s(vadd_s(o, vscale_s(d, zd - radius)), center) == (V3i { z: radius, x: 0, y: 0 }));
        assert(vdiv_s(V3i { z: radius, x: 0, y: 0 }, radius) == vneg_s(d));
        assert(vscale_s(vneg_s(d), radius) == (V3i { z: radius, x: 0, y: 0 }));
    }
    assert(vdot_s(oc, d) == -zd);
    assert(vdot_s(d, d) == one);
    assert(vdot_s(oc, oc) == mq * mq);
    assert(vlen_s(oc) == zd);
    let m = sphere_model_s(center, radius, mat, o, d);
    assert(m is Some && m->Some_0.dist == zd - radius);
}

/// One axis of the slab test, seen from a point strictly between the
/// two planes: the entry distance is never positive and the exit
/// distance never negative, whatever the direction component (a zero
/// component divides to the saturated positive extreme).
proof fn lemma_slab_straddles(mn: int, mx: int, o: int, d: int)
    requires
        mn < o < mx,
    ensures
        slab_s(mn, mx, o, d).0 <= 0,
        slab_s(mn, mx, o, d).1 >= 0,
{
    let one = FP_ONE as int;
    let inv = fp_div_s(one, d);
    lemma_fp_div_sign(one, d);
    let a1 = fp_sub_s(mn, o);
    let a2 = fp_sub_s(mx, o);
    assert(a1 <= 0 && a2 >= 0);
    lemma_fp_mul_sign(a1, inv);
    lemma_fp_mul_sign(a2, inv);
    if d >= 0 {
        assert(inv >= 0);
        assert(fp_mul_s(a1, inv) <= 0 && fp_mul_s(a2, inv) >= 0);
    } else {
        assert(inv <= 0);
        assert(fp_mul_s(a1, inv) >= 0 && fp_mul_s(a2, inv) <= 0);
    }
}

/// A ray that starts strictly inside an axis-aligned box never reports
/// a miss: every axis's slab interval straddles zero, so no pairwise
/// rejection fires and the box reports a hit (at the entry-distance
/// bookkeeping value, which for an interior origin is not positive).
pub proof fn lemma_cube_interior_hit(mn: V3i, mx: V3i, mat: Material, o: V3i, d: V3i)
    requires
        mn.x < o.x < mx.x,
        mn.y < o.y < mx.y,
        mn.z < o.z < mx.z,
        !(d.x == 0 && d.y == 0 && d.z == 0),
    ensures
        cube_model_s(mn, mx, mat, o, d) is Some,
        cube_model_s(mn, mx, mat, o, d)->Some_0.dist <= 0,
{
    lemma_slab_straddles(mn.x, mx.x, o.x, d.x);
    lemma_slab_straddles(mn.y, mx.y, o.y, d.y);
    lemma_slab_straddles(mn.z, mx.z, o.z, d.z);
}

/// Skipping primitives that do not occlude leaves the shadow fold
/// unchanged.
proof fn lemma_shadow_skip(scene: Seq<Primitive>, i: int, so: V3i, ldir: V3i, ldist: int)
    requires
        0 <= i <= scene.len(),
        forall|j: int| 0 <= j < i ==> !occludes_s(scene[j], so, ldir, ldist),
    ensures
        shadow_from_s(scene, 0, so, ldir, ldist) == shadow_from_s(scene, i, so, ldir, ldist),
    decreases i,
{
    if i > 0 {
        lemma_shadow_skip(scene, i - 1, so, ldir, ldist);
        assert(!occludes_s(scene[i - 1], so, ldir, ldist));
    }
}

/// Shadow strength is zero when no primitive lies between the hit point
/// and the light.
pub proof fn lemma_shadow_clear(point: V3i, normal: V3i, light: Light, scene: Seq<Primitive>)
    requires
        forall|j: int|
            0 <= j < scene.len() ==> !occludes_s(
                scene[j],
                shadow_origin_s(point, normal, light),
                shadow_dir_s(point, light),
                shadow_dist_s(point, light),
            ),
    ensures
        cast_shadow_s(point, normal, light, scene) == 0,
{
    lemma_shadow_skip(
        scene,
        scene.len() as int,
        shadow_origin_s(point, normal, light),
        shadow_dir_s(point, light),
        shadow_dist_s(point, light),
    );
}

/// Shadow strength is strictly positive and at most one when the first
/// occluder of the shadow ray sits strictly between the hit point and
/// the light.
pub proof fn lemma_shadow_occluded(
    point: V3i,
    normal: V3i,
    light: Light,
    scene: Seq<Primitive>,
    i: int,
)
    requires
        0 <= i < scene.len(),
        forall|j: int|
            0 <= j < i ==> !occludes_s(
                scene[j],
                shadow_origin_s(point, normal, light),
                shadow_dir_s(point, light),
                shadow_dist_s(point, light),
            ),
        ({
            let m = prim_model_s(
                scene[i],
                shadow_origin_s(point, normal, light),
                shadow_dir_s(point, light),
            );
            m is Some && 0 <= m->Some_0.dist < shadow_dist_s(point, light)
        }),
    ensures
        0 < cast_shadow_s(point, normal, light, scene) <= FP_ONE as int,
{
    let so = shadow_origin_s(point, normal, light);
    let ldir = shadow_dir_s(point, light);
    let ldist = shadow_dist_s(point, light);
    lemma_shadow_skip(scene, i, so, ldir, ldist);
    let occ = prim_model_s(scene[i], so, ldir)->Some_0.dist;
    assert(shadow_from_s(scene, i, so, ldir, ldist) == shadow_intensity_s(occ, ldist));
    lemma_div_ratio_lt_one(occ, ldist);
    let ratio = fp_div_s(occ, ldist);
    assert(0 <= ratio < 65536);
    assert(ratio * ratio <= 65535int * 65535int) by (nonlinear_arith)
        requires
            0 <= ratio <= 65535,
    ;
    assert(ratio * ratio >= 0) by (nonlinear_arith);
    assert(dtz(ratio * ratio, 65536) == (ratio * ratio) / 65536);
    vstd::arithmetic::div_mod::lemma_div_is_ordered(ratio * ratio, 65535int * 65535int, 65536);
    assert((65535int * 65535int) / 65536 < 65536);
    assert((ratio * ratio) / 65536 >= 0) by (nonlinear_arith)
        requires
            ratio * ratio >= 0,
    ;
    let q = fp_mul_s(ratio, ratio);
    assert(0 <= q < 65536);
    assert(fp_min_s(q, FP_ONE as int) == q);
    assert(shadow_intensity_s(occ, ldist) == fp_sub_s(FP_ONE as int, q));
    assert(0 < fp_sub_s(FP_ONE as int, q) <= FP_ONE as int);
}

/// Past the depth bound the caster answers with the sky color without
/// touching the scene, whatever the materials ask for; together with
/// the termination measure of `spec_cast_ray` this bounds the recursion
/// to the four working levels `0` to `3`.
pub proof fn lemma_depth_guard(
    o: V3i,
    d: V3i,
    scene: Seq<Primitive>,
    light: Light,
    ambient: int,
    depth: int,
)
    requires
        depth > 3,
    ensures
        spec_cast_ray(o, d, scene, light, ambient, depth) == skybox_s(d),
{
    reveal(spec_cast_ray);
}

/// The shading of a hit whose normal is exactly the `+z` pole of the
/// texture square, whose material is opaque (zero reflective and
/// transmissive weights, nonnegative diffuse and specular weights) and
/// gradient-textured, under a nonnegative light and ambient term: the
/// gathered color dominates the mid-gray gradient texture channelwise.
#[verifier::rlimit(100)]
proof fn lemma_lit_after_hit(
    h: crate::ray_intersect::HitV,
    o: V3i,
    d: V3i,
    scene: Seq<Primitive>,
    light: Light,
    ambient: int,
)
    requires
        nearest_s(scene, o, d) == Option::Some(h),
        h.normal == (V3i { x: 0, y: 0, z: FP_ONE as int }),
        h.mat.albedo[0] >= 0,
        h.mat.albedo[1] >= 0,
        h.mat.albedo[2] == 0,
        h.mat.albedo[3] == 0,
        h.mat.name@ != "suelo"@,
        h.mat.name@ != "sol"@,
        light.intensity >= 0,
        c_nonneg_s(c3(light.color)),
        ambient >= 0,
    ensures
        spec_cast_ray(o, d, scene, light, ambient, 0).r >= 127 * 65536,
        spec_cast_ray(o, d, scene, light, ambient, 0).g >= 127 * 65536,
        spec_cast_ray(o, d, scene, light, ambient, 0).b >= 63 * 65536,
{
    let one = FP_ONE as int;

    // shadowed light, diffuse and specular terms are all nonnegative
    let shadow = cast_shadow_s(h.point, h.normal, light, scene);
    lemma_shadow_strength_bounds(
        scene,
        0,
        shadow_origin_s(h.point, h.normal, light),
        shadow_dir_s(h.point, light),
        shadow_dist_s(h.point, light),
    );
    let li = fp_mul_s(light.intensity as int, fp_sub_s(one, shadow));
    lemma_fp_mul_sign(light.intensity as int, fp_sub_s(one, shadow));
    assert(li >= 0);
    let ldir = vnorm_s(vsub_s(v3(light.position), h.point));
    let vdir = vnorm_s(vsub_s(o, h.point));
    let lreflect = vnorm_s(reflect_s(vneg_s(ldir), h.normal));
    let di = fp_min_s(fp_max_s(vdot_s(h.normal, ldir), 0), one);
    let c0 = cscale_s(c3(light.color), h.mat.albedo[0] as int);
    lemma_cscale_nonneg(c3(light.color), h.mat.albedo[0] as int);
    lemma_cscale_nonneg(c0, di);
    lemma_cscale_nonneg(cscale_s(c0, di), li);
    let diffuse = cscale_s(cscale_s(c0, di), li);
    assert(c_nonneg_s(diffuse));
    let sb = fp_max_s(vdot_s(vdir, lreflect), 0);
    lemma_powi_nonneg(sb, h.mat.shininess as nat);
    let si = fp_powi_s(sb, h.mat.shininess as nat);
    let c1 = cscale_s(c3(light.color), h.mat.albedo[1] as int);
    lemma_cscale_nonneg(c3(light.color), h.mat.albedo[1] as int);
    lemma_cscale_nonneg(c1, si);
    lemma_cscale_nonneg(cscale_s(c1, si), li);
    let specular = cscale_s(cscale_s(c1, si), li);
    assert(c_nonneg_s(specular));

    // reflection and refraction are switched off by the zero weights
    lemma_fp_mul_zero(REFLECT_SCALE_FP as int);
    lemma_fp_mul_zero(REFRACT_SCALE_FP as int);

    // the texture at the pole is the mid-gray gradient
    lemma_head_on_texture();
    let tex = realistic_texture_s(32768, 32768);
    assert(tex.r == 8323072 && tex.g == 8323072 && tex.b == 4128768);

    lemma_compose_lower(tex, diffuse, specular, ambient);

    assert(spec_cast_ray(o, d, scene, light, ambient, 0).r >= 8323072 && spec_cast_ray(
        o,
        d,
        scene,
        light,
        ambient,
        0,
    ).g >= 8323072 && spec_cast_ray(o, d, scene, light, ambient, 0).b >= 4128768) by {
        reveal(spec_cast_ray);
    };
}

/// The composition step of the caster on an opaque hit: with zero
/// reflectivity and transparency, a nonnegative ambient term, and
/// nonnegative Phong terms, the composed color dominates the texture's
/// channels.
proof fn lemma_compose_lower(tex: C3i, diffuse: C3i, specular: C3i, ambient: int)
    requires
        c_nonneg_s(diffuse),
        c_nonneg_s(specular),
        ambient >= 0,
        tex.r == 8323072,
        tex.g == 8323072,
        tex.b == 4128768,
    ensures
        ({
            let c = cadd_s(
                cadd_s(
                    cadd_s(
                        cscale_s(
                            cadd_s(cadd_s(tex, diffuse), specular),
                            fp_sub_s(fp_sub_s(FP_ONE as int, 0), 0),
                        ),
                        cscale_s(czero_s(), 0),
                    ),
                    cscale_s(czero_s(), 0),
                ),
                cscale_s(c_bytes_s(255, 255, 255), ambient),
            );
            c.r >= 8323072 && c.g >= 8323072 && c.b >= 4128768
        }),
{
    let one = FP_ONE as int;
    let base = cadd_s(cadd_s(tex, diffuse), specular);
    assert(base.r >= 8323072 && base.g >= 8323072 && base.b >= 4128768);
    lemma_fp_mul_unit(base.r);
    lemma_fp_mul_unit(base.g);
    lemma_fp_mul_unit(base.b);
    assert(cscale_s(base, fp_sub_s(fp_sub_s(one, 0), 0)) == base);
    lemma_fp_mul_zero(0);
    assert(cscale_s(czero_s(), 0) == czero_s());
    let white = c_bytes_s(255, 255, 255);
    assert(c_nonneg_s(white));
    lemma_cscale_nonneg(white, ambient);
}

/// In the one-sphere scene with the ray dead ahead along `-z`, the
/// nearest-hit selection returns the sphere's near-pole hit: normal
/// exactly the `+z` unit, carrying the sphere's material.
#[verifier::rlimit(100)]
proof fn lemma_head_on_nearest(s: Sphere, o: V3i, zd: int, scene: Seq<Primitive>)
    requires
        scene.len() == 1,
        scene[0] == Primitive::Sphere(s),
        v_in_range(o),
        o.x == s.center.x as int,
        o.y == s.center.y as int,
        o.z == s.center.z + zd,
        0 < s.radius < zd <= 0x8000000000,
        (s.radius as int) % 256 == 0,
        zd % 256 == 0,
    ensures
        ({
            let m = nearest_s(scene, o, V3i { x: 0, y: 0, z: -(FP_ONE as int) });
            &&& m is Some
            &&& m->Some_0.normal == (V3i { x: 0, y: 0, z: FP_ONE as int })
            &&& m->Some_0.mat == s.material
        }),
{
    let one = FP_ONE as int;
    let d = V3i { x: 0, y: 0, z: -one };
    let center = v3(s.center);
    let radius = s.radius as int;
    assert(-zd * d.x == 0) by (nonlinear_arith)
        requires
            d.x == 0,
    ;
    assert(-zd * d.y == 0) by (nonlinear_arith)
        requires
            d.y == 0,
    ;
    assert(-zd * d.z == zd * 65536) by (nonlinear_arith)
        requires
            d.z == -65536,
    ;
    let m = sphere_model_s(center, radius, s.material, o, d);
    let h = m->Some_0;
    assert(m is Some && h.normal == (V3i { x: 0, y: 0, z: one }) && h.mat == s.material && h.dist
        < i64::MAX as int) by {
        lemma_sphere_center_ray(center, radius, s.material, o, d, zd);
        assert(vneg_s(d) == (V3i { x: 0, y: 0, z: one }));
        assert(m->Some_0.dist == zd - radius);
    };
    assert(prim_model_s(scene[0], o, d) == m) by {};
    assert(nearest_upto_s(scene, o, d, 0) is None) by {};
    assert(nearest_s(scene, o, d) == Option::Some(h)) by {
        assert(nearest_upto_s(scene, o, d, 1) == Option::Some(h));
    };
}

/// The end-to-end scene's center ray, on the exact instance: one
/// gradient-textured opaque diffuse sphere dead ahead of the ray (the
/// ray runs along `-z` through its center, radius and distance on the
/// scalar grid), under any nonnegative light, shadowing and ambient
/// term.  The gathered color dominates the hit's gradient texture
/// channelwise, so the pixel is lit: it is not black.
pub proof fn lemma_head_on_sphere_ray_lit(
    s: Sphere,
    o: V3i,
    zd: int,
    scene: Seq<Primitive>,
    light: Light,
    ambient: int,
)
    requires
        scene.len() == 1,
        scene[0] == Primitive::Sphere(s),
        v_in_range(o),
        o.x == s.center.x as int,
        o.y == s.center.y as int,
        o.z == s.center.z + zd,
        0 < s.radius < zd <= 0x8000000000,
        (s.radius as int) % 256 == 0,
        zd % 256 == 0,
        s.material.albedo[0] >= 0,
        s.material.albedo[1] >= 0,
        s.material.albedo[2] == 0,
        s.material.albedo[3] == 0,
        s.material.name@ != "suelo"@,
        s.material.name@ != "sol"@,
        light.intensity >= 0,
        c_nonneg_s(c3(light.color)),
        ambient >= 0,
    ensures
        ({
            let c = spec_cast_ray(
                o,
                V3i { x: 0, y: 0, z: -(FP_ONE as int) },
                scene,
                light,
                ambient,
                0,
            );
            &&& c.r >= 127 * 65536
            &&& c.g >= 127 * 65536
            &&& c.b >= 63 * 65536
            &&& c != czero_s()
        }),
{
    let d = V3i { x: 0, y: 0, z: -(FP_ONE as int) };
    lemma_head_on_nearest(s, o, zd, scene);
    let h = nearest_s(scene, o, d)->Some_0;
    lemma_lit_after_hit(h, o, d, scene, light, ambient);
}

/// An exact axis-aligned unit vector.
pub open spec fn axis_unit_s(n: V3i) -> bool {
    ||| n == (V3i { x: FP_ONE as int, y: 0, z: 0 })
    ||| n == (V3i { x: -(FP_ONE as int), y: 0, z: 0 })
    ||| n == (V3i { x: 0, y: FP_ONE as int, z: 0 })
    ||| n == (V3i { x: 0, y: -(FP_ONE as int), z: 0 })
    ||| n == (V3i { x: 0, y: 0, z: FP_ONE as int })
    ||| n == (V3i { x: 0, y: 0, z: -(FP_ONE as int) })
}

/// The scalar facts behind refraction at normal incidence along an
/// axis: the nonzero component's products are exact.
proof fn lemma_refract_axis_scalars(e: int, eta: int)
    requires
        e == FP_ONE as int || e == -(FP_ONE as int),
        0 < eta <= i64::MAX as int,
    ensures
        fp_mul_s(fp_neg_s(e), e) == -(FP_ONE as int),
        fp_mul_s(e, e) == FP_ONE as int,
        fp_mul_s(eta, FP_ONE as int) == eta,
        fp_sqrt_s(FP_ONE as int) == FP_ONE as int,
        fp_mul_s(fp_neg_s(e), eta) == if e == FP_ONE as int {
            -eta
        } else {
            eta
        },
        fp_mul_s(e, fp_sub_s(eta, FP_ONE as int)) == if e == FP_ONE as int {
            eta - (FP_ONE as int)
        } else {
            (FP_ONE as int) - eta
        },
{
    let one = FP_ONE as int;
    lemma_dtz_mul_exact(-one, one);
    lemma_dtz_mul_exact(one, one);
    assert((-e) * e == (-one) * one) by (nonlinear_arith)
        requires
            e == one || e == -one,
    ;
    assert(e * e == one * one) by (nonlinear_arith)
        requires
            e == one || e == -one,
    ;
    lemma_dtz_mul_exact(eta, one);
    assert(isqrt_s(one * one) == one) by {
        lemma_isqrt_square(one);
    }
    lemma_dtz_mul_exact(-eta, one);
    assert((-one) * eta == (-eta) * one) by (nonlinear_arith);
    assert(one * eta == eta * one) by (nonlinear_arith);
    lemma_dtz_mul_exact(eta - one, one);
    assert(one * (eta - one) == (eta - one) * one) by (nonlinear_arith);
    lemma_dtz_mul_exact(one - eta, one);
    assert((-one) * (eta - one) == (one - eta) * one) by (nonlinear_arith);
}

/// Refraction of a ray meeting an exactly axis-aligned surface head-on
/// leaves the direction unchanged, for every positive relative index:
/// at normal incidence Snell's law bends nothing, and the fixed-point
/// computation reproduces that exactly.
pub proof fn lemma_refract_normal_incidence(n: V3i, eta: int)
    requires
        axis_unit_s(n),
        0 < eta <= i64::MAX as int,
    ensures
        refract_s(vneg_s(n), n, eta) == vneg_s(n),
{
    let one = FP_ONE as int;
    let d = vneg_s(n);
    lemma_fp_mul_zero(eta);
    lemma_fp_mul_zero(0);
    lemma_fp_mul_zero(fp_sub_s(fp_mul_s(eta, one), one));
    let e = if n.x != 0 {
        n.x
    } else if n.y != 0 {
        n.y
    } else {
        n.z
    };
    lemma_refract_axis_scalars(e, eta);
    assert(vdot_s(d, n) == -one);
    let cosi = fp_neg_s(fp_min_s(crate::fixed::fp_max_s(vdot_s(d, n), -one), one));
    assert(cosi == one);
    let inner = fp_sub_s(one, fp_mul_s(one, one));
    assert(inner == 0);
    lemma_fp_mul_zero(fp_mul_s(eta, eta));
    let k = fp_sub_s(one, fp_mul_s(fp_mul_s(eta, eta), inner));
    assert(k == one);
    assert(fp_sqrt_s(k) == one);
    let coeff = fp_sub_s(fp_mul_s(eta, cosi), fp_sqrt_s(k));
    assert(coeff == eta - one);
    lemma_fp_mul_zero(coeff);
    assert(refract_s(d, n, eta) == vneg_s(n));
}

/// Snell's-law round trip at normal incidence: entering and then
/// leaving a medium through parallel axis-aligned interfaces returns
/// the original direction exactly, for any pair of positive relative
/// indices (in particular reciprocal ones).
pub proof fn lemma_refract_round_trip(n: V3i, eta_in: int, eta_out: int)
    requires
        axis_unit_s(n),
        0 < eta_in <= i64::MAX as int,
        0 < eta_out <= i64::MAX as int,
    ensures
        refract_s(refract_s(vneg_s(n), n, eta_in), n, eta_out) == vneg_s(n),
{
    lemma_refract_normal_incidence(n, eta_in);
    lemma_refract_normal_incidence(n, eta_out);
}

} // verus!
