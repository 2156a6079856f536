//! Shading and the recursive ray caster.

use crate::color::c3;
use crate::color::c_bytes_s;
use crate::color::cadd_s;
use crate::color::cscale_s;
use crate::color::czero_s;
use crate::color::C3i;
use crate::color::Color;
use crate::fixed::fp_abs;
use crate::fixed::fp_abs_s;
use crate::fixed::fp_add;
use crate::fixed::fp_add_s;
use crate::fixed::fp_div;
use crate::fixed::fp_div_s;
use crate::fixed::fp_max;
use crate::fixed::fp_max_s;
use crate::fixed::fp_min;
use crate::fixed::fp_min_s;
use crate::fixed::fp_mul;
use crate::fixed::fp_mul_s;
use crate::fixed::fp_neg_s;
use crate::fixed::fp_powi;
use crate::fixed::fp_powi_s;
use crate::fixed::fp_sqrt;
use crate::fixed::fp_sqrt_s;
use crate::fixed::fp_sub;
use crate::fixed::fp_sub_s;
use crate::fixed::FP_ONE;
use crate::fixed::HALF_FP;
use crate::fixed::TWO_FP;
use crate::camera::Camera;
use crate::color::to_hex_s;
use crate::fixed::fp_neg;
use crate::light::Light;
use crate::ray_intersect::Intersect;
use crate::ray_intersect::RayIntersect;
use crate::scene::nearest_s;
use crate::scene::prim_model_s;
use crate::scene::Primitive;
use crate::trig::asin_fp;
use crate::trig::asin_s;
use crate::trig::atan2_fp;
use crate::trig::atan2_s;
use crate::trig::PI_FP;
use crate::trig::TWO_PI_FP;
use crate::vec3::v3;
use crate::vec3::vadd_s;
use crate::vec3::vdot_s;
use crate::vec3::vlen_s;
use crate::vec3::vneg_s;
use crate::vec3::vnorm_s;
use crate::vec3::vscale_s;
use crate::vec3::vsub_s;
use crate::vec3::V3i;
use crate::vec3::Vec3;
use vstd::prelude::*;
use vstd::string::StringExecFns;

verus! {

/// The bias (about `1e-4` units) that nudges a secondary ray's origin
/// off the surface it leaves, against shadow acne.
pub const ORIGIN_BIAS_FP: i64 = 7;

/// The factors `0.8` and `0.9` that scale the albedo's reflective and
/// transmissive weights into effective reflectivity and transparency.
pub const REFLECT_SCALE_FP: i64 = 52429;

pub const REFRACT_SCALE_FP: i64 = 58982;

/// `10`, scaled: the checkerboard block frequency.
pub const BLOCK_SIZE_FP: i64 = 655360;

/// `255`, scaled: the display byte range as a scalar.
pub const BYTE_MAX_FP: i64 = 16711680;

/// A secondary ray's origin: the hit point nudged along the normal, on
/// the side the new direction leaves by.
pub open spec fn offset_origin_s(point: V3i, normal: V3i, dir: V3i) -> V3i {
    let off = vscale_s(normal, ORIGIN_BIAS_FP as int);
    if vdot_s(dir, normal) < 0 {
        vsub_s(point, off)
    } else {
        vadd_s(point, off)
    }
}

pub fn offset_origin(intersect: &Intersect, direction: &Vec3) -> (r: Vec3)
    ensures
        v3(r) == offset_origin_s(v3(intersect.point), v3(intersect.normal), v3(*direction)),
{
    let offset = intersect.normal.scale(ORIGIN_BIAS_FP);
    if direction.dot(&intersect.normal) < 0 {
        intersect.point.minus(&offset)
    } else {
        intersect.point.plus(&offset)
    }
}

/// The mirror direction: `incident - 2 (incident . normal) normal`.
pub open spec fn reflect_s(incident: V3i, normal: V3i) -> V3i {
    vsub_s(incident, vscale_s(normal, fp_mul_s(TWO_FP as int, vdot_s(incident, normal))))
}

pub fn reflect(incident: &Vec3, normal: &Vec3) -> (r: Vec3)
    ensures
        v3(r) == reflect_s(v3(*incident), v3(*normal)),
{
    incident.minus(&normal.scale(fp_mul(TWO_FP, incident.dot(normal))))
}

/// Snell's-law refraction of `incident` at a surface of relative index
/// `eta_t`.  A ray arriving from inside flips the normal and inverts
/// the index; total internal reflection (negative discriminant) falls
/// back to the mirror direction.
pub open spec fn refract_s(incident: V3i, normal: V3i, eta_t: int) -> V3i {
    let cosi = fp_neg_s(
        fp_min_s(fp_max_s(vdot_s(incident, normal), -(FP_ONE as int)), FP_ONE as int),
    );
    let n_cosi = if cosi < 0 {
        fp_neg_s(cosi)
    } else {
        cosi
    };
    let eta = if cosi < 0 {
        fp_div_s(FP_ONE as int, eta_t)
    } else {
        eta_t
    };
    let n_normal = if cosi < 0 {
        vneg_s(normal)
    } else {
        normal
    };
    let k = fp_sub_s(
        FP_ONE as int,
        fp_mul_s(fp_mul_s(eta, eta), fp_sub_s(FP_ONE as int, fp_mul_s(n_cosi, n_cosi))),
    );
    if k < 0 {
        reflect_s(incident, n_normal)
    } else {
        vadd_s(
            vscale_s(incident, eta),
            vscale_s(n_normal, fp_sub_s(fp_mul_s(eta, n_cosi), fp_sqrt_s(k))),
        )
    }
}

pub fn refract(incident: &Vec3, normal: &Vec3, eta_t: i64) -> (r: Vec3)
    ensures
        v3(r) == refract_s(v3(*incident), v3(*normal), eta_t as int),
{
    let cosi = -fp_min(fp_max(incident.dot(normal), -FP_ONE), FP_ONE);
    let (n_cosi, eta, n_normal): (i64, i64, Vec3) = if cosi < 0 {
        (-cosi, fp_div(FP_ONE, eta_t), normal.negate())
    } else {
        (cosi, eta_t, *normal)
    };
    let k = fp_sub(FP_ONE, fp_mul(fp_mul(eta, eta), fp_sub(FP_ONE, fp_mul(n_cosi, n_cosi))));
    if k < 0 {
        reflect(incident, &n_normal)
    } else {
        incident.scale(eta).plus(&n_normal.scale(fp_sub(fp_mul(eta, n_cosi), fp_sqrt(k))))
    }
}

/// A checkerboard of ten-by-ten blocks over the UV square.
pub open spec fn block_texture_s(u: int, v: int) -> C3i {
    let ub = (fp_abs_s(fp_mul_s(u, BLOCK_SIZE_FP as int)) / 65536) % 2;
    let vb = (fp_abs_s(fp_mul_s(v, BLOCK_SIZE_FP as int)) / 65536) % 2;
    if (ub + vb) % 2 == 0 {
        c_bytes_s(255, 255, 255)
    } else {
        czero_s()
    }
}

pub fn block_texture(u: i64, v: i64) -> (c: Color)
    ensures
        c3(c) == block_texture_s(u as int, v as int),
{
    let u_block: u64 = ((fp_abs(fp_mul(u, BLOCK_SIZE_FP)) as u64) / 65536) % 2;
    let v_block: u64 = ((fp_abs(fp_mul(v, BLOCK_SIZE_FP)) as u64) / 65536) % 2;
    if (u_block + v_block) % 2 == 0 {
        Color::new(255, 255, 255)
    } else {
        Color::new(0, 0, 0)
    }
}

/// One display byte of the gradient texture: `|t * 255|` truncated and
/// capped at `255`.
pub open spec fn grad_byte_s(t: int) -> int {
    let b = fp_abs_s(fp_mul_s(t, BYTE_MAX_FP as int)) / 65536;
    if b > 255 {
        255
    } else {
        b
    }
}

fn grad_byte(t: i64) -> (b: u8)
    ensures
        b as int == grad_byte_s(t as int),
{
    let v: u64 = (fp_abs(fp_mul(t, BYTE_MAX_FP)) as u64) / 65536;
    if v > 255 {
        255
    } else {
        v as u8
    }
}

/// A smooth UV gradient.
pub open spec fn realistic_texture_s(u: int, v: int) -> C3i {
    c_bytes_s(grad_byte_s(u), grad_byte_s(v), grad_byte_s(fp_mul_s(u, v)))
}

pub fn realistic_texture(u: i64, v: i64) -> (c: Color)
    ensures
        c3(c) == realistic_texture_s(u as int, v as int),
{
    Color::new(grad_byte(u), grad_byte(v), grad_byte(fp_mul(u, v)))
}

/// Spherical UV coordinates of a surface normal.
pub open spec fn uv_mapping_s(normal: V3i) -> (int, int) {
    (
        fp_add_s(HALF_FP as int, fp_div_s(atan2_s(normal.x, normal.z), TWO_PI_FP as int)),
        fp_sub_s(HALF_FP as int, fp_div_s(asin_s(normal.y), PI_FP as int)),
    )
}

pub fn uv_mapping(intersect: &Intersect) -> (r: (i64, i64))
    ensures
        (r.0 as int, r.1 as int) == uv_mapping_s(v3(intersect.normal)),
{
    let u = fp_add(HALF_FP, fp_div(atan2_fp(intersect.normal.x, intersect.normal.z), TWO_PI_FP));
    let v = fp_sub(HALF_FP, fp_div(asin_fp(intersect.normal.y), PI_FP));
    (u, v)
}

/// The fallback color for rays that hit nothing: a vertical gradient
/// between a day-top and a night-bottom color, independent of the
/// light's state.
pub open spec fn skybox_s(d: V3i) -> C3i {
    let t = fp_mul_s(fp_add_s(d.y, FP_ONE as int), HALF_FP as int);
    cadd_s(
        cscale_s(c_bytes_s(135, 206, 250), t),
        cscale_s(c_bytes_s(25, 25, 112), fp_sub_s(FP_ONE as int, t)),
    )
}

pub fn skybox(ray_direction: &Vec3) -> (c: Color)
    ensures
        c3(c) == skybox_s(v3(*ray_direction)),
{
    let t = fp_mul(fp_add(ray_direction.y, FP_ONE), HALF_FP);
    let top_color = Color::new(135, 206, 250);
    let bottom_color = Color::new(25, 25, 112);
    top_color.scale(t).plus(&bottom_color.scale(fp_sub(FP_ONE, t)))
}

/// How dark an occluder at `occ_dist` leaves a point whose light is
/// `light_dist` away: `1 - min(1, (occ_dist / light_dist)^2)`, so a
/// touching occluder darkens fully and a distant one only partly.
pub open spec fn shadow_intensity_s(occ_dist: int, light_dist: int) -> int {
    let ratio = fp_div_s(occ_dist, light_dist);
    fp_sub_s(FP_ONE as int, fp_min_s(fp_mul_s(ratio, ratio), FP_ONE as int))
}

/// The shadow cast by the first occluder at index `i` or later that
/// intersects the shadow ray strictly closer than the light; zero when
/// none does.
pub open spec fn shadow_from_s(
    scene: Seq<Primitive>,
    i: int,
    so: V3i,
    ldir: V3i,
    ldist: int,
) -> int
    decreases scene.len() - i,
{
    if i < 0 || i >= scene.len() {
        0
    } else {
        match prim_model_s(scene[i], so, ldir) {
            Option::Some(h) => if h.dist < ldist {
                shadow_intensity_s(h.dist, ldist)
            } else {
                shadow_from_s(scene, i + 1, so, ldir, ldist)
            },
            Option::None => shadow_from_s(scene, i + 1, so, ldir, ldist),
        }
    }
}

/// The unit direction from a hit point toward the light.
pub open spec fn shadow_dir_s(point: V3i, light: Light) -> V3i {
    vnorm_s(vsub_s(v3(light.position), point))
}

/// The distance from a hit point to the light.
pub open spec fn shadow_dist_s(point: V3i, light: Light) -> int {
    vlen_s(vsub_s(v3(light.position), point))
}

/// Where the shadow ray starts: the hit point biased toward the light's
/// side of the surface.
pub open spec fn shadow_origin_s(point: V3i, normal: V3i, light: Light) -> V3i {
    offset_origin_s(point, normal, shadow_dir_s(point, light))
}

/// Whether one primitive blocks a shadow ray: it intersects the ray
/// strictly closer than the light.
pub open spec fn occludes_s(p: Primitive, so: V3i, ldir: V3i, ldist: int) -> bool {
    let m = prim_model_s(p, so, ldir);
    m is Some && m->Some_0.dist < ldist
}

/// The shadow strength at a hit: the shadow ray leaves the biased hit
/// point toward the light, and the first occluder in scene order that
/// is strictly closer than the light decides.
pub open spec fn cast_shadow_s(point: V3i, normal: V3i, light: Light, scene: Seq<Primitive>) -> int {
    shadow_from_s(
        scene,
        0,
        shadow_origin_s(point, normal, light),
        shadow_dir_s(point, light),
        shadow_dist_s(point, light),
    )
}

pub fn cast_shadow(intersect: &Intersect, light: &Light, objects: &Vec<Primitive>) -> (r: i64)
    ensures
        r as int == cast_shadow_s(v3(intersect.point), v3(intersect.normal), *light, objects@),
{
    let light_dir = light.position.minus(&intersect.point).normalize();
    let light_distance = light.position.minus(&intersect.point).magnitude();
    let shadow_ray_origin = offset_origin(intersect, &light_dir);
    let ghost so = v3(shadow_ray_origin);
    let ghost ld = v3(light_dir);
    let mut i: usize = 0;
    while i < objects.len()
        invariant
            0 <= i <= objects@.len(),
            so == v3(shadow_ray_origin),
            ld == v3(light_dir),
            ld == vnorm_s(vsub_s(v3(light.position), v3(intersect.point))),
            light_distance as int == vlen_s(vsub_s(v3(light.position), v3(intersect.point))),
            so == offset_origin_s(v3(intersect.point), v3(intersect.normal), ld),
            shadow_from_s(objects@, 0, so, ld, light_distance as int) == shadow_from_s(
                objects@,
                i as int,
                so,
                ld,
                light_distance as int,
            ),
        decreases objects@.len() - i,
    {
        let shadow_intersect = objects[i].ray_intersect(&shadow_ray_origin, &light_dir);
        if shadow_intersect.is_intersecting && shadow_intersect.distance < light_distance {
            proof {
                let m = prim_model_s(objects@[i as int], so, ld);
                assert(m is Some && m->Some_0.dist == shadow_intersect.distance as int);
                assert(shadow_from_s(objects@, i as int, so, ld, light_distance as int)
                    == shadow_intensity_s(shadow_intersect.distance as int, light_distance as int));
            }
            let distance_ratio = fp_div(shadow_intersect.distance, light_distance);
            return fp_sub(FP_ONE, fp_min(fp_mul(distance_ratio, distance_ratio), FP_ONE));
        }
        i = i + 1;
    }
    0
}

/// The color a ray gathers: sky fallback past the depth bound or on a
/// miss; otherwise Phong lighting of the nearest hit, shadowed, plus
/// one reflection ray and one refraction ray (each at `depth + 1`), the
/// hit's procedural texture, and the flat ambient term.  The depth
/// guard at `depth > 3` bounds the recursion to four working levels.
#[verifier::opaque]
pub open spec fn spec_cast_ray(
    o: V3i,
    d: V3i,
    scene: Seq<Primitive>,
    light: Light,
    ambient: int,
    depth: int,
) -> C3i
    decreases 4 - depth,
{
    if depth > 3 {
        skybox_s(d)
    } else {
        match nearest_s(scene, o, d) {
            Option::None => skybox_s(d),
            Option::Some(h) => {
                let ldir = vnorm_s(vsub_s(v3(light.position), h.point));
                let vdir = vnorm_s(vsub_s(o, h.point));
                let lreflect = vnorm_s(reflect_s(vneg_s(ldir), h.normal));
                let shadow = cast_shadow_s(h.point, h.normal, light, scene);
                let li = fp_mul_s(light.intensity as int, fp_sub_s(FP_ONE as int, shadow));
                let di = fp_min_s(fp_max_s(vdot_s(h.normal, ldir), 0), FP_ONE as int);
                let diffuse = cscale_s(
                    cscale_s(cscale_s(c3(light.color), h.mat.albedo[0] as int), di),
                    li,
                );
                let si = fp_powi_s(
                    fp_max_s(vdot_s(vdir, lreflect), 0),
                    h.mat.shininess as nat,
                );
                let specular = cscale_s(
                    cscale_s(cscale_s(c3(light.color), h.mat.albedo[1] as int), si),
                    li,
                );
                let reflectivity = fp_mul_s(h.mat.albedo[2] as int, REFLECT_SCALE_FP as int);
                let reflect_color = if reflectivity > 0 {
                    let rd = vnorm_s(reflect_s(d, h.normal));
                    let ro = offset_origin_s(h.point, h.normal, rd);
                    spec_cast_ray(ro, rd, scene, light, ambient, depth + 1)
                } else {
                    czero_s()
                };
                let transparency = fp_mul_s(h.mat.albedo[3] as int, REFRACT_SCALE_FP as int);
                let refract_color = if transparency > 0 {
                    let td = refract_s(d, h.normal, h.mat.refractive_index as int);
                    let to = offset_origin_s(h.point, h.normal, td);
                    spec_cast_ray(to, td, scene, light, ambient, depth + 1)
                } else {
                    czero_s()
                };
                let uv = uv_mapping_s(h.normal);
                let tex = if h.mat.name@ == "suelo"@ {
                    block_texture_s(uv.0, uv.1)
                } else if h.mat.name@ == "sol"@ {
                    c_bytes_s(255, 223, 0)
                } else {
                    realistic_texture_s(uv.0, uv.1)
                };
                cadd_s(
                    cadd_s(
                        cadd_s(
                            cscale_s(
                                cadd_s(cadd_s(tex, diffuse), specular),
                                fp_sub_s(fp_sub_s(FP_ONE as int, reflectivity), transparency),
                            ),
                            cscale_s(reflect_color, reflectivity),
                        ),
                        cscale_s(refract_color, transparency),
                    ),
                    cscale_s(c_bytes_s(255, 255, 255), ambient),
                )
            },
        }
    }
}

/// Casts one ray into the scene and returns its gathered color; see
/// `spec_cast_ray` for the exact statement of every case.
pub fn cast_ray(
    ray_origin: &Vec3,
    ray_direction: &Vec3,
    objects: &Vec<Primitive>,
    light: &Light,
    ambient_light: i64,
    depth: u32,
) -> (r: Color)
    ensures
        c3(r) == spec_cast_ray(
            v3(*ray_origin),
            v3(*ray_direction),
            objects@,
            *light,
            ambient_light as int,
            depth as int,
        ),
        depth > 3 ==> c3(r) == skybox_s(v3(*ray_direction)),
    decreases 4 - depth,
{
    proof {
        reveal(spec_cast_ray);
    }
    if depth > 3 {
        return skybox(ray_direction);
    }
    let intersect = crate::scene::nearest_hit(objects, ray_origin, ray_direction);
    if !intersect.is_intersecting {
        return skybox(ray_direction);
    }
    let ghost h = nearest_s(objects@, v3(*ray_origin), v3(*ray_direction))->Some_0;

    let light_dir = light.position.minus(&intersect.point).normalize();
    let view_dir = ray_origin.minus(&intersect.point).normalize();
    let reflect_dir = reflect(&light_dir.negate(), &intersect.normal).normalize();

    let shadow_intensity = cast_shadow(&intersect, light, objects);
    let light_intensity = fp_mul(light.intensity, fp_sub(FP_ONE, shadow_intensity));

    let diffuse_intensity = fp_min(fp_max(intersect.normal.dot(&light_dir), 0), FP_ONE);
    let diffuse = light.color.scale(intersect.material.albedo[0]).scale(diffuse_intensity).scale(
        light_intensity,
    );

    let specular_intensity = fp_powi(
        fp_max(view_dir.dot(&reflect_dir), 0),
        intersect.material.shininess,
    );
    let specular = light.color.scale(intersect.material.albedo[1]).scale(specular_intensity).scale(
        light_intensity,
    );

    let mut reflect_color = Color::black();
    let reflectivity = fp_mul(intersect.material.albedo[2], REFLECT_SCALE_FP);
    if reflectivity > 0 {
        let rd = reflect(ray_direction, &intersect.normal).normalize();
        let ro = offset_origin(&intersect, &rd);
        reflect_color = cast_ray(&ro, &rd, objects, light, ambient_light, depth + 1);
    }

    let mut refract_color = Color::black();
    let transparency = fp_mul(intersect.material.albedo[3], REFRACT_SCALE_FP);
    if transparency > 0 {
        let td = refract(ray_direction, &intersect.normal, intersect.material.refractive_index);
        let to = offset_origin(&intersect, &td);
        refract_color = cast_ray(&to, &td, objects, light, ambient_light, depth + 1);
    }

    let uv = uv_mapping(&intersect);
    let suelo: String = String::from_str("suelo");
    let sol: String = String::from_str("sol");
    let texture_color = if intersect.material.name == suelo {
        block_texture(uv.0, uv.1)
    } else if intersect.material.name == sol {
        Color::new(255, 223, 0)
    } else {
        realistic_texture(uv.0, uv.1)
    };

    let final_color = texture_color.plus(&diffuse).plus(&specular).scale(
        fp_sub(fp_sub(FP_ONE, reflectivity), transparency),
    ).plus(&reflect_color.scale(reflectivity)).plus(&refract_color.scale(transparency)).plus(
        &Color::new(255, 255, 255).scale(ambient_light),
    );
    final_color
}

/// A row-major index of an earlier row lies before the current row's
/// start.
proof fn lemma_row_index(py: int, px: int, y: int, w: int)
    requires
        0 <= py < y,
        0 <= px < w,
    ensures
        0 <= py * w + px < y * w,
{
    assert(py * w + px < y * w) by (nonlinear_arith)
        requires
            0 <= py < y && 0 <= px < w,
    ;
    assert(py * w + px >= 0) by (nonlinear_arith)
        requires
            py >= 0 && px >= 0 && w > 0,
    ;
}

/// The field-of-view scale `tan(pi/8)` of the fixed `pi/4` vertical
/// field of view.
pub const FOV_SCALE_FP: i64 = 27146;

/// The packed pixel at column `px`, row `py` of a `w` by `h` frame:
/// normalized device coordinates scaled by aspect ratio and the
/// field-of-view tangent give a camera-space direction, the camera
/// basis turns it into a world ray from the eye, and the cast ray's
/// color is packed for display.
pub open spec fn spec_pixel(
    px: int,
    py: int,
    w: int,
    h: int,
    scene: Seq<Primitive>,
    cam: Camera,
    light: Light,
    ambient: int,
) -> int {
    let sx = fp_sub_s(fp_div_s(2 * px * 65536, w * 65536), FP_ONE as int);
    let sy = fp_add_s(fp_neg_s(fp_div_s(2 * py * 65536, h * 65536)), FP_ONE as int);
    let aspect = fp_div_s(w * 65536, h * 65536);
    let sxs = fp_mul_s(fp_mul_s(sx, aspect), FOV_SCALE_FP as int);
    let sys = fp_mul_s(sy, FOV_SCALE_FP as int);
    let rd = crate::camera::ray_for_pixel_s(cam, sxs, sys);
    to_hex_s(spec_cast_ray(v3(cam.eye), rd, scene, light, ambient, 0))
}

/// Renders one frame into a row-major buffer of packed pixels, one
/// `cast_ray` per pixel.  `spec_pixel` pins every entry.  The size
/// bound is the machine limit of the device-coordinate scaling: a
/// column index is doubled and scaled by `FP_ONE`, so `2 * 2^45 * 2^16
/// = 2^62` is the largest product the `i64` scalars can carry.
#[verifier::rlimit(100)]
pub fn render(
    objects: &Vec<Primitive>,
    camera: &Camera,
    light: &Light,
    ambient_light: i64,
    width: usize,
    height: usize,
) -> (buf: Vec<u32>)
    requires
        0 < width <= 0x200000000000,
        0 < height <= 0x200000000000,
    ensures
        buf@.len() == width * height,
        forall|py: int, px: int|
            0 <= py < height as int && 0 <= px < width as int ==> buf@[py * width as int + px]
                as int == spec_pixel(
                px,
                py,
                width as int,
                height as int,
                objects@,
                *camera,
                *light,
                ambient_light as int,
            ),
{
    let aspect = fp_div((width as i64) * 65536, (height as i64) * 65536);
    let mut buf: Vec<u32> = Vec::new();
    let mut y: usize = 0;
    while y < height
        invariant
            0 < width <= 0x200000000000,
            0 < height <= 0x200000000000,
            y <= height,
            aspect as int == fp_div_s(width as int * 65536, height as int * 65536),
            buf@.len() == y * width,
            forall|py: int, px: int|
                0 <= py < y as int && 0 <= px < width as int ==> buf@[py * width as int + px]
                    as int == spec_pixel(
                    px,
                    py,
                    width as int,
                    height as int,
                    objects@,
                    *camera,
                    *light,
                    ambient_light as int,
                ),
        decreases height - y,
    {
        let mut x: usize = 0;
        while x < width
            invariant
                0 < width <= 0x200000000000,
                0 < height <= 0x200000000000,
                y < height,
                x <= width,
                aspect as int == fp_div_s(width as int * 65536, height as int * 65536),
                buf@.len() == y * width + x,
                forall|py: int, px: int|
                    0 <= py < y as int && 0 <= px < width as int ==> buf@[py * width as int + px]
                        as int == spec_pixel(
                        px,
                        py,
                        width as int,
                        height as int,
                        objects@,
                        *camera,
                        *light,
                        ambient_light as int,
                    ),
                forall|px: int|
                    0 <= px < x as int ==> buf@[y as int * width as int + px] as int == spec_pixel(
                        px,
                        y as int,
                        width as int,
                        height as int,
                        objects@,
                        *camera,
                        *light,
                        ambient_light as int,
                    ),
            decreases width - x,
        {
            let screen_x = fp_sub(fp_div((2 * x as i64) * 65536, (width as i64) * 65536), FP_ONE);
            let screen_y = fp_add(
                fp_neg(fp_div((2 * y as i64) * 65536, (height as i64) * 65536)),
                FP_ONE,
            );
            let sxs = fp_mul(fp_mul(screen_x, aspect), FOV_SCALE_FP);
            let sys = fp_mul(screen_y, FOV_SCALE_FP);
            let rotated = camera.ray_for_pixel(sxs, sys);
            let color = cast_ray(&camera.eye, &rotated, objects, light, ambient_light, 0);
            let pix = color.to_hex();
            buf.push(pix);
            proof {
                let sxi = fp_sub_s(
                    fp_div_s(2 * (x as int) * 65536, width as int * 65536),
                    FP_ONE as int,
                );
                let syi = fp_add_s(
                    fp_neg_s(fp_div_s(2 * (y as int) * 65536, height as int * 65536)),
                    FP_ONE as int,
                );
                assert(screen_x as int == sxi);
                assert(screen_y as int == syi);
                assert(v3(rotated) == crate::camera::ray_for_pixel_s(
                    *camera,
                    fp_mul_s(fp_mul_s(sxi, aspect as int), FOV_SCALE_FP as int),
                    fp_mul_s(syi, FOV_SCALE_FP as int),
                ));
                assert(pix as int == spec_pixel(
                    x as int,
                    y as int,
                    width as int,
                    height as int,
                    objects@,
                    *camera,
                    *light,
                    ambient_light as int,
                ));
                assert(buf@[y as int * width as int + x as int] == pix);
                assert forall|py: int, px: int|
                    0 <= py < y as int && 0 <= px < width as int implies buf@[py * width as int
                    + px] as int == spec_pixel(
                    px,
                    py,
                    width as int,
                    height as int,
                    objects@,
                    *camera,
                    *light,
                    ambient_light as int,
                ) by {
                    lemma_row_index(py, px, y as int, width as int);
                }
            }
            x = x + 1;
        }
        proof {
            assert((y as int + 1) * (width as int) == y as int * width as int + width as int)
                by (nonlinear_arith);
            assert forall|py: int, px: int|
                0 <= py < y as int + 1 && 0 <= px < width as int implies buf@[py * width as int
                + px] as int == spec_pixel(
                px,
                py,
                width as int,
                height as int,
                objects@,
                *camera,
                *light,
                ambient_light as int,
            ) by {
                if py == y as int {
                    assert(buf@[y as int * width as int + px] as int == spec_pixel(
                        px,
                        y as int,
                        width as int,
                        height as int,
                        objects@,
                        *camera,
                        *light,
                        ambient_light as int,
                    ));
                } else {
                    lemma_row_index(py, px, y as int, width as int);
                }
            }
        }
        y = y + 1;
    }
    proof {
        assert(height as int * width as int == width as int * height as int) by (nonlinear_arith);
    }
    buf
}

} // verus!
