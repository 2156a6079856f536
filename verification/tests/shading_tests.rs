use raytracer::color::Color;
use raytracer::fixed::FP_ONE;
use raytracer::light::Light;
use raytracer::material::Material;
use raytracer::ray_intersect::Intersect;
use raytracer::scene::Primitive;
use raytracer::sphere::Sphere;
use raytracer::tracer::block_texture;
use raytracer::tracer::cast_shadow;
use raytracer::tracer::offset_origin;
use raytracer::tracer::realistic_texture;
use raytracer::tracer::reflect;
use raytracer::tracer::refract;
use raytracer::tracer::skybox;
use raytracer::tracer::uv_mapping;
use raytracer::vec3::Vec3;

const S: i64 = 65536;

fn opaque_material() -> Material {
    Material::new(Color::new(200, 50, 50), 50, [S, 0, 0, 0], 0, "cabeza")
}

#[test]
fn reflect_mirrors_across_normal() {
    assert_eq!(
        reflect(&Vec3::new(0, 0, -S), &Vec3::new(0, 0, S)),
        Vec3::new(0, 0, S)
    );
    // a grazing direction parallel to the surface is unchanged
    assert_eq!(
        reflect(&Vec3::new(S, 0, 0), &Vec3::new(0, 0, S)),
        Vec3::new(S, 0, 0)
    );
}

// Snell's-law round trip at normal incidence: entering and leaving a
// medium of index 1.5 through parallel interfaces restores the
// direction exactly.
#[test]
fn refract_round_trip_normal_incidence() {
    let d = Vec3::new(0, 0, -S);
    let n = Vec3::new(0, 0, S);
    let eta = 98304;  // 1.5
    let inside = refract(&d, &n, eta);
    assert_eq!(inside, d);
    let back = refract(&inside, &n, raytracer::fixed::fp_div(FP_ONE, eta));
    assert_eq!(back, d);
}

#[test]
fn refract_total_internal_reflection_falls_back_to_mirror() {
    // 45 degrees against a medium of relative index 0.5: the
    // transmission discriminant is negative, so the mirror direction
    // comes back instead
    let d = Vec3::new(52428, 0, 39321);
    let n = Vec3::new(0, 0, S);
    let r = refract(&d, &n, S / 2);
    assert_eq!(r, Vec3::new(52428, 0, -39321));
}

#[test]
fn skybox_gradient_endpoints() {
    assert_eq!(skybox(&Vec3::new(0, S, 0)).to_hex(), 0x87cefa);
    assert_eq!(skybox(&Vec3::new(0, -S, 0)).to_hex(), 0x191970);
}

#[test]
fn skybox_horizon_blend() {
    // halfway blend of (135, 206, 250) and (25, 25, 112)
    let c = skybox(&Vec3::new(S, 0, 0));
    assert_eq!(c.to_hex(), 0x5073b5);
}

#[test]
fn block_texture_checkerboard() {
    assert_eq!(block_texture(0, 0).to_hex(), 0xffffff);
    // u = 0.15 lands in the second block column
    assert_eq!(block_texture(9830, 0).to_hex(), 0x000000);
    assert_eq!(block_texture(9830, 9830).to_hex(), 0xffffff);
}

#[test]
fn realistic_texture_gradient() {
    let c = realistic_texture(S / 2, S / 2);
    assert_eq!(c, Color::new(127, 127, 63));
    assert_eq!(realistic_texture(0, 0), Color::new(0, 0, 0));
    // magnitudes beyond one saturate at the brightest byte
    assert_eq!(realistic_texture(3 * S, 0), Color::new(255, 0, 0));
}

#[test]
fn uv_of_poles_and_equator() {
    let m = opaque_material();
    let front = Intersect::hit(S, Vec3::new(0, 0, S), Vec3::new(0, 0, S), &m);
    assert_eq!(uv_mapping(&front), (S / 2, S / 2));
    let top = Intersect::hit(S, Vec3::new(0, S, 0), Vec3::new(0, S, 0), &m);
    let (_, v_top) = uv_mapping(&top);
    assert_eq!(v_top, 0);
}

#[test]
fn offset_origin_sides() {
    let m = opaque_material();
    let hit = Intersect::hit(S, Vec3::new(0, 0, 0), Vec3::new(0, S, 0), &m);
    // a ray leaving along the normal starts just above the surface
    assert_eq!(offset_origin(&hit, &Vec3::new(0, S, 0)), Vec3::new(0, 7, 0));
    // one leaving against it starts just below
    assert_eq!(offset_origin(&hit, &Vec3::new(0, -S, 0)), Vec3::new(0, -7, 0));
}

fn shadow_scene(center_y: i64) -> Vec<Primitive> {
    vec![Primitive::Sphere(Sphere {
        center: Vec3::new(0, center_y, 0),
        radius: S,
        material: opaque_material(),
    })]
}

// Shadow strength is zero with nothing between the point and the light,
// and strictly positive (at most one) with an occluder strictly closer
// than the light.
#[test]
fn shadow_zero_without_occluder() {
    let m = opaque_material();
    let hit = Intersect::hit(S, Vec3::new(0, 0, 0), Vec3::new(0, S, 0), &m);
    let light = Light::new(Vec3::new(0, 10 * S, 0), Color::new(255, 255, 255), S);
    let empty: Vec<Primitive> = vec![];
    assert_eq!(cast_shadow(&hit, &light, &empty), 0);
    // an occluder beyond the light does not darken the point
    let beyond = shadow_scene(20 * S);
    assert_eq!(cast_shadow(&hit, &light, &beyond), 0);
}

#[test]
fn shadow_positive_with_occluder() {
    let m = opaque_material();
    let hit = Intersect::hit(S, Vec3::new(0, 0, 0), Vec3::new(0, S, 0), &m);
    let light = Light::new(Vec3::new(0, 10 * S, 0), Color::new(255, 255, 255), S);
    let blocking = shadow_scene(5 * S);
    let s = cast_shadow(&hit, &light, &blocking);
    assert!(s > 0 && s <= FP_ONE);
    assert_eq!(s, 55052);
}
