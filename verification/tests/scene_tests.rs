use raytracer::camera::Camera;
use raytracer::color::Color;
use raytracer::fixed::fp_add;
use raytracer::fixed::fp_div;
use raytracer::fixed::fp_mul;
use raytracer::fixed::fp_neg;
use raytracer::fixed::fp_sub;
use raytracer::fixed::FP_ONE;
use raytracer::light::Light;
use raytracer::material::Material;
use raytracer::scene::nearest_hit;
use raytracer::scene::Primitive;
use raytracer::sphere::Sphere;
use raytracer::tracer::cast_ray;
use raytracer::tracer::render;
use raytracer::tracer::skybox;
use raytracer::tracer::FOV_SCALE_FP;
use raytracer::vec3::Vec3;

const S: i64 = 65536;

fn diffuse_sphere() -> Primitive {
    Primitive::Sphere(Sphere {
        center: Vec3::new(0, 0, 0),
        radius: S,
        material: Material::new(Color::new(200, 50, 50), 50, [S, 0, 0, 0], 0, "cabeza"),
    })
}

fn mirror_sphere() -> Primitive {
    Primitive::Sphere(Sphere {
        center: Vec3::new(0, 0, 0),
        radius: S,
        material: Material::new(Color::new(255, 255, 255), 50, [0, 0, S, 0], 0, "espejo"),
    })
}

fn white_light() -> Light {
    Light::new(Vec3::new(0, 5 * S, 0), Color::new(255, 255, 255), S)
}

#[test]
fn nearest_hit_picks_closest_in_order() {
    let near = Primitive::Sphere(Sphere {
        center: Vec3::new(0, 0, 3 * S),
        radius: S,
        material: Material::new(Color::new(1, 1, 1), 1, [S, 0, 0, 0], 0, "near"),
    });
    let far = Primitive::Sphere(Sphere {
        center: Vec3::new(0, 0, -4 * S),
        radius: S,
        material: Material::new(Color::new(2, 2, 2), 1, [S, 0, 0, 0], 0, "far"),
    });
    let scene = vec![far, near];
    let hit = nearest_hit(&scene, &Vec3::new(0, 0, 10 * S), &Vec3::new(0, 0, -S));
    assert!(hit.is_intersecting);
    assert_eq!(hit.material.name, "near");
    assert_eq!(hit.distance, 6 * S);
    let empty: Vec<Primitive> = vec![];
    assert!(!nearest_hit(&empty, &Vec3::new(0, 0, 0), &Vec3::new(0, 0, -S)).is_intersecting);
}

// Recursion is cut off past depth 3: at depth 4 the caster answers with
// the sky gradient without touching the scene.
#[test]
fn depth_exceeded_returns_sky() {
    let scene = vec![mirror_sphere()];
    let light = white_light();
    let dir = Vec3::new(0, 0, -S);
    let c = cast_ray(&Vec3::new(0, 0, 10 * S), &dir, &scene, &light, 0, 4);
    assert_eq!(c, skybox(&dir));
    let c7 = cast_ray(&Vec3::new(0, 0, 10 * S), &dir, &scene, &light, 0, 7);
    assert_eq!(c7, skybox(&dir));
}

// A fully mirrored sphere with nothing else in the scene: the bouncing
// ray terminates at the depth bound and settles on sky-derived light
// rather than diverging or crashing.
#[test]
fn mirror_sphere_recursion_terminates() {
    let scene = vec![mirror_sphere()];
    let light = white_light();
    // start inside the sphere so the reflected ray bounces back and
    // forth between the walls until the depth guard stops it
    let c = cast_ray(&Vec3::new(0, 0, 0), &Vec3::new(0, 0, -S), &scene, &light, 0, 0);
    // the gathered color is a finite, defined value
    let _ = c.to_hex();
    // a miss at the top level is exactly the sky
    let miss = cast_ray(
        &Vec3::new(0, 0, 10 * S),
        &Vec3::new(0, S, 0),
        &scene,
        &light,
        0,
        0,
    );
    assert_eq!(miss, skybox(&Vec3::new(0, S, 0)));
}

// The end-to-end scene: one opaque diffuse sphere at the origin, the
// light straight above, ambient zero, the camera looking down the
// negative-z axis.  The center pixel is lit and the corner pixel shows
// exactly the sky gradient of its own ray direction.
#[test]
fn render_single_sphere_scene() {
    let scene = vec![diffuse_sphere()];
    let light = white_light();
    let camera = Camera::new(Vec3::new(0, 0, 10 * S), Vec3::new(0, 0, 0), Vec3::new(0, S, 0));
    let w: usize = 11;
    let h: usize = 11;
    let buf = render(&scene, &camera, &light, 0, w, h);
    assert_eq!(buf.len(), w * h);

    let center = buf[5 * w + 5];
    assert_ne!(center, 0);
    // the lit sphere, not the sky, decides the center pixel
    let center_dir = pixel_direction(&camera, 5, 5, w, h);
    assert_ne!(center, skybox(&center_dir).to_hex());
    assert!(nearest_hit(&scene, &camera.eye, &center_dir).is_intersecting);

    // recompute the corner ray exactly as the renderer does
    let corner_dir = pixel_direction(&camera, 0, 0, w, h);
    assert_eq!(buf[0], skybox(&corner_dir).to_hex());
    // and that ray indeed misses the sphere
    assert!(!nearest_hit(&scene, &camera.eye, &corner_dir).is_intersecting);
}

fn pixel_direction(camera: &Camera, x: usize, y: usize, w: usize, h: usize) -> Vec3 {
    let aspect = fp_div((w as i64) * 65536, (h as i64) * 65536);
    let sx = fp_sub(fp_div((2 * x as i64) * 65536, (w as i64) * 65536), FP_ONE);
    let sy = fp_add(fp_neg(fp_div((2 * y as i64) * 65536, (h as i64) * 65536)), FP_ONE);
    let sxs = fp_mul(fp_mul(sx, aspect), FOV_SCALE_FP);
    let sys = fp_mul(sy, FOV_SCALE_FP);
    camera.ray_for_pixel(sxs, sys)
}

// With the light switched off and ambient zero, the cast color is the
// hit's procedural texture alone; the material's name tag picks it.
#[test]
fn texture_dispatch_by_material_name() {
    let dark = Light::new(Vec3::new(0, 5 * S, 0), Color::new(255, 255, 255), 0);
    let origin = Vec3::new(0, 0, 10 * S);
    let dir = Vec3::new(0, 0, -S);
    let named_sphere = |name: &str| {
        vec![Primitive::Sphere(Sphere {
            center: Vec3::new(0, 0, 0),
            radius: S,
            material: Material::new(Color::new(1, 2, 3), 10, [S, 0, 0, 0], 0, name),
        })]
    };
    // the hit normal is exactly (0, 0, 1), so the UV point is the
    // center of the texture square
    let sol = cast_ray(&origin, &dir, &named_sphere("sol"), &dark, 0, 0);
    assert_eq!(sol.to_hex(), 0xffdf00);
    let suelo = cast_ray(&origin, &dir, &named_sphere("suelo"), &dark, 0, 0);
    assert_eq!(suelo.to_hex(), 0xffffff);
    let other = cast_ray(&origin, &dir, &named_sphere("cabeza"), &dark, 0, 0);
    assert_eq!(other.to_hex(), 0x7f7f3f);
}

#[test]
fn camera_basis_straight_on() {
    let camera = Camera::new(Vec3::new(0, 0, 10 * S), Vec3::new(0, 0, 0), Vec3::new(0, S, 0));
    assert_eq!(camera.direction(), Vec3::new(0, 0, -S));
    assert_eq!(camera.base_change(&Vec3::new(0, 0, -S)), Vec3::new(0, 0, -S));
    assert_eq!(camera.base_change(&Vec3::new(S, 0, 0)), Vec3::new(S, 0, 0));
}

#[test]
fn camera_orbit_keeps_target_and_clamps_pitch() {
    let mut camera = Camera::new(Vec3::new(0, 0, 10 * S), Vec3::new(0, 0, 0), Vec3::new(0, S, 0));
    camera.orbit(0, 0);
    assert_eq!(camera.center, Vec3::new(0, 0, 0));
    assert_eq!(camera.eye, Vec3::new(0, 0, 655340));
    let mut steep = Camera::new(Vec3::new(0, 0, 10 * S), Vec3::new(0, 0, 0), Vec3::new(0, S, 0));
    // a pitch delta far past vertical is clamped short of the pole
    steep.orbit(0, 200000);
    assert_eq!(steep.eye, Vec3::new(0, 652030, 66248));
    assert_eq!(steep.up, Vec3::new(0, S, 0));
}

#[test]
fn light_day_night_cycle() {
    let mut light = Light::new(Vec3::new(S, -S, 5 * S), Color::new(255, 255, 255), S);
    let day = 10 * S;
    light.update_day_night_cycle(0, day);
    // dawn: the sun sits on the positive x axis, warm white
    assert_eq!(light.position.y, 0);
    assert_eq!(light.position.x, 655350);
    assert_eq!(light.position.z, 5 * S);
    assert_eq!(light.color, Color::new(255, 255, 224));
    assert_eq!(light.intensity, S);
    // the second half of the day turns the light orange
    light.update_day_night_cycle(7 * S, day);
    assert_eq!(light.color, Color::new(255, 140, 0));
}
