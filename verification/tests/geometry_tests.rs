use raytracer::color::Color;
use raytracer::cube::Cube;
use raytracer::ray_intersect::Intersect;
use raytracer::material::Material;
use raytracer::ray_intersect::RayIntersect;
use raytracer::sphere::Sphere;
use raytracer::vec3::Vec3;

const S: i64 = 65536;

fn plain_material() -> Material {
    Material::new(Color::new(100, 100, 255), 30, [S, 0, 0, 0], 0, "cuerpo")
}

// A ray aimed along an axis at the sphere's center from outside hits at
// exactly |origin - center| - radius, with the normal parallel to
// (hit - center).
#[test]
fn sphere_center_ray_exact_distance() {
    let sphere = Sphere {
        center: Vec3::new(0, 0, 0),
        radius: S,
        material: plain_material(),
    };
    let hit = sphere.ray_intersect(&Vec3::new(0, 0, 10 * S), &Vec3::new(0, 0, -S));
    assert!(hit.is_intersecting);
    assert_eq!(hit.distance, 9 * S);
    assert_eq!(hit.point, Vec3::new(0, 0, S));
    assert_eq!(hit.normal, Vec3::new(0, 0, S));
}

#[test]
fn sphere_center_ray_off_origin() {
    let sphere = Sphere {
        center: Vec3::new(2 * S, -3 * S, S),
        radius: 2 * S,
        material: plain_material(),
    };
    let hit = sphere.ray_intersect(&Vec3::new(2 * S, -3 * S, 8 * S), &Vec3::new(0, 0, -S));
    assert!(hit.is_intersecting);
    assert_eq!(hit.distance, 5 * S);
    assert_eq!(hit.normal, Vec3::new(0, 0, S));
}

#[test]
fn sphere_miss_reports_no_hit() {
    let sphere = Sphere {
        center: Vec3::new(0, 0, 0),
        radius: S,
        material: plain_material(),
    };
    let miss = sphere.ray_intersect(&Vec3::new(0, 5 * S, 10 * S), &Vec3::new(0, 0, -S));
    assert!(!miss.is_intersecting);
    assert_eq!(miss.distance, i64::MAX);
    assert_eq!(miss.material.name, "default");
}

#[test]
fn sphere_behind_ray_reports_no_hit() {
    let sphere = Sphere {
        center: Vec3::new(0, 0, 0),
        radius: S,
        material: plain_material(),
    };
    let miss = sphere.ray_intersect(&Vec3::new(0, 0, 10 * S), &Vec3::new(0, 0, S));
    assert!(!miss.is_intersecting);
}

// A ray starting strictly inside a box never reports a miss, whatever
// the (nonzero) direction.
#[test]
fn cube_interior_ray_always_hits() {
    let cube = Cube {
        min: Vec3::new(-S, -S, -S),
        max: Vec3::new(S, S, S),
        material: plain_material(),
    };
    let hit = cube.ray_intersect(&Vec3::new(0, 0, 0), &Vec3::new(S, 0, 0));
    assert!(hit.is_intersecting);
    assert_eq!(hit.distance, -S);
    assert_eq!(hit.normal, Vec3::new(-S, 0, 0));
    for dir in [
        Vec3::new(0, S, 0),
        Vec3::new(0, 0, -S),
        Vec3::new(37000, -52000, 11111),
        Vec3::new(0, -1, 0),
    ] {
        assert!(cube.ray_intersect(&Vec3::new(5, -9, 3), &dir).is_intersecting);
    }
}

#[test]
fn cube_axis_ray_exact_distance() {
    let cube = Cube {
        min: Vec3::new(-S, -S, -S),
        max: Vec3::new(S, S, S),
        material: plain_material(),
    };
    let hit = cube.ray_intersect(&Vec3::new(0, 0, 10 * S), &Vec3::new(0, 0, -S));
    assert!(hit.is_intersecting);
    assert_eq!(hit.distance, 9 * S);
    assert_eq!(hit.point, Vec3::new(0, 0, S));
    assert_eq!(hit.normal, Vec3::new(0, 0, S));
}

#[test]
fn cube_miss_reports_no_hit() {
    let cube = Cube {
        min: Vec3::new(-S, -S, -S),
        max: Vec3::new(S, S, S),
        material: plain_material(),
    };
    let miss = cube.ray_intersect(&Vec3::new(0, 10 * S, 10 * S), &Vec3::new(0, 0, -S));
    assert!(!miss.is_intersecting);
    // the miss carries the full no-hit sentinel material
    assert_eq!(miss.distance, i64::MAX);
    assert_eq!(miss.material.name, "default");
    assert_eq!(miss.material.albedo, [0, 0, 0, 0]);
    assert_eq!(miss.material.shininess, 0);
    assert_eq!(miss.material.refractive_index, 0);
}

#[test]
fn intersect_records() {
    let empty = Intersect::empty();
    assert!(!empty.is_intersecting);
    assert_eq!(empty.distance, i64::MAX);
    assert_eq!(empty.material.name, "default");
    assert_eq!(empty.material.color, Color::black());
    assert_eq!(empty.material.shininess, 0);
    assert_eq!(empty.material.albedo, [0, 0, 0, 0]);
    assert_eq!(empty.material.refractive_index, 0);
    let none = Intersect::no_hit();
    assert!(!none.is_intersecting);
    assert_eq!(none.material.albedo, [0, 0, 0, 0]);
    let m = plain_material();
    let h = Intersect::hit(5 * S, Vec3::new(1, 2, 3), Vec3::new(0, S, 0), &m);
    assert!(h.is_intersecting);
    assert_eq!(h.distance, 5 * S);
    assert_eq!(h.material.name, "cuerpo");
    assert_eq!(h.material.albedo, [S, 0, 0, 0]);
}
