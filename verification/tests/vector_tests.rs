use raytracer::color::Color;
use raytracer::vec3::Vec3;

const S: i64 = 65536;

#[test]
fn vector_arithmetic() {
    let a = Vec3::new(S, 2 * S, 3 * S);
    let b = Vec3::new(4 * S, 5 * S, 6 * S);
    assert_eq!(a.plus(&b), Vec3::new(5 * S, 7 * S, 9 * S));
    assert_eq!(b.minus(&a), Vec3::new(3 * S, 3 * S, 3 * S));
    assert_eq!(a.negate(), Vec3::new(-S, -2 * S, -3 * S));
    assert_eq!(a.scale(2 * S), Vec3::new(2 * S, 4 * S, 6 * S));
    assert_eq!(a.div_by(2 * S), Vec3::new(S / 2, S, 3 * S / 2));
}

#[test]
fn dot_and_cross() {
    let a = Vec3::new(S, 0, 0);
    let b = Vec3::new(0, S, 0);
    assert_eq!(a.dot(&b), 0);
    assert_eq!(a.cross(&b), Vec3::new(0, 0, S));
    assert_eq!(b.cross(&a), Vec3::new(0, 0, -S));
    let c = Vec3::new(2 * S, 3 * S, 4 * S);
    assert_eq!(c.dot(&c), (4 + 9 + 16) * S);
}

#[test]
fn magnitude_and_normalize() {
    let v = Vec3::new(3 * S, 4 * S, 0);
    assert_eq!(v.magnitude(), 5 * S);
    let n = v.normalize();
    assert_eq!(n, Vec3::new(39321, 52428, 0));
    assert_eq!(Vec3::zero().normalize(), Vec3::zero());
    assert_eq!(Vec3::new(0, 0, -S).normalize(), Vec3::new(0, 0, -S));
}

#[test]
fn color_packing() {
    assert_eq!(Color::new(255, 0, 0).to_hex(), 0xff0000);
    assert_eq!(Color::new(0, 255, 0).to_hex(), 0x00ff00);
    assert_eq!(Color::new(18, 52, 86).to_hex(), 0x123456);
    assert_eq!(Color::black().to_hex(), 0);
}

#[test]
fn color_clamps_only_at_packing() {
    // channels accumulate past the display range and below zero
    let c = Color { r: -5 * S, g: 300 * S, b: 128 * S };
    assert_eq!(c.to_hex(), 0x00ff80);
    let bright = Color::new(200, 200, 200).plus(&Color::new(100, 100, 100));
    assert_eq!(bright.r, 300 * S);
    assert_eq!(bright.to_hex(), 0xffffff);
}

#[test]
fn color_scaling() {
    let c = Color::new(100, 100, 100).scale(S / 2);
    assert_eq!(c, Color { r: 50 * S, g: 50 * S, b: 50 * S });
    assert_eq!(Color::new(10, 20, 30).scale(0), Color::black());
}
