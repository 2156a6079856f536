use raytracer::fixed::fp_abs;
use raytracer::fixed::fp_add;
use raytracer::fixed::fp_div;
use raytracer::fixed::fp_max;
use raytracer::fixed::fp_min;
use raytracer::fixed::fp_mul;
use raytracer::fixed::fp_neg;
use raytracer::fixed::fp_powi;
use raytracer::fixed::fp_rem;
use raytracer::fixed::fp_sqrt;
use raytracer::fixed::fp_sub;
use raytracer::fixed::FP_ONE;
use raytracer::trig::asin_fp;
use raytracer::trig::atan2_fp;
use raytracer::trig::cos_fp;
use raytracer::trig::norm_angle;
use raytracer::trig::sin_fp;
use raytracer::trig::HALF_PI_FP;
use raytracer::trig::PI_FP;
use raytracer::trig::QUARTER_PI_FP;

const S: i64 = 65536;

#[test]
fn mul_exact_and_rounding() {
    assert_eq!(fp_mul(3 * S, 2 * S), 6 * S);
    assert_eq!(fp_mul(-3 * S, 2 * S), -6 * S);
    assert_eq!(fp_mul(1, 1), 0);
    assert_eq!(fp_mul(-1, 1), 0);
    assert_eq!(fp_mul(S, 12345), 12345);
}

#[test]
fn div_rounds_toward_zero() {
    assert_eq!(fp_div(S, 2 * S), S / 2);
    assert_eq!(fp_div(1, 3), 21845);
    assert_eq!(fp_div(-1, 3), -21845);
}

#[test]
fn div_by_zero_saturates_by_sign() {
    assert_eq!(fp_div(5, 0), i64::MAX);
    assert_eq!(fp_div(-5, 0), i64::MIN);
    assert_eq!(fp_div(0, 0), 0);
}

#[test]
fn add_sub_neg_saturate() {
    assert_eq!(fp_add(i64::MAX, 1), i64::MAX);
    assert_eq!(fp_sub(i64::MIN, 1), i64::MIN);
    assert_eq!(fp_neg(i64::MIN), i64::MAX);
    assert_eq!(fp_add(2 * S, 3 * S), 5 * S);
    assert_eq!(fp_sub(2 * S, 3 * S), -S);
    assert_eq!(fp_abs(-5 * S), 5 * S);
    assert_eq!(fp_min(3, -4), -4);
    assert_eq!(fp_max(3, -4), 3);
}

#[test]
fn sqrt_values() {
    assert_eq!(fp_sqrt(4 * S), 2 * S);
    assert_eq!(fp_sqrt(S), S);
    assert_eq!(fp_sqrt(2 * S), 92681);
    assert_eq!(fp_sqrt(0), 0);
    assert_eq!(fp_sqrt(-7), 0);
    assert_eq!(fp_sqrt(25 * S), 5 * S);
}

#[test]
fn powers() {
    assert_eq!(fp_powi(2 * S, 10), 1024 * S);
    assert_eq!(fp_powi(7 * S, 0), FP_ONE);
    assert_eq!(fp_powi(S / 2, 2), S / 4);
}

#[test]
fn remainder() {
    assert_eq!(fp_rem(7 * S, 2 * S), S);
    assert_eq!(fp_rem(0, 5 * S), 0);
}

#[test]
fn sine_cosine_values() {
    assert_eq!(sin_fp(0), 0);
    assert_eq!(sin_fp(PI_FP), 0);
    assert_eq!(sin_fp(HALF_PI_FP), 65535);
    assert_eq!(cos_fp(0), 65535);
    assert_eq!(sin_fp(QUARTER_PI_FP), 46260);
    // odd symmetry through the second half period
    assert_eq!(sin_fp(PI_FP + HALF_PI_FP), -sin_fp(HALF_PI_FP));
}

#[test]
fn angle_normalization() {
    assert_eq!(norm_angle(0), 0);
    assert_eq!(norm_angle(-PI_FP), 205888);
    assert_eq!(norm_angle(2 * 411775 + 5), 5);
}

#[test]
fn arc_functions() {
    assert_eq!(atan2_fp(0, S), 0);
    assert_eq!(atan2_fp(S, 0), HALF_PI_FP);
    assert_eq!(atan2_fp(-S, 0), -HALF_PI_FP);
    assert_eq!(atan2_fp(S, S), QUARTER_PI_FP);
    assert_eq!(atan2_fp(0, 0), 0);
    assert_eq!(asin_fp(0), 0);
    assert_eq!(asin_fp(S), HALF_PI_FP);
    assert_eq!(asin_fp(-S), -HALF_PI_FP);
    assert_eq!(asin_fp(S / 2), 34082);
}
