use pathtracer::camera::in_unit_disc;
use pathtracer::material::{glass_bend, glass_side, in_unit_sphere, metal_scatters, refracts, Bend, Side};
use pathtracer::scalar::Scalar;

fn s(x: f32) -> Scalar {
    Scalar::from_bits(x.to_bits())
}

#[test]
fn disc_excludes_its_rim_and_ball_includes_it() {
    assert!(!in_unit_disc(s(1.0)));
    assert!(in_unit_sphere(s(1.0)));
    assert!(in_unit_disc(s(0.99999994)));
    assert!(in_unit_disc(s(0.0)));
    assert!(!in_unit_sphere(s(1.0000001)));
    assert!(!in_unit_disc(s(2.0)));
    assert!(!in_unit_sphere(s(3.0)));
    assert!(!in_unit_disc(s(f32::NAN)));
    assert!(!in_unit_sphere(s(f32::NAN)));
}

#[test]
fn metal_absorbs_only_below_zero() {
    assert!(metal_scatters(s(0.5)));
    assert!(metal_scatters(s(0.0)));
    assert!(metal_scatters(s(-0.0)));
    assert!(!metal_scatters(s(-1.0e-30)));
    assert!(!metal_scatters(s(-1.0)));
    assert!(metal_scatters(s(f32::NAN)));
}

#[test]
fn glass_side_follows_the_sign() {
    assert_eq!(glass_side(s(0.3)), Side::Exiting);
    assert_eq!(glass_side(s(-0.3)), Side::Entering);
    assert_eq!(glass_side(s(0.0)), Side::Entering);
    assert_eq!(glass_side(s(f32::NAN)), Side::Entering);
}

#[test]
fn refraction_fails_only_below_zero() {
    assert!(refracts(s(0.25)));
    assert!(refracts(s(0.0)));
    assert!(refracts(s(-0.0)));
    assert!(refracts(s(1.0e-45)));
    assert!(!refracts(s(-1.0e-45)));
    assert!(!refracts(s(-0.25)));
    assert!(!refracts(s(f32::NAN)));
}

#[test]
fn glass_reflects_below_the_reflectance_and_on_total_reflection() {
    assert_eq!(glass_bend(s(0.03), s(0.04), s(0.5)), Bend::Reflect);
    assert_eq!(glass_bend(s(0.04), s(0.04), s(0.5)), Bend::Refract);
    assert_eq!(glass_bend(s(0.9), s(0.04), s(0.5)), Bend::Refract);
    assert_eq!(glass_bend(s(0.9), s(0.04), s(-0.5)), Bend::Reflect);
    assert_eq!(glass_bend(s(0.99), s(0.04), s(0.0)), Bend::Refract);
    assert_eq!(glass_bend(s(0.03), s(0.04), s(0.0)), Bend::Reflect);
    assert_eq!(glass_bend(s(0.9), s(0.04), s(f32::NAN)), Bend::Reflect);
    assert_eq!(glass_bend(s(0.9), s(f32::NAN), s(0.5)), Bend::Refract);
}
