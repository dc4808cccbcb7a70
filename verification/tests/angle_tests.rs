use gfx_math::angle::convert_to_degrees;
use gfx_math::angle::convert_to_radians;
use std::f32::consts::PI;

#[test]
fn test_radians_to_deg() {
    assert_eq!(convert_to_degrees(PI, PI), PI * (180.0 / PI));
    assert_eq!(convert_to_degrees(0.0f32, PI), 0.0);
    assert!((convert_to_degrees(PI / 2.0, PI) - 90.0).abs() < 1e-4);
    assert!((convert_to_degrees(1.0f32, PI) - 57.29578).abs() < 1e-4);
}

#[test]
fn test_deg_to_radians() {
    assert_eq!(convert_to_radians(180.0f32, PI), 180.0 * (PI / 180.0));
    assert_eq!(convert_to_radians(0.0f32, PI), 0.0);
    assert!((convert_to_radians(90.0f32, PI) - PI / 2.0).abs() < 1e-6);
    assert!((convert_to_radians(1.0f32, PI) - 0.017453292).abs() < 1e-8);
}

#[test]
fn conversions_use_the_pi_they_are_given() {
    assert_eq!(convert_to_radians(90.0f64, 360.0), 180.0);
    assert_eq!(convert_to_degrees(4.0f64, 2.0), 360.0);
}

#[test]
fn conversions_work_on_integers() {
    assert_eq!(convert_to_radians(90i32, 540), 270);
    assert_eq!(convert_to_degrees(7i32, 3), 420);
}
