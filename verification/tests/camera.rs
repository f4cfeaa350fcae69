use globe_viewer::camera::{hold_height, LEAST_HEIGHT};
use globe_viewer::ieee::Binary32;

fn held(height: f32) -> f32 {
    f32::from_bits(hold_height(Binary32 { bits: height.to_bits() }).bits)
}

#[test]
fn least_height_is_a_thousandth() {
    assert_eq!(LEAST_HEIGHT, 0.001f32.to_bits());
}

#[test]
fn heights_above_the_least_are_kept() {
    assert_eq!(held(0.001), 0.001);
    assert_eq!(held(0.002), 0.002);
    assert_eq!(held(1.0), 1.0);
    assert_eq!(held(f32::MAX), f32::MAX);
    assert_eq!(held(f32::INFINITY), f32::INFINITY);
}

#[test]
fn heights_below_the_least_are_held_up() {
    assert_eq!(held(0.000_999), 0.001);
    assert_eq!(held(0.0), 0.001);
    assert_eq!(held(-0.0), 0.001);
    assert_eq!(held(-5.0), 0.001);
    assert_eq!(held(f32::NEG_INFINITY), 0.001);
    assert_eq!(held(f32::NAN), 0.001);
}
