//! Tests of the overshoot geometry: edge deltas and the two clamp policies.

use pong::bounds::Bounds;
use pong::transform::Transform;
use pong::vec2::Vec2;

#[test]
fn delta_vec_signs() {
    let region = Bounds::new(-10, 10, -20, 20);
    let d = region.delta_vec(Vec2::new(4, -25));
    assert_eq!(d.low.x, 14);
    assert_eq!(d.high.x, 6);
    assert_eq!(d.low.y, -5);
    assert_eq!(d.high.y, 45);
}

#[test]
fn delta_transform_offsets_by_half_extents() {
    let region = Bounds::new(-10, 10, -10, 10);
    let d = region.delta_transform(&Vec2::new(0, 0), &Vec2::new(8, 4));
    assert_eq!(d.low.x, 6);
    assert_eq!(d.high.x, 6);
    assert_eq!(d.low.y, 8);
    assert_eq!(d.high.y, 8);
}

#[test]
fn from_transform_covers_the_body() {
    let b = Bounds::from_transform(&Transform::new(Vec2::new(100, -50), Vec2::new(30, 70)));
    assert_eq!(b.low.x, 85);
    assert_eq!(b.high.x, 115);
    assert_eq!(b.low.y, -85);
    assert_eq!(b.high.y, -15);
}

#[test]
fn inflate_grows_every_edge() {
    let b = Bounds::new(-10, 10, -20, 20).inflate(&Vec2::new(6, 8));
    assert_eq!(b.low.x, -13);
    assert_eq!(b.high.x, 13);
    assert_eq!(b.low.y, -24);
    assert_eq!(b.high.y, 24);
}

#[test]
fn clamp_in_inside_is_zero() {
    let region = Bounds::new(-10, 10, -10, 10);
    let c = region.delta_vec(Vec2::new(3, -7)).clamp_in();
    assert_eq!(c.x, 0);
    assert_eq!(c.y, 0);
}

#[test]
fn clamp_in_pushes_back_inside() {
    let region = Bounds::new(-10, 10, -10, 10);
    // Point past the high x edge by 5 and below the low y edge by 3.
    let c = region.delta_vec(Vec2::new(15, -13)).clamp_in();
    assert_eq!(c.x, -5);
    assert_eq!(c.y, 3);
}

#[test]
fn clamp_in_on_the_edge_is_zero() {
    let region = Bounds::new(-10, 10, -10, 10);
    let c = region.delta_vec(Vec2::new(10, -10)).clamp_in();
    assert_eq!(c.x, 0);
    assert_eq!(c.y, 0);
}

#[test]
fn clamp_out_outside_is_zero() {
    let region = Bounds::new(-10, 10, -10, 10);
    let c = region.delta_vec(Vec2::new(11, 0)).clamp_out();
    assert_eq!(c.x, 0);
    assert_eq!(c.y, 0);
}

#[test]
fn clamp_out_on_the_edge_is_zero() {
    // Strict containment is required before an ejection happens.
    let region = Bounds::new(-10, 10, -10, 10);
    let c = region.delta_vec(Vec2::new(10, 0)).clamp_out();
    assert_eq!(c.x, 0);
    assert_eq!(c.y, 0);
}

#[test]
fn clamp_out_ejects_along_least_penetration() {
    let region = Bounds::new(-10, 10, -40, 40);
    // Penetration: 2 from the high x edge, at least 30 on y.
    let c = region.delta_vec(Vec2::new(8, 10)).clamp_out();
    assert_eq!(c.x, 2);
    assert_eq!(c.y, 0);
    // Near the low x edge the ejection is negative.
    let c = region.delta_vec(Vec2::new(-8, 10)).clamp_out();
    assert_eq!(c.x, -2);
    assert_eq!(c.y, 0);
}

#[test]
fn clamp_out_vertical_when_y_is_shallower() {
    let region = Bounds::new(-40, 40, -10, 10);
    let c = region.delta_vec(Vec2::new(0, 7)).clamp_out();
    assert_eq!(c.x, 0);
    assert_eq!(c.y, 3);
}

#[test]
fn clamp_out_tie_breaks_horizontal() {
    // Equal penetration (3) on both axes: the ejection is horizontal.
    let region = Bounds::new(-10, 10, -10, 10);
    let c = region.delta_vec(Vec2::new(7, 7)).clamp_out();
    assert_eq!(c.x, 3);
    assert_eq!(c.y, 0);
}

#[test]
fn overshoot_axis_values() {
    assert_eq!(pong::bounds::overshoot(5, 5), 0);
    assert_eq!(pong::bounds::overshoot(-3, 13), 3);
    assert_eq!(pong::bounds::overshoot(13, -3), -3);
    assert_eq!(pong::bounds::overshoot(0, 0), 0);
}
