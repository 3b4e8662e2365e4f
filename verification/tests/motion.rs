//! Tests of the motion integrator: free motion, wall reflection, obstacle
//! ejection, paddle clamping and determinism.

use pong::bounds::Bounds;
use pong::collider::{BallCollider, PaddleCollider};
use pong::paddle::PaddleState;
use pong::transform::Transform;
use pong::vec2::Vec2;

fn square_field(half: i64) -> Bounds {
    Bounds::new(-half, half, -half, half)
}

#[test]
fn free_motion_is_exact_integration() {
    let field = square_field(1000);
    let t = Transform::new(Vec2::new(0, 0), Vec2::new(100, 100));
    let mut ball = BallCollider::new(Vec2::new(10, -20), t, field);
    ball.update(3, &[]);
    assert_eq!(ball.transform.translation.x, 30);
    assert_eq!(ball.transform.translation.y, -60);
    assert_eq!(ball.velocity.x, 10);
    assert_eq!(ball.velocity.y, -20);
}

#[test]
fn reflection_settles_after_one_tick() {
    // Exactly on the high-x boundary (950 after shrinking by the
    // half-extent), moving further out: one tick clamps and flips; the next
    // tick, now moving inward, does not re-trigger the reflection.
    let field = square_field(1000);
    let t = Transform::new(Vec2::new(950, 0), Vec2::new(100, 100));
    let mut ball = BallCollider::new(Vec2::new(60, 0), t, field);
    ball.update(1, &[]);
    assert_eq!(ball.transform.translation.x, 950);
    assert_eq!(ball.velocity.x, -60);
    ball.update(1, &[]);
    assert_eq!(ball.transform.translation.x, 890);
    assert_eq!(ball.velocity.x, -60);
}

#[test]
fn tangent_contact_does_not_reflect() {
    // Standing exactly on the boundary with zero velocity: no correction,
    // no sign flip.
    let field = square_field(1000);
    let t = Transform::new(Vec2::new(950, 0), Vec2::new(100, 100));
    let mut ball = BallCollider::new(Vec2::new(0, 5), t, field);
    ball.update(1, &[]);
    assert_eq!(ball.transform.translation.x, 950);
    assert_eq!(ball.velocity.x, 0);
    assert_eq!(ball.velocity.y, 5);
}

#[test]
fn left_and_right_walls_flip_the_same_axis() {
    let field = square_field(1000);
    let scale = Vec2::new(100, 100);

    let mut right = BallCollider::new(
        Vec2::new(60, 7),
        Transform::new(Vec2::new(940, 0), scale),
        field,
    );
    right.update(1, &[]);
    assert_eq!(right.transform.translation.x, 950);
    assert_eq!(right.velocity.x, -60);
    assert_eq!(right.velocity.y, 7);

    let mut left = BallCollider::new(
        Vec2::new(-60, 7),
        Transform::new(Vec2::new(-940, 0), scale),
        field,
    );
    left.update(1, &[]);
    assert_eq!(left.transform.translation.x, -950);
    assert_eq!(left.velocity.x, 60);
    assert_eq!(left.velocity.y, 7);
}

#[test]
fn corner_reflects_both_axes_in_one_tick() {
    let field = square_field(1000);
    let t = Transform::new(Vec2::new(950, 950), Vec2::new(100, 100));
    let mut ball = BallCollider::new(Vec2::new(30, 40), t, field);
    ball.update(1, &[]);
    assert_eq!(ball.transform.translation.x, 950);
    assert_eq!(ball.transform.translation.y, 950);
    assert_eq!(ball.velocity.x, -30);
    assert_eq!(ball.velocity.y, -40);
}

#[test]
fn obstacle_ejects_along_least_penetration() {
    // A point ball whose candidate (900, 0) lands inside the inflated
    // paddle bound x in [-1000, 1000], y in [-5000, 5000]: x-penetration
    // 100 is the least, so the ball is pushed to (1000, 0) and only the x
    // velocity flips.
    let field = square_field(100_000);
    let ball_t = Transform::new(Vec2::new(890, 0), Vec2::new(0, 0));
    let mut ball = BallCollider::new(Vec2::new(10, 0), ball_t, field);
    let paddle = PaddleCollider::new(
        0,
        Transform::new(Vec2::new(0, 0), Vec2::new(2000, 10_000)),
        field,
    );
    ball.update(1, &[paddle]);
    assert_eq!(ball.transform.translation.x, 1000);
    assert_eq!(ball.transform.translation.y, 0);
    assert_eq!(ball.velocity.x, -10);
    assert_eq!(ball.velocity.y, 0);
}

#[test]
fn obstacle_inflation_accounts_for_ball_size() {
    // With a ball of full extent 200, the same paddle bound is inflated by
    // 100 on each edge, so a center that would miss a bare bound is caught.
    let field = square_field(100_000);
    let ball_t = Transform::new(Vec2::new(1040, 0), Vec2::new(200, 200));
    let mut ball = BallCollider::new(Vec2::new(10, 0), ball_t, field);
    let paddle = PaddleCollider::new(
        0,
        Transform::new(Vec2::new(0, 0), Vec2::new(2000, 10_000)),
        field,
    );
    // Candidate center 1050 is inside the inflated high edge 1100.
    ball.update(1, &[paddle]);
    assert_eq!(ball.transform.translation.x, 1100);
    assert_eq!(ball.velocity.x, -10);
}

#[test]
fn two_obstacle_corrections_accumulate_additively() {
    // Two identical overlapped obstacles each demand the same ejection and
    // the corrections add, per the documented multi-obstacle policy.
    let field = square_field(100_000);
    let ball_t = Transform::new(Vec2::new(890, 0), Vec2::new(0, 0));
    let mut ball = BallCollider::new(Vec2::new(10, 0), ball_t, field);
    let paddle_t = Transform::new(Vec2::new(0, 0), Vec2::new(2000, 10_000));
    let a = PaddleCollider::new(0, paddle_t, field);
    let b = PaddleCollider::new(0, paddle_t, field);
    ball.update(1, &[a, b]);
    assert_eq!(ball.transform.translation.x, 1100);
    assert_eq!(ball.velocity.x, -10);
}

#[test]
fn zero_dt_keeps_state() {
    let field = square_field(1000);
    let t = Transform::new(Vec2::new(123, -456), Vec2::new(100, 100));
    let mut ball = BallCollider::new(Vec2::new(10, 20), t, field);
    ball.update(0, &[]);
    assert_eq!(ball.transform.translation.x, 123);
    assert_eq!(ball.transform.translation.y, -456);
    assert_eq!(ball.velocity.x, 10);
    assert_eq!(ball.velocity.y, 20);
}

#[test]
fn paddle_clamp_scenario() {
    // Field vertical bounds [-1000, 1000], paddle half-height 500, current
    // y 900, MoveUp at speed 1000 over one time unit: the proposed 1900
    // clamps to 500, the top edge minus the half-height.
    let field = Bounds::new(-2000, 2000, -1000, 1000);
    let t = Transform::new(Vec2::new(0, 900), Vec2::new(100, 1000));
    let mut paddle = PaddleCollider::new(1000, t, field);
    paddle.update(1, &PaddleState::MoveUp);
    assert_eq!(paddle.transform.translation.y, 500);
    assert_eq!(paddle.transform.translation.x, 0);
    assert_eq!(paddle.velocity, 1000);
}

#[test]
fn paddle_moves_down_and_stands_still() {
    let field = Bounds::new(-2000, 2000, -1000, 1000);
    let t = Transform::new(Vec2::new(0, 0), Vec2::new(100, 1000));
    let mut paddle = PaddleCollider::new(300, t, field);
    paddle.update(1, &PaddleState::MoveDown);
    assert_eq!(paddle.transform.translation.y, -300);
    paddle.update(1, &PaddleState::DoNothing);
    assert_eq!(paddle.transform.translation.y, -300);
}

#[test]
fn paddle_clamps_at_the_bottom() {
    let field = Bounds::new(-2000, 2000, -1000, 1000);
    let t = Transform::new(Vec2::new(0, -400), Vec2::new(100, 1000));
    let mut paddle = PaddleCollider::new(1000, t, field);
    paddle.update(1, &PaddleState::MoveDown);
    assert_eq!(paddle.transform.translation.y, -500);
}

#[test]
fn restored_state_replays_identically() {
    // Round trip: capture a body's plain values, rebuild a second body from
    // them, and step both with the same inputs; every observable matches.
    let field = square_field(1000);
    let t = Transform::new(Vec2::new(940, -30), Vec2::new(100, 100));
    let ball = BallCollider::new(Vec2::new(60, 7), t, field);
    let paddle = PaddleCollider::new(
        200,
        Transform::new(Vec2::new(800, 0), Vec2::new(50, 400)),
        field,
    );

    // Serialize to plain integers and restore.
    let saved = (
        (ball.transform.translation.x, ball.transform.translation.y),
        (ball.velocity.x, ball.velocity.y),
        (ball.transform.scale.x, ball.transform.scale.y),
    );
    let restored_t = Transform::new(
        Vec2::new(saved.0 .0, saved.0 .1),
        Vec2::new(saved.2 .0, saved.2 .1),
    );
    let restored = BallCollider::new(Vec2::new(saved.1 .0, saved.1 .1), restored_t, field);

    let mut first = ball;
    let mut second = restored;
    first.update(2, &[paddle]);
    second.update(2, &[paddle]);
    assert_eq!(first.transform.translation.x, second.transform.translation.x);
    assert_eq!(first.transform.translation.y, second.transform.translation.y);
    assert_eq!(first.velocity.x, second.velocity.x);
    assert_eq!(first.velocity.y, second.velocity.y);

    // And replaying the original again gives the same outcome once more.
    let mut third = BallCollider::new(Vec2::new(60, 7), t, field);
    third.update(2, &[paddle]);
    assert_eq!(third.transform.translation.x, first.transform.translation.x);
    assert_eq!(third.transform.translation.y, first.transform.translation.y);
    assert_eq!(third.velocity.x, first.velocity.x);
    assert_eq!(third.velocity.y, first.velocity.y);
}
