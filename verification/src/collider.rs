//! The motion integrator: per-tick position and velocity updates for the
//! two kinds of body, a paddle that clamps at the field edge and a ball that
//! reflects off the field and off paddle obstacles.
//!
//! The integrator keeps no state of its own; every tick is evaluated afresh
//! from the body's current position. That makes it a discrete-time scheme:
//! a fast enough body can pass clean through a thin obstacle in one tick, a
//! known limitation accepted here rather than corrected with sub-stepping.
//! Corrections are exact integers, so no noise threshold is needed to keep
//! jitter from triggering false reflections.

use vstd::prelude::*;
use crate::bounds::{
    Bounds, axis_penetration, clamp_in_axis, clamp_out_x, clamp_out_y, inside_exclusion,
    lemma_clamp_in_axis_contains, lemma_clamp_out_bound, lemma_clamp_out_least_penetration,
};
use crate::limits::{DT_LIMIT, GEOM_LIMIT, MAX_OBSTACLES, VEL_LIMIT};
use crate::paddle::PaddleState;
use crate::transform::Transform;
use crate::vec2::Vec2;

verus! {

/// The x component of the field-containment correction for a body of the
/// given extents whose center proposes to sit at `cx`: the body's own edges
/// are held against the field's edges.
pub open spec fn contain_corr_x(field: Bounds, scale: Vec2, cx: int) -> int {
    clamp_in_axis(
        cx - scale.x as int / 2 - field.low.x,
        field.high.x - (cx + scale.x as int / 2),
    )
}

/// The y component of the field-containment correction.
pub open spec fn contain_corr_y(field: Bounds, scale: Vec2, cy: int) -> int {
    clamp_in_axis(
        cy - scale.y as int / 2 - field.low.y,
        field.high.y - (cy + scale.y as int / 2),
    )
}

/// Distance of the proposed center past the low x edge of the obstacle's
/// region inflated by the moving body's half-extents. Positive means the
/// center is to the right of that edge.
pub open spec fn obstacle_delta_lx(obstacle: Transform, scale: Vec2, cx: int) -> int {
    cx - (obstacle.translation.x - obstacle.scale.x as int / 2 - scale.x as int / 2)
}

/// Distance of the proposed center short of the inflated high x edge.
pub open spec fn obstacle_delta_hx(obstacle: Transform, scale: Vec2, cx: int) -> int {
    obstacle.translation.x + obstacle.scale.x as int / 2 + scale.x as int / 2 - cx
}

/// Distance of the proposed center past the inflated low y edge.
pub open spec fn obstacle_delta_ly(obstacle: Transform, scale: Vec2, cy: int) -> int {
    cy - (obstacle.translation.y - obstacle.scale.y as int / 2 - scale.y as int / 2)
}

/// Distance of the proposed center short of the inflated high y edge.
pub open spec fn obstacle_delta_hy(obstacle: Transform, scale: Vec2, cy: int) -> int {
    obstacle.translation.y + obstacle.scale.y as int / 2 + scale.y as int / 2 - cy
}

/// Whether a moving body of the given extents, proposing to center itself
/// at `(cx, cy)`, would land strictly inside the obstacle's inflated
/// region — the condition under which the obstacle ejects it.
pub open spec fn overlaps_obstacle(obstacle: Transform, scale: Vec2, cx: int, cy: int) -> bool {
    inside_exclusion(
        obstacle_delta_lx(obstacle, scale, cx),
        obstacle_delta_hx(obstacle, scale, cx),
        obstacle_delta_ly(obstacle, scale, cy),
        obstacle_delta_hy(obstacle, scale, cy),
    )
}

/// The x component of the exclusion correction one obstacle body demands
/// from a moving body of the given extents whose center proposes to sit at
/// `(cx, cy)`. The obstacle's region is inflated by the moving body's
/// half-extents, so the center can be held against it as a bare point.
pub open spec fn obstacle_corr_x(obstacle: Transform, scale: Vec2, cx: int, cy: int) -> int {
    clamp_out_x(
        obstacle_delta_lx(obstacle, scale, cx),
        obstacle_delta_hx(obstacle, scale, cx),
        obstacle_delta_ly(obstacle, scale, cy),
        obstacle_delta_hy(obstacle, scale, cy),
    )
}

/// The y component of the exclusion correction one obstacle body demands.
pub open spec fn obstacle_corr_y(obstacle: Transform, scale: Vec2, cx: int, cy: int) -> int {
    clamp_out_y(
        obstacle_delta_lx(obstacle, scale, cx),
        obstacle_delta_hx(obstacle, scale, cx),
        obstacle_delta_ly(obstacle, scale, cy),
        obstacle_delta_hy(obstacle, scale, cy),
    )
}

/// The x corrections of a set of obstacles, accumulated additively in
/// order. Additive accumulation is the documented policy for the rare tick
/// in which more than one obstacle is penetrated at once, even though it
/// over-corrects in that case.
pub open spec fn obstacles_corr_x(obstacles: Seq<PaddleCollider>, scale: Vec2, cx: int, cy: int) -> int
    decreases obstacles.len(),
{
    if obstacles.len() == 0 {
        0
    } else {
        obstacles_corr_x(obstacles.drop_last(), scale, cx, cy)
            + obstacle_corr_x(obstacles.last().transform, scale, cx, cy)
    }
}

/// The y corrections of a set of obstacles, accumulated additively in order.
pub open spec fn obstacles_corr_y(obstacles: Seq<PaddleCollider>, scale: Vec2, cx: int, cy: int) -> int
    decreases obstacles.len(),
{
    if obstacles.len() == 0 {
        0
    } else {
        obstacles_corr_y(obstacles.drop_last(), scale, cx, cy)
            + obstacle_corr_y(obstacles.last().transform, scale, cx, cy)
    }
}

/// The velocity a paddle adopts for one tick under a control input: its
/// configured speed upward, downward, or standing still.
pub open spec fn tick_velocity(speed: i64, state: PaddleState) -> int {
    match state {
        PaddleState::MoveUp => speed as int,
        PaddleState::MoveDown => -(speed as int),
        PaddleState::DoNothing => 0,
    }
}

/// A velocity within the limit, applied for a bounded time step, covers a
/// bounded displacement.
proof fn lemma_displacement_bounded(v: int, dt: int)
    requires
        -VEL_LIMIT <= v <= VEL_LIMIT,
        0 <= dt <= DT_LIMIT,
    ensures
        -(VEL_LIMIT * DT_LIMIT) <= v * dt <= VEL_LIMIT * DT_LIMIT,
{
    assert(-(VEL_LIMIT * DT_LIMIT) <= v * dt <= VEL_LIMIT * DT_LIMIT) by (nonlinear_arith)
        requires
            -VEL_LIMIT <= v <= VEL_LIMIT,
            0 <= dt <= DT_LIMIT,
    ;
}

/// A paddle body: it translates along the vertical axis under discrete
/// control input and clamps (does not reflect) at the field bounds. Its
/// velocity is derived anew each tick from the control input; only the
/// configured speed is stored.
#[derive(Clone, Copy, Debug)]
pub struct PaddleCollider {
    pub transform: Transform,
    pub velocity: i64,
    pub bounds: Bounds,
}

impl PaddleCollider {
    /// A paddle the integrator can step: well-formed transform and field,
    /// speed within the velocity limit, and a body no larger than the field
    /// on either axis (a larger body could not be contained at all).
    pub open spec fn wf(self) -> bool {
        &&& self.transform.wf()
        &&& self.bounds.wf()
        &&& -VEL_LIMIT <= self.velocity <= VEL_LIMIT
        &&& self.bounds.high.x - self.bounds.low.x >= self.transform.scale.x
        &&& self.bounds.high.y - self.bounds.low.y >= self.transform.scale.y
    }

    /// A new paddle with the given speed and spatial state, contained by the
    /// given play field.
    pub fn new(velocity: i64, transform: Transform, field: Bounds) -> (r: PaddleCollider)
        ensures
            r.transform == transform,
            r.velocity == velocity,
            r.bounds == field,
    {
        PaddleCollider { transform, velocity, bounds: field }
    }

    pub fn transform(&self) -> (r: &Transform)
        ensures
            *r == self.transform,
    {
        &self.transform
    }

    /// One tick: derive this tick's velocity from the control input, move
    /// along y, and clamp the body back into the field's vertical extent.
    /// The resulting center always lies within the field shrunk by the
    /// paddle's half-height. No velocity is stored.
    pub fn update(&mut self, dt: i64, state: &PaddleState)
        requires
            old(self).wf(),
            0 <= dt <= DT_LIMIT,
        ensures
            ({
                let y_cand = old(self).transform.translation.y
                    + tick_velocity(old(self).velocity, *state) * dt;
                let half = old(self).transform.scale.y as int / 2;
                let corr = clamp_in_axis(
                    y_cand - half - old(self).bounds.low.y,
                    old(self).bounds.high.y - (y_cand + half),
                );
                final(self).transform.translation.y == y_cand + corr
            }),
            old(self).bounds.low.y + old(self).transform.scale.y as int / 2
                <= final(self).transform.translation.y,
            final(self).transform.translation.y
                <= old(self).bounds.high.y - old(self).transform.scale.y as int / 2,
            final(self).transform.translation.x == old(self).transform.translation.x,
            final(self).transform.scale == old(self).transform.scale,
            final(self).velocity == old(self).velocity,
            final(self).bounds == old(self).bounds,
            final(self).wf(),
    {
        let velocity: i64 = match state {
            PaddleState::MoveUp => self.velocity,
            PaddleState::MoveDown => -self.velocity,
            PaddleState::DoNothing => 0,
        };
        proof {
            lemma_displacement_bounded(velocity as int, dt as int);
        }
        let y_maybe = self.transform.translation.y + velocity * dt;
        let t_delta = self
            .bounds
            .delta_transform(
                &Vec2 { x: self.transform.translation.x, y: y_maybe },
                &self.transform.scale,
            )
            .clamp_in();
        proof {
            let half = self.transform.scale.y as int / 2;
            lemma_clamp_in_axis_contains(
                y_maybe - half - self.bounds.low.y,
                self.bounds.high.y - (y_maybe + half),
            );
        }
        self.transform.translation.y = y_maybe + t_delta.y;
    }
}

/// One obstacle's correction components are bounded by the geometry limit,
/// because an ejection never exceeds half the inflated region's extent.
proof fn lemma_obstacle_corr_bounded(obstacle: Transform, scale: Vec2, cx: int, cy: int)
    requires
        obstacle.wf(),
        0 <= scale.x <= GEOM_LIMIT,
        0 <= scale.y <= GEOM_LIMIT,
    ensures
        -GEOM_LIMIT <= obstacle_corr_x(obstacle, scale, cx, cy) <= GEOM_LIMIT,
        -GEOM_LIMIT <= obstacle_corr_y(obstacle, scale, cx, cy) <= GEOM_LIMIT,
{
    lemma_clamp_out_bound(
        obstacle_delta_lx(obstacle, scale, cx),
        obstacle_delta_hx(obstacle, scale, cx),
        obstacle_delta_ly(obstacle, scale, cy),
        obstacle_delta_hy(obstacle, scale, cy),
    );
}

/// Extending the accumulated obstacle correction by one more obstacle adds
/// exactly that obstacle's own correction.
proof fn lemma_obstacles_corr_take_step(
    obstacles: Seq<PaddleCollider>,
    i: int,
    scale: Vec2,
    cx: int,
    cy: int,
)
    requires
        0 <= i < obstacles.len(),
    ensures
        obstacles_corr_x(obstacles.take(i + 1), scale, cx, cy) == obstacles_corr_x(
            obstacles.take(i),
            scale,
            cx,
            cy,
        ) + obstacle_corr_x(obstacles[i].transform, scale, cx, cy),
        obstacles_corr_y(obstacles.take(i + 1), scale, cx, cy) == obstacles_corr_y(
            obstacles.take(i),
            scale,
            cx,
            cy,
        ) + obstacle_corr_y(obstacles[i].transform, scale, cx, cy),
{
    assert(obstacles.take(i + 1).drop_last() =~= obstacles.take(i));
    assert(obstacles.take(i + 1).last() == obstacles[i]);
}

/// A ball body: it integrates its velocity each tick, reflects off the
/// field walls and is ejected from any paddle obstacle it would land in.
#[derive(Clone, Copy, Debug)]
pub struct BallCollider {
    pub transform: Transform,
    pub velocity: Vec2,
    pub bounds: Bounds,
}

impl BallCollider {
    /// A ball the integrator can step: well-formed transform and field,
    /// velocity within the limit, and a body no larger than the field on
    /// either axis.
    pub open spec fn wf(self) -> bool {
        &&& self.transform.wf()
        &&& self.bounds.wf()
        &&& -VEL_LIMIT <= self.velocity.x <= VEL_LIMIT
        &&& -VEL_LIMIT <= self.velocity.y <= VEL_LIMIT
        &&& self.bounds.high.x - self.bounds.low.x >= self.transform.scale.x
        &&& self.bounds.high.y - self.bounds.low.y >= self.transform.scale.y
    }

    /// A new ball with the given velocity and spatial state, contained by
    /// the given play field.
    pub fn new(velocity: Vec2, transform: Transform, field: Bounds) -> (r: BallCollider)
        ensures
            r.transform == transform,
            r.velocity == velocity,
            r.bounds == field,
    {
        BallCollider { transform, velocity, bounds: field }
    }

    pub fn transform(&self) -> (r: &Transform)
        ensures
            *r == self.transform,
    {
        &self.transform
    }

    /// One tick of the motion integrator. The body proposes to move by
    /// velocity times elapsed time; the proposal is corrected back into the
    /// play field (containment) and out of every penetrated obstacle
    /// (exclusion, by least penetration); and each axis whose combined
    /// correction is non-zero has its velocity component negated — a full
    /// elastic, axis-aligned reflection.
    #[verifier::loop_isolation(false)]
    pub fn update(&mut self, dt: i64, paddles: &[PaddleCollider])
        requires
            old(self).wf(),
            0 <= dt <= DT_LIMIT,
            paddles@.len() <= MAX_OBSTACLES,
            forall|j: int| 0 <= j < paddles@.len() ==> paddles@[j].wf(),
        ensures
            ({
                let scale = old(self).transform.scale;
                let cx = old(self).transform.translation.x + old(self).velocity.x * dt;
                let cy = old(self).transform.translation.y + old(self).velocity.y * dt;
                let total_x = contain_corr_x(old(self).bounds, scale, cx) + obstacles_corr_x(
                    paddles@,
                    scale,
                    cx,
                    cy,
                );
                let total_y = contain_corr_y(old(self).bounds, scale, cy) + obstacles_corr_y(
                    paddles@,
                    scale,
                    cx,
                    cy,
                );
                &&& final(self).transform.translation.x == cx + total_x
                &&& final(self).transform.translation.y == cy + total_y
                &&& final(self).velocity.x == if total_x != 0 {
                    -old(self).velocity.x as int
                } else {
                    old(self).velocity.x as int
                }
                &&& final(self).velocity.y == if total_y != 0 {
                    -old(self).velocity.y as int
                } else {
                    old(self).velocity.y as int
                }
            }),
            final(self).transform.scale == old(self).transform.scale,
            final(self).bounds == old(self).bounds,
            final(self).wf(),
    {
        proof {
            lemma_displacement_bounded(self.velocity.x as int, dt as int);
            lemma_displacement_bounded(self.velocity.y as int, dt as int);
        }
        let cx = self.transform.translation.x + self.velocity.x * dt;
        let cy = self.transform.translation.y + self.velocity.y * dt;
        let cand = Vec2 { x: cx, y: cy };
        let b_delta = self.bounds.delta_transform(&cand, &self.transform.scale);
        let t_delta = b_delta.clamp_in();
        proof {
            lemma_clamp_in_axis_contains(b_delta.low.x as int, b_delta.high.x as int);
            lemma_clamp_in_axis_contains(b_delta.low.y as int, b_delta.high.y as int);
        }

        let mut ox: i64 = 0;
        let mut oy: i64 = 0;
        let mut i: usize = 0;
        while i < paddles.len()
            invariant
                i <= paddles@.len(),
                paddles@.len() <= MAX_OBSTACLES,
                forall|j: int| 0 <= j < paddles@.len() ==> paddles@[j].wf(),
                ox == obstacles_corr_x(
                    paddles@.take(i as int),
                    self.transform.scale,
                    cx as int,
                    cy as int,
                ),
                oy == obstacles_corr_y(
                    paddles@.take(i as int),
                    self.transform.scale,
                    cx as int,
                    cy as int,
                ),
                -(i as int * GEOM_LIMIT) <= ox <= i as int * GEOM_LIMIT,
                -(i as int * GEOM_LIMIT) <= oy <= i as int * GEOM_LIMIT,
            decreases paddles@.len() - i,
        {
            let p_bounds = Bounds::from_transform(&paddles[i].transform).inflate(
                &self.transform.scale,
            );
            let d = p_bounds.delta_vec(cand);
            let c = d.clamp_out();
            proof {
                lemma_obstacle_corr_bounded(
                    paddles@[i as int].transform,
                    self.transform.scale,
                    cx as int,
                    cy as int,
                );
                lemma_obstacles_corr_take_step(
                    paddles@,
                    i as int,
                    self.transform.scale,
                    cx as int,
                    cy as int,
                );
            }
            ox = ox + c.x;
            oy = oy + c.y;
            i = i + 1;
        }
        proof {
            assert(paddles@.take(paddles@.len() as int) =~= paddles@);
        }

        let px = cx + t_delta.x;
        let py = cy + t_delta.y;
        let rx = px + ox;
        let ry = py + oy;
        let total_x = t_delta.x + ox;
        let total_y = t_delta.y + oy;
        self.transform.translation = Vec2 { x: rx, y: ry };
        self.velocity = Vec2 {
            x: if total_x != 0 {
                -self.velocity.x
            } else {
                self.velocity.x
            },
            y: if total_y != 0 {
                -self.velocity.y
            } else {
                self.velocity.y
            },
        };
    }
}

/// Obstacles that are not overlapped demand no correction at all.
pub proof fn lemma_obstacles_corr_zero(
    obstacles: Seq<PaddleCollider>,
    scale: Vec2,
    cx: int,
    cy: int,
)
    requires
        forall|j: int|
            0 <= j < obstacles.len() ==> !overlaps_obstacle(obstacles[j].transform, scale, cx, cy),
    ensures
        obstacles_corr_x(obstacles, scale, cx, cy) == 0,
        obstacles_corr_y(obstacles, scale, cx, cy) == 0,
    decreases obstacles.len(),
{
    if obstacles.len() > 0 {
        lemma_obstacles_corr_zero(obstacles.drop_last(), scale, cx, cy);
    }
}

/// Free motion: for a body whose proposed position stays inside the play
/// field (shrunk by its own half-extents) and overlaps no obstacle, one
/// update demands no correction: the translation becomes exactly the old
/// translation plus velocity times elapsed time, and the velocity is
/// unchanged.
pub proof fn lemma_free_motion(ball: BallCollider, dt: i64, paddles: Seq<PaddleCollider>)
    requires
        ball.wf(),
        0 <= dt <= DT_LIMIT,
        ({
            let scale = ball.transform.scale;
            let cx = ball.transform.translation.x + ball.velocity.x * dt;
            let cy = ball.transform.translation.y + ball.velocity.y * dt;
            &&& ball.bounds.low.x + scale.x as int / 2 <= cx <= ball.bounds.high.x - scale.x as int
                / 2
            &&& ball.bounds.low.y + scale.y as int / 2 <= cy <= ball.bounds.high.y - scale.y as int
                / 2
            &&& forall|j: int|
                0 <= j < paddles.len() ==> !overlaps_obstacle(paddles[j].transform, scale, cx, cy)
        }),
    ensures
        ({
            let scale = ball.transform.scale;
            let cx = ball.transform.translation.x + ball.velocity.x * dt;
            let cy = ball.transform.translation.y + ball.velocity.y * dt;
            &&& contain_corr_x(ball.bounds, scale, cx) + obstacles_corr_x(paddles, scale, cx, cy)
                == 0
            &&& contain_corr_y(ball.bounds, scale, cy) + obstacles_corr_y(paddles, scale, cx, cy)
                == 0
        }),
{
    let scale = ball.transform.scale;
    let cx = ball.transform.translation.x + ball.velocity.x * dt;
    let cy = ball.transform.translation.y + ball.velocity.y * dt;
    lemma_obstacles_corr_zero(paddles, scale, cx, cy);
}

/// A body landing inside an obstacle's inflated region is ejected along
/// the axis of least penetration, onto the nearer edge of that axis, and
/// only along that axis; a tie between the axes breaks toward the
/// horizontal.
pub proof fn lemma_obstacle_ejects_least_penetration(
    obstacle: Transform,
    scale: Vec2,
    cx: int,
    cy: int,
)
    requires
        overlaps_obstacle(obstacle, scale, cx, cy),
    ensures
        ({
            let lx = obstacle_delta_lx(obstacle, scale, cx);
            let hx = obstacle_delta_hx(obstacle, scale, cx);
            let ly = obstacle_delta_ly(obstacle, scale, cy);
            let hy = obstacle_delta_hy(obstacle, scale, cy);
            let ox = obstacle_corr_x(obstacle, scale, cx, cy);
            let oy = obstacle_corr_y(obstacle, scale, cx, cy);
            &&& axis_penetration(lx, hx) <= axis_penetration(ly, hy) ==> oy == 0 && ox != 0 && (lx
                + ox == 0 || hx - ox == 0)
            &&& axis_penetration(ly, hy) < axis_penetration(lx, hx) ==> ox == 0 && oy != 0 && (ly
                + oy == 0 || hy - oy == 0)
        }),
{
    lemma_clamp_out_least_penetration(
        obstacle_delta_lx(obstacle, scale, cx),
        obstacle_delta_hx(obstacle, scale, cx),
        obstacle_delta_ly(obstacle, scale, cy),
        obstacle_delta_hy(obstacle, scale, cy),
    );
}

/// Containment settles after one reflection: a body exactly on a vertical
/// field boundary with velocity pointing further outward is clamped back to
/// that boundary with a non-zero correction (so the x velocity flips), and
/// the following tick, taken with the flipped velocity, needs no x
/// correction at all (so no second reflection is triggered) provided one
/// tick's travel does not span the whole field.
pub proof fn lemma_boundary_reflection_settles(ball: BallCollider, dt: i64)
    requires
        ball.wf(),
        0 <= dt <= DT_LIMIT,
        ({
            let shrunk_low = ball.bounds.low.x + ball.transform.scale.x as int / 2;
            let shrunk_high = ball.bounds.high.x - ball.transform.scale.x as int / 2;
            ||| (ball.transform.translation.x == shrunk_high && ball.velocity.x > 0
                && ball.velocity.x * dt <= shrunk_high - shrunk_low)
            ||| (ball.transform.translation.x == shrunk_low && ball.velocity.x < 0
                && -(ball.velocity.x * dt) <= shrunk_high - shrunk_low)
        }),
    ensures
        ({
            let scale = ball.transform.scale;
            let tx = ball.transform.translation.x;
            let cx = tx + ball.velocity.x * dt;
            let fx = contain_corr_x(ball.bounds, scale, cx);
            &&& ball.velocity.x * dt != 0 ==> fx != 0
            &&& cx + fx == tx
            &&& contain_corr_x(ball.bounds, scale, tx + (-ball.velocity.x as int) * dt) == 0
        }),
{
    let v = ball.velocity.x as int;
    let dti = dt as int;
    assert(-v * dti == -(v * dti)) by (nonlinear_arith);
    if dt > 0 && ball.velocity.x != 0 {
        assert(v * dti >= v && v >= 1 || v * dti <= v && v <= -1) by (nonlinear_arith)
            requires
                1 <= dti,
                v != 0,
        ;
    } else {
        assert(v * dti == 0) by (nonlinear_arith)
            requires
                v == 0 || dti == 0,
        ;
    }
}

/// Left-right symmetry: as long as the proposed vertical position stays
/// inside the field, a wall reflection — off the left wall or off the right
/// wall — corrects and flips the horizontal axis only; the vertical
/// velocity component is never touched.
pub proof fn lemma_wall_reflection_horizontal(ball: BallCollider, dt: i64)
    requires
        ball.wf(),
        0 <= dt <= DT_LIMIT,
        ({
            let scale = ball.transform.scale;
            let cy = ball.transform.translation.y + ball.velocity.y * dt;
            ball.bounds.low.y + scale.y as int / 2 <= cy <= ball.bounds.high.y - scale.y as int / 2
        }),
    ensures
        ({
            let scale = ball.transform.scale;
            let cx = ball.transform.translation.x + ball.velocity.x * dt;
            let cy = ball.transform.translation.y + ball.velocity.y * dt;
            &&& contain_corr_y(ball.bounds, scale, cy) == 0
            &&& cx < ball.bounds.low.x + scale.x as int / 2 ==> contain_corr_x(
                ball.bounds,
                scale,
                cx,
            ) > 0
            &&& cx > ball.bounds.high.x - scale.x as int / 2 ==> contain_corr_x(
                ball.bounds,
                scale,
                cx,
            ) < 0
        }),
{
}

/// A body penetrating the field on both axes at once — the corner case —
/// receives a non-zero correction on both axes in the same tick, so both
/// velocity components reflect together.
pub proof fn lemma_corner_reflects_both(ball: BallCollider, dt: i64)
    requires
        ball.wf(),
        0 <= dt <= DT_LIMIT,
        ({
            let scale = ball.transform.scale;
            let cx = ball.transform.translation.x + ball.velocity.x * dt;
            let cy = ball.transform.translation.y + ball.velocity.y * dt;
            &&& (cx < ball.bounds.low.x + scale.x as int / 2 || cx > ball.bounds.high.x
                - scale.x as int / 2)
            &&& (cy < ball.bounds.low.y + scale.y as int / 2 || cy > ball.bounds.high.y
                - scale.y as int / 2)
        }),
    ensures
        ({
            let scale = ball.transform.scale;
            let cx = ball.transform.translation.x + ball.velocity.x * dt;
            let cy = ball.transform.translation.y + ball.velocity.y * dt;
            &&& contain_corr_x(ball.bounds, scale, cx) != 0
            &&& contain_corr_y(ball.bounds, scale, cy) != 0
        }),
{
}

/// Determinism: the outcome of an update is a function of the body's
/// translation, velocity and extents, the field, the elapsed time and the
/// obstacle snapshot alone. Two bodies restored to equal state and stepped
/// with the same inputs resolve to identical positions and corrections.
pub proof fn lemma_update_deterministic(
    a: BallCollider,
    b: BallCollider,
    dt: i64,
    paddles: Seq<PaddleCollider>,
)
    requires
        a.transform == b.transform,
        a.velocity == b.velocity,
        a.bounds == b.bounds,
    ensures
        ({
            let cxa = a.transform.translation.x + a.velocity.x * dt;
            let cya = a.transform.translation.y + a.velocity.y * dt;
            let cxb = b.transform.translation.x + b.velocity.x * dt;
            let cyb = b.transform.translation.y + b.velocity.y * dt;
            &&& cxa == cxb
            &&& cya == cyb
            &&& contain_corr_x(a.bounds, a.transform.scale, cxa) == contain_corr_x(
                b.bounds,
                b.transform.scale,
                cxb,
            )
            &&& contain_corr_y(a.bounds, a.transform.scale, cya) == contain_corr_y(
                b.bounds,
                b.transform.scale,
                cyb,
            )
            &&& obstacles_corr_x(paddles, a.transform.scale, cxa, cya) == obstacles_corr_x(
                paddles,
                b.transform.scale,
                cxb,
                cyb,
            )
            &&& obstacles_corr_y(paddles, a.transform.scale, cxa, cya) == obstacles_corr_y(
                paddles,
                b.transform.scale,
                cxb,
                cyb,
            )
        }),
{
}

} // verus!
