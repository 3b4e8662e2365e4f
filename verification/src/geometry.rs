//! Shape-versus-shape intersection tests on plain figure data.
//!
//! Distances are compared in squared form, which is exact in integer
//! arithmetic and equivalent to comparing the distances themselves when
//! radii are non-negative.

use vstd::prelude::*;
use crate::limits::{GEOM_LIMIT, POS_LIMIT};
use crate::vec2::Vec2;

verus! {

/// Which edge of the play field a wall shape stands for.
#[derive(Clone, Copy, Debug, PartialEq, Eq, Structural)]
pub enum Orientation {
    Left,
    Right,
    Top,
    Bottom,
}

/// The geometry of a collidable figure, centered at the origin: a full
/// width-and-height rectangle, a circle of some radius, or a half-plane
/// wall with an orientation and a drawing size.
#[derive(Clone, Copy, Debug, PartialEq, Eq, Structural)]
pub enum Shape {
    Rectangle { w: i64, h: i64 },
    Circle { r: i64 },
    Wall { o: Orientation, s: i64 },
}

impl Shape {
    /// Extents are non-negative and within the geometry limit.
    pub open spec fn wf(self) -> bool {
        match self {
            Shape::Rectangle { w, h } => 0 <= w <= GEOM_LIMIT && 0 <= h <= GEOM_LIMIT,
            Shape::Circle { r } => 0 <= r <= GEOM_LIMIT,
            Shape::Wall { o, s } => 0 <= s <= GEOM_LIMIT,
        }
    }

    pub open spec fn is_wall(self) -> bool {
        match self {
            Shape::Wall { .. } => true,
            _ => false,
        }
    }
}

/// A placed shape: geometry plus the position of its center.
#[derive(Clone, Copy, Debug, PartialEq, Eq, Structural)]
pub struct Figure {
    pub shape: Shape,
    pub center: Vec2,
}

pub open spec fn sq(v: int) -> int {
    v * v
}

/// `v` limited to the interval `[lo, hi]`.
pub open spec fn clamp_to(v: int, lo: int, hi: int) -> int {
    if v < lo {
        lo
    } else if v > hi {
        hi
    } else {
        v
    }
}

/// Axis-aligned rectangles meet when their extents overlap on both axes;
/// touching edges count as meeting.
pub open spec fn rects_meet(c1: Vec2, w1: int, h1: int, c2: Vec2, w2: int, h2: int) -> bool {
    !(c1.x + w1 / 2 < c2.x - w2 / 2 || c1.x - w1 / 2 > c2.x + w2 / 2 || c1.y + h1 / 2 < c2.y - h2
        / 2 || c1.y - h1 / 2 > c2.y + h2 / 2)
}

/// Circles meet when the distance between their centers is at most the sum
/// of their radii, compared in squared form.
pub open spec fn circles_meet(c1: Vec2, r1: int, c2: Vec2, r2: int) -> bool {
    sq(c2.x - c1.x) + sq(c2.y - c1.y) <= sq(r1 + r2)
}

/// A circle meets a rectangle when the point of the rectangle closest to
/// the circle's center lies within the radius, compared in squared form.
pub open spec fn circle_rect_meet(cc: Vec2, r: int, rc: Vec2, w: int, h: int) -> bool {
    sq(clamp_to(cc.x as int, rc.x - w / 2, rc.x + w / 2) - cc.x) + sq(
        clamp_to(cc.y as int, rc.y - h / 2, rc.y + h / 2) - cc.y,
    ) <= sq(r)
}

/// A wall meets a rectangle when the rectangle's facing edge reaches the
/// wall's position on the wall's axis: the left wall is reached by the left
/// edge, the top wall by the top edge, and so on.
pub open spec fn wall_rect_meet(o: Orientation, wc: Vec2, rc: Vec2, w: int, h: int) -> bool {
    match o {
        Orientation::Left => rc.x - w / 2 <= wc.x,
        Orientation::Right => rc.x + w / 2 >= wc.x,
        Orientation::Top => rc.y + h / 2 >= wc.y,
        Orientation::Bottom => rc.y - h / 2 <= wc.y,
    }
}

/// A wall meets a circle when the circle's facing edge reaches the wall's
/// position on the wall's axis, by the same half-plane convention as the
/// rectangle case.
pub open spec fn wall_circle_meet(o: Orientation, wc: Vec2, cc: Vec2, r: int) -> bool {
    match o {
        Orientation::Left => cc.x - r <= wc.x,
        Orientation::Right => cc.x + r >= wc.x,
        Orientation::Top => cc.y + r >= wc.y,
        Orientation::Bottom => cc.y - r <= wc.y,
    }
}

/// Whether two placed figures touch or overlap. Two walls never meet this
/// question: callers keep walls apart, so that pairing is defined here as
/// false and excluded by `Figure::intersects`.
pub open spec fn figures_meet(a: Figure, b: Figure) -> bool {
    match (a.shape, b.shape) {
        (Shape::Rectangle { w: w1, h: h1 }, Shape::Rectangle { w: w2, h: h2 }) => rects_meet(
            a.center,
            w1 as int,
            h1 as int,
            b.center,
            w2 as int,
            h2 as int,
        ),
        (Shape::Circle { r: r1 }, Shape::Circle { r: r2 }) => circles_meet(
            a.center,
            r1 as int,
            b.center,
            r2 as int,
        ),
        (Shape::Circle { r }, Shape::Rectangle { w, h }) => circle_rect_meet(
            a.center,
            r as int,
            b.center,
            w as int,
            h as int,
        ),
        (Shape::Rectangle { w, h }, Shape::Circle { r }) => circle_rect_meet(
            b.center,
            r as int,
            a.center,
            w as int,
            h as int,
        ),
        (Shape::Wall { o, s }, Shape::Rectangle { w, h }) => wall_rect_meet(
            o,
            a.center,
            b.center,
            w as int,
            h as int,
        ),
        (Shape::Rectangle { w, h }, Shape::Wall { o, s }) => wall_rect_meet(
            o,
            b.center,
            a.center,
            w as int,
            h as int,
        ),
        (Shape::Wall { o, s }, Shape::Circle { r }) => wall_circle_meet(
            o,
            a.center,
            b.center,
            r as int,
        ),
        (Shape::Circle { r }, Shape::Wall { o, s }) => wall_circle_meet(
            o,
            b.center,
            a.center,
            r as int,
        ),
        (Shape::Wall { .. }, Shape::Wall { .. }) => false,
    }
}

/// The square of any value within the distance scales of this module fits
/// comfortably inside `i128`.
proof fn lemma_sq_bounded(v: int, m: int)
    requires
        -m <= v <= m,
        m <= 10_000_000_000_000_000,
    ensures
        0 <= sq(v) <= 100_000_000_000_000_000_000_000_000_000_000,
{
    assert(0 <= v * v <= 100_000_000_000_000_000_000_000_000_000_000) by (nonlinear_arith)
        requires
            -m <= v <= m,
            m <= 10_000_000_000_000_000,
    ;
}

/// `v` limited to the interval `[lo, hi]`.
fn clamp_i64(v: i64, lo: i64, hi: i64) -> (r: i64)
    requires
        lo <= hi,
    ensures
        r == clamp_to(v as int, lo as int, hi as int),
{
    if v < lo {
        lo
    } else if v > hi {
        hi
    } else {
        v
    }
}

impl Figure {
    /// A figure the tests can work with: a well-formed shape placed within
    /// the position limit.
    pub open spec fn wf(self) -> bool {
        &&& self.shape.wf()
        &&& -POS_LIMIT <= self.center.x <= POS_LIMIT
        &&& -POS_LIMIT <= self.center.y <= POS_LIMIT
    }

    /// Whether this figure touches or overlaps the other. The wall-to-wall
    /// pairing is left undefined and excluded here.
    pub fn intersects(&self, other: &Figure) -> (r: bool)
        requires
            self.wf(),
            other.wf(),
            !(self.shape.is_wall() && other.shape.is_wall()),
        ensures
            r == figures_meet(*self, *other),
    {
        match (self.shape, other.shape) {
            (Shape::Rectangle { w: w1, h: h1 }, Shape::Rectangle { w: w2, h: h2 }) => {
                let r1_l = self.center.x - w1 / 2;
                let r1_r = self.center.x + w1 / 2;
                let r1_t = self.center.y + h1 / 2;
                let r1_b = self.center.y - h1 / 2;
                let r2_l = other.center.x - w2 / 2;
                let r2_r = other.center.x + w2 / 2;
                let r2_t = other.center.y + h2 / 2;
                let r2_b = other.center.y - h2 / 2;
                !(r1_r < r2_l || r1_l > r2_r || r1_t < r2_b || r1_b > r2_t)
            },
            (Shape::Circle { r: r1 }, Shape::Circle { r: r2 }) => {
                let dxw = (other.center.x as i128) - (self.center.x as i128);
                let dyw = (other.center.y as i128) - (self.center.y as i128);
                let rsum = (r1 as i128) + (r2 as i128);
                proof {
                    lemma_sq_bounded(dxw as int, 2 * POS_LIMIT);
                    lemma_sq_bounded(dyw as int, 2 * POS_LIMIT);
                    lemma_sq_bounded(rsum as int, 2 * GEOM_LIMIT);
                }
                let d2 = dxw * dxw + dyw * dyw;
                d2 <= rsum * rsum
            },
            (Shape::Circle { r }, Shape::Rectangle { w, h }) => {
                circle_rect_intersects(self.center, r, other.center, w, h)
            },
            (Shape::Rectangle { w, h }, Shape::Circle { r }) => {
                circle_rect_intersects(other.center, r, self.center, w, h)
            },
            (Shape::Wall { o, s: _ }, Shape::Rectangle { w, h }) => {
                match o {
                    Orientation::Left => other.center.x - w / 2 <= self.center.x,
                    Orientation::Right => other.center.x + w / 2 >= self.center.x,
                    Orientation::Top => other.center.y + h / 2 >= self.center.y,
                    Orientation::Bottom => other.center.y - h / 2 <= self.center.y,
                }
            },
            (Shape::Rectangle { w, h }, Shape::Wall { o, s: _ }) => {
                match o {
                    Orientation::Left => self.center.x - w / 2 <= other.center.x,
                    Orientation::Right => self.center.x + w / 2 >= other.center.x,
                    Orientation::Top => self.center.y + h / 2 >= other.center.y,
                    Orientation::Bottom => self.center.y - h / 2 <= other.center.y,
                }
            },
            (Shape::Wall { o, s: _ }, Shape::Circle { r }) => {
                match o {
                    Orientation::Left => other.center.x - r <= self.center.x,
                    Orientation::Right => other.center.x + r >= self.center.x,
                    Orientation::Top => other.center.y + r >= self.center.y,
                    Orientation::Bottom => other.center.y - r <= self.center.y,
                }
            },
            (Shape::Circle { r }, Shape::Wall { o, s: _ }) => {
                match o {
                    Orientation::Left => self.center.x - r <= other.center.x,
                    Orientation::Right => self.center.x + r >= other.center.x,
                    Orientation::Top => self.center.y + r >= other.center.y,
                    Orientation::Bottom => self.center.y - r <= other.center.y,
                }
            },
            (Shape::Wall { .. }, Shape::Wall { .. }) => {
                proof {
                    assert(false);
                }
                false
            },
        }
    }
}

/// The circle-versus-rectangle case: find the rectangle's closest point to
/// the circle's center, then compare its distance against the radius in
/// squared form.
fn circle_rect_intersects(cc: Vec2, r: i64, rc: Vec2, w: i64, h: i64) -> (res: bool)
    requires
        0 <= r <= GEOM_LIMIT,
        0 <= w <= GEOM_LIMIT,
        0 <= h <= GEOM_LIMIT,
        -POS_LIMIT <= cc.x <= POS_LIMIT,
        -POS_LIMIT <= cc.y <= POS_LIMIT,
        -POS_LIMIT <= rc.x <= POS_LIMIT,
        -POS_LIMIT <= rc.y <= POS_LIMIT,
    ensures
        res == circle_rect_meet(cc, r as int, rc, w as int, h as int),
{
    let closest_x = clamp_i64(cc.x, rc.x - w / 2, rc.x + w / 2);
    let closest_y = clamp_i64(cc.y, rc.y - h / 2, rc.y + h / 2);
    let dx = closest_x - cc.x;
    let dy = closest_y - cc.y;
    let dxw = dx as i128;
    let dyw = dy as i128;
    let rw = r as i128;
    proof {
        lemma_sq_bounded(dxw as int, 2 * POS_LIMIT + GEOM_LIMIT);
        lemma_sq_bounded(dyw as int, 2 * POS_LIMIT + GEOM_LIMIT);
        lemma_sq_bounded(rw as int, GEOM_LIMIT as int);
    }
    let d2 = dxw * dxw + dyw * dyw;
    (d2 <= rw * rw)
}

} // verus!
