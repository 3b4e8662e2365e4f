//! Overshoot geometry: how far a point lies outside (or inside) an
//! axis-aligned rectangular region, and the correction that puts it back.
//!
//! Two correction policies exist. `clamp_in` implements containment (the play
//! field): a point must never leave the region, and a point found outside is
//! moved straight back onto the nearest violated edge. `clamp_out` implements
//! exclusion (a paddle treated as an obstacle): a point found strictly inside
//! the region is ejected along the axis of least penetration, onto the
//! nearer edge of that axis. When the two axes penetrate equally deep, the
//! tie breaks toward the horizontal axis.

use vstd::prelude::*;
use crate::limits::{CAND_LIMIT, GEOM_LIMIT, POS_LIMIT, REGION_LIMIT};
use crate::transform::Transform;
use crate::vec2::Vec2;

verus! {

/// An axis-aligned rectangular region, as low and high corners.
#[derive(Clone, Copy, Debug, PartialEq, Eq)]
pub struct Bounds {
    pub low: Vec2,
    pub high: Vec2,
}

/// Signed distances of a point from a region's four edges. A component is
/// negative exactly when the point is past that edge: `low.x < 0` means the
/// point lies left of the region's low x edge by that magnitude, and
/// `high.x < 0` means it lies past the high x edge.
#[derive(Clone, Copy, Debug, PartialEq, Eq)]
pub struct BDelta {
    pub low: Vec2,
    pub high: Vec2,
}

/// Containment correction on one axis: zero when both edge distances are
/// non-negative (the point is inside), otherwise the signed amount that moves
/// the point exactly onto the violated edge.
pub open spec fn clamp_in_axis(low_delta: int, high_delta: int) -> int {
    if low_delta < 0 {
        -low_delta
    } else if high_delta < 0 {
        high_delta
    } else {
        0
    }
}

/// A point is strictly inside an exclusion region when all four edge
/// distances are positive.
pub open spec fn inside_exclusion(lx: int, hx: int, ly: int, hy: int) -> bool {
    lx > 0 && hx > 0 && ly > 0 && hy > 0
}

/// Depth of penetration on one axis: the distance to the nearer edge.
pub open spec fn axis_penetration(low_delta: int, high_delta: int) -> int {
    if low_delta <= high_delta {
        low_delta
    } else {
        high_delta
    }
}

/// The signed correction that moves a point onto the nearer edge of one
/// axis; on a tie between the two edges it moves onto the low edge.
pub open spec fn axis_escape(low_delta: int, high_delta: int) -> int {
    if low_delta <= high_delta {
        -low_delta
    } else {
        high_delta
    }
}

/// The x component of the exclusion correction: non-zero only when the point
/// is strictly inside and the x axis penetrates no deeper than the y axis
/// (ties break toward this, the horizontal, axis).
pub open spec fn clamp_out_x(lx: int, hx: int, ly: int, hy: int) -> int {
    if inside_exclusion(lx, hx, ly, hy) && axis_penetration(lx, hx) <= axis_penetration(ly, hy) {
        axis_escape(lx, hx)
    } else {
        0
    }
}

/// The y component of the exclusion correction: non-zero only when the point
/// is strictly inside and the y axis penetrates strictly less deep.
pub open spec fn clamp_out_y(lx: int, hx: int, ly: int, hy: int) -> int {
    if inside_exclusion(lx, hx, ly, hy) && !(axis_penetration(lx, hx) <= axis_penetration(ly, hy)) {
        axis_escape(ly, hy)
    } else {
        0
    }
}

/// Containment correction on one axis. `low_delta + high_delta` is the slack
/// between region size and body size; a negative slack would mean the body
/// cannot be contained at all, which is a malformed configuration.
pub fn overshoot(low_delta: i64, high_delta: i64) -> (r: i64)
    requires
        low_delta + high_delta >= 0,
    ensures
        r == clamp_in_axis(low_delta as int, high_delta as int),
{
    if low_delta < 0 {
        -low_delta
    } else if high_delta < 0 {
        high_delta
    } else {
        0
    }
}

impl Bounds {
    /// A play-field region: ordered corners within the field limit.
    pub open spec fn wf(self) -> bool {
        &&& self.low.x <= self.high.x
        &&& self.low.y <= self.high.y
        &&& -GEOM_LIMIT <= self.low.x && self.high.x <= GEOM_LIMIT
        &&& -GEOM_LIMIT <= self.low.y && self.high.y <= GEOM_LIMIT
    }

    /// Ordered corners small enough for overshoot arithmetic. Weaker than
    /// `wf`: it also admits the region of a body far outside the field, and
    /// such a region inflated by another body's half-extents.
    pub open spec fn in_range(self) -> bool {
        &&& self.low.x <= self.high.x
        &&& self.low.y <= self.high.y
        &&& -REGION_LIMIT <= self.low.x && self.high.x <= REGION_LIMIT
        &&& -REGION_LIMIT <= self.low.y && self.high.y <= REGION_LIMIT
    }

    pub fn new(x_l: i64, x_h: i64, y_l: i64, y_h: i64) -> (r: Bounds)
        ensures
            r.low.x == x_l,
            r.high.x == x_h,
            r.low.y == y_l,
            r.high.y == y_h,
    {
        Bounds { low: Vec2 { x: x_l, y: y_l }, high: Vec2 { x: x_h, y: y_h } }
    }

    /// The region covered by a body: its center plus and minus half its
    /// extents on each axis.
    pub fn from_transform(transform: &Transform) -> (r: Bounds)
        requires
            transform.wf(),
        ensures
            r.low.x == transform.translation.x - transform.scale.x as int / 2,
            r.high.x == transform.translation.x + transform.scale.x as int / 2,
            r.low.y == transform.translation.y - transform.scale.y as int / 2,
            r.high.y == transform.translation.y + transform.scale.y as int / 2,
    {
        Bounds::new(
            transform.translation.x - transform.scale.x / 2,
            transform.translation.x + transform.scale.x / 2,
            transform.translation.y - transform.scale.y / 2,
            transform.translation.y + transform.scale.y / 2,
        )
    }

    /// This region grown outward by half the given extents on every edge:
    /// the Minkowski sum that lets a moving body be treated as a bare point
    /// against an enlarged obstacle.
    pub fn inflate(&self, scale: &Vec2) -> (r: Bounds)
        requires
            -(POS_LIMIT + GEOM_LIMIT) <= self.low.x <= POS_LIMIT + GEOM_LIMIT,
            -(POS_LIMIT + GEOM_LIMIT) <= self.low.y <= POS_LIMIT + GEOM_LIMIT,
            -(POS_LIMIT + GEOM_LIMIT) <= self.high.x <= POS_LIMIT + GEOM_LIMIT,
            -(POS_LIMIT + GEOM_LIMIT) <= self.high.y <= POS_LIMIT + GEOM_LIMIT,
            0 <= scale.x <= GEOM_LIMIT,
            0 <= scale.y <= GEOM_LIMIT,
        ensures
            r.low.x == self.low.x - scale.x as int / 2,
            r.low.y == self.low.y - scale.y as int / 2,
            r.high.x == self.high.x + scale.x as int / 2,
            r.high.y == self.high.y + scale.y as int / 2,
    {
        Bounds::new(
            self.low.x - scale.x / 2,
            self.high.x + scale.x / 2,
            self.low.y - scale.y / 2,
            self.high.y + scale.y / 2,
        )
    }

    /// Edge distances of a bare point from this region.
    pub fn delta_vec(&self, point: Vec2) -> (r: BDelta)
        requires
            self.in_range(),
            -CAND_LIMIT <= point.x <= CAND_LIMIT,
            -CAND_LIMIT <= point.y <= CAND_LIMIT,
        ensures
            r.low.x == point.x - self.low.x,
            r.low.y == point.y - self.low.y,
            r.high.x == self.high.x - point.x,
            r.high.y == self.high.y - point.y,
    {
        BDelta {
            low: Vec2 { x: point.x - self.low.x, y: point.y - self.low.y },
            high: Vec2 { x: self.high.x - point.x, y: self.high.y - point.y },
        }
    }

    /// Edge distances of a body's own edges from this region: the body's
    /// center offset by half its extents. Equivalently, the distances of the
    /// center from the region shrunk by the half-extents.
    pub fn delta_transform(&self, translation: &Vec2, scale: &Vec2) -> (r: BDelta)
        requires
            self.in_range(),
            -CAND_LIMIT <= translation.x <= CAND_LIMIT,
            -CAND_LIMIT <= translation.y <= CAND_LIMIT,
            0 <= scale.x <= GEOM_LIMIT,
            0 <= scale.y <= GEOM_LIMIT,
        ensures
            r.low.x == translation.x - scale.x as int / 2 - self.low.x,
            r.low.y == translation.y - scale.y as int / 2 - self.low.y,
            r.high.x == self.high.x - (translation.x + scale.x as int / 2),
            r.high.y == self.high.y - (translation.y + scale.y as int / 2),
    {
        let half_x = scale.x / 2;
        let half_y = scale.y / 2;
        BDelta {
            low: Vec2 { x: translation.x - half_x - self.low.x, y: translation.y - half_y - self.low.y },
            high: Vec2 { x: self.high.x - (translation.x + half_x), y: self.high.y - (translation.y + half_y) },
        }
    }
}

impl BDelta {
    /// Containment correction: per axis, the signed amount that moves the
    /// point back inside the region. Zero on an axis whose distances are
    /// both non-negative.
    pub fn clamp_in(&self) -> (r: Vec2)
        requires
            self.low.x + self.high.x >= 0,
            self.low.y + self.high.y >= 0,
        ensures
            r.x == clamp_in_axis(self.low.x as int, self.high.x as int),
            r.y == clamp_in_axis(self.low.y as int, self.high.y as int),
    {
        Vec2 {
            x: overshoot(self.low.x, self.high.x),
            y: overshoot(self.low.y, self.high.y),
        }
    }

    /// Exclusion correction: zero when the point is not strictly inside the
    /// region; otherwise the ejection along the axis of least penetration,
    /// breaking ties toward the horizontal axis.
    pub fn clamp_out(&self) -> (r: Vec2)
        ensures
            r.x == clamp_out_x(self.low.x as int, self.high.x as int, self.low.y as int, self.high.y as int),
            r.y == clamp_out_y(self.low.x as int, self.high.x as int, self.low.y as int, self.high.y as int),
    {
        let lx = self.low.x;
        let hx = self.high.x;
        let ly = self.low.y;
        let hy = self.high.y;
        if lx > 0 && hx > 0 && ly > 0 && hy > 0 {
            let x_pen: i64 = if lx <= hx { lx } else { hx };
            let y_pen: i64 = if ly <= hy { ly } else { hy };
            if x_pen <= y_pen {
                Vec2 { x: if lx <= hx { -lx } else { hx }, y: 0 }
            } else {
                Vec2 { x: 0, y: if ly <= hy { -ly } else { hy } }
            }
        } else {
            Vec2 { x: 0, y: 0 }
        }
    }
}

/// After a containment correction the point lies inside the region again,
/// and a non-zero correction lands it exactly on the edge it had crossed.
pub proof fn lemma_clamp_in_axis_contains(l: int, h: int)
    requires
        l + h >= 0,
    ensures
        l + clamp_in_axis(l, h) >= 0,
        h - clamp_in_axis(l, h) >= 0,
        clamp_in_axis(l, h) != 0 ==> l + clamp_in_axis(l, h) == 0 || h - clamp_in_axis(l, h) == 0,
        clamp_in_axis(l, h) == 0 <==> l >= 0 && h >= 0,
{
}

/// An exclusion correction never exceeds half the region's extent on its
/// axis, and the other component is always zero.
pub proof fn lemma_clamp_out_bound(lx: int, hx: int, ly: int, hy: int)
    ensures
        clamp_out_x(lx, hx, ly, hy) != 0 ==> 2 * clamp_out_x(lx, hx, ly, hy) <= lx + hx
            && -(lx + hx) <= 2 * clamp_out_x(lx, hx, ly, hy),
        clamp_out_y(lx, hx, ly, hy) != 0 ==> 2 * clamp_out_y(lx, hx, ly, hy) <= ly + hy
            && -(ly + hy) <= 2 * clamp_out_y(lx, hx, ly, hy),
        clamp_out_x(lx, hx, ly, hy) == 0 || clamp_out_y(lx, hx, ly, hy) == 0,
        !inside_exclusion(lx, hx, ly, hy) ==> clamp_out_x(lx, hx, ly, hy) == 0
            && clamp_out_y(lx, hx, ly, hy) == 0,
{
}

/// Obstacle exclusion ejects along the axis of least penetration: when the
/// point is strictly inside and the x axis penetrates no deeper than the y
/// axis, the correction is purely horizontal and puts the point exactly on
/// the nearer vertical edge. Symmetrically for a strictly shallower y axis.
pub proof fn lemma_clamp_out_least_penetration(lx: int, hx: int, ly: int, hy: int)
    requires
        inside_exclusion(lx, hx, ly, hy),
    ensures
        axis_penetration(lx, hx) <= axis_penetration(ly, hy) ==> {
            let cx = clamp_out_x(lx, hx, ly, hy);
            &&& clamp_out_y(lx, hx, ly, hy) == 0
            &&& cx != 0
            &&& lx + cx == 0 || hx - cx == 0
        },
        axis_penetration(ly, hy) < axis_penetration(lx, hx) ==> {
            let cy = clamp_out_y(lx, hx, ly, hy);
            &&& clamp_out_x(lx, hx, ly, hy) == 0
            &&& cy != 0
            &&& ly + cy == 0 || hy - cy == 0
        },
{
}

} // verus!
