//! The spatial state of a body: where its center is and how large it is.

use vstd::prelude::*;
use crate::limits::{GEOM_LIMIT, POS_LIMIT};
use crate::vec2::Vec2;

verus! {

/// Position and size of a body. `translation` is the center of mass;
/// `scale` holds the full width and height (not half-extents).
#[derive(Clone, Copy, Debug, PartialEq, Eq)]
pub struct Transform {
    pub translation: Vec2,
    pub scale: Vec2,
}

impl Transform {
    /// A transform the integrator can work with: extents are non-negative
    /// and everything is within the magnitude limits.
    pub open spec fn wf(self) -> bool {
        &&& -POS_LIMIT <= self.translation.x <= POS_LIMIT
        &&& -POS_LIMIT <= self.translation.y <= POS_LIMIT
        &&& 0 <= self.scale.x <= GEOM_LIMIT
        &&& 0 <= self.scale.y <= GEOM_LIMIT
    }

    pub fn new(translation: Vec2, scale: Vec2) -> (r: Transform)
        ensures
            r.translation == translation,
            r.scale == scale,
    {
        Transform { translation, scale }
    }
}

} // verus!
