//! Magnitude limits on the fixed-point quantities.
//!
//! The limits keep every intermediate value of the integrator comfortably
//! inside `i64`, so each operation can be proved free of overflow. They are
//! generous: with one unit split into a million subunits, a boundary
//! coordinate may still reach a million units.

use vstd::prelude::*;

verus! {

/// Largest magnitude of a boundary coordinate or a body extent.
pub const GEOM_LIMIT: i64 = 1_000_000_000_000;

/// Largest magnitude of a body translation. Wider than `GEOM_LIMIT` so that
/// a body pushed outside the play field by accumulated obstacle corrections
/// still has a representable, well-formed position.
pub const POS_LIMIT: i64 = 4_000_000_000_000_000;

/// Largest magnitude of a velocity component, in subunits per time unit.
pub const VEL_LIMIT: i64 = 1_000_000_000_000;

/// Largest time step accepted by one `update` call, in time units.
pub const DT_LIMIT: i64 = 1_000_000;

/// Largest magnitude a candidate position can reach in one step.
pub const CAND_LIMIT: i64 = POS_LIMIT + VEL_LIMIT * DT_LIMIT;

/// Largest magnitude of a corner of any region the integrator works with:
/// a play field, a body's own region, or a body's region inflated by
/// another body's half-extents.
pub const REGION_LIMIT: i64 = POS_LIMIT + 2 * GEOM_LIMIT;

/// Most obstacle bodies accepted by one `update` call.
pub const MAX_OBSTACLES: usize = 1024;

} // verus!
