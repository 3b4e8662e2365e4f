//! A 2D rigid-body motion core for a paddle-and-ball game: a discrete-time
//! integrator with axis-aligned boundary collision resolution.
//!
//! All quantities are fixed-point integers in caller-chosen subunits: the
//! caller picks a scale (say, one unit = 1000 subunits) and a tick length,
//! and supplies positions, extents and velocities in those subunits, with
//! velocities measured in subunits per time unit. Arithmetic is then exact,
//! so collision decisions carry no rounding noise.

pub mod bounds;
pub mod collider;
pub mod geometry;
pub mod limits;
pub mod paddle;
pub mod transform;
pub mod vec2;
