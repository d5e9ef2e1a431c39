//! A 2D axis-aligned bounding-box collision engine for a single controllable
//! actor: kinematic integration, overlap tests, shallowest-axis penetration
//! resolution, per-axis contact normals, a grounded/airborne control gate,
//! and a small animation/facing mapper.
//!
//! All coordinates are integers, bounded by [`geometry::COORD_BOUND`], so
//! every arithmetic step is proved free of overflow.

pub mod animation;
pub mod body;
pub mod control;
pub mod geometry;
pub mod resolver;
pub mod tick;
