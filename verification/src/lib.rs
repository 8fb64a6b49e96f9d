//! Verified core of a first-person movement and weapon-animation pipeline.
//!
//! Each tick, plain input values (directional intent, grounding, key and
//! mouse state, elapsed time) flow through a kinematic character controller,
//! a breathing cycle, a randomized weapon sway, an aim-down-sights blender
//! and a camera-lean state machine; their contributions are flattened by a
//! translation pipeline into one weapon offset. All quantities are
//! fixed-point integers scaled by [`fp::FP_ONE`]; the engine layers around
//! the library convert at the boundary.

pub mod fp;
pub mod vec3;
pub mod ease;
pub mod pipeline;
pub mod aim;
pub mod breath;
pub mod sway;
pub mod movement;
pub mod lean;
pub mod look;
