//! Control-loop logic of two small demo scenes: a kinematic player
//! controller with a camera that follows, and a bloom parameter editor
//! driven by held keys.
//!
//! Spatial quantities and tunable parameters are fixed-point values in
//! micro-units (one unit is 1_000_000), so the per-tick arithmetic and its
//! clamping rules can be stated and proved exactly.

pub mod bloom;
pub mod control;
pub mod display;
pub mod fixed;
