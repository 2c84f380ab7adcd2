//! Flight dynamics of a winged craft, in fixed point.
//!
//! Control channels are kept in millionths of a unit and advanced by elapsed time in
//! microseconds; lengths, speeds, forces, tensor coefficients and rotation-matrix
//! entries are kept with `fixed::FIXED_ONE` per unit. The rigid-body world that
//! integrates the impulses computed here, and reports collisions back, lives outside
//! this crate.

pub mod axis;
pub mod controls;
pub mod fixed;
pub mod input;
pub mod vehicle;
pub mod wing;
pub mod world;
