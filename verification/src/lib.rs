//! Force generation for a floating character controller, in deterministic
//! fixed-point arithmetic.
//!
//! Each simulation tick the controller turns the player's intent and the
//! body's physical state into one impulse and one torque impulse for a
//! rigid-body engine. All quantities are integers: lengths, speeds, forces and
//! angles count millionths of a unit, times count microseconds.

pub mod components;
pub mod curve;
pub mod fixed;
pub mod forces;
pub mod ground;
pub mod jump;
pub mod systems;
pub mod timer;
pub mod vector;
