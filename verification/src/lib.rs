//! Position estimation for a motorised window shade that reports nothing back.
//!
//! The shade is driven by three momentary outputs (raise, lower, stop). Its
//! position is inferred from how long it has been running: the estimator keeps
//! a closed interval `[min_pos, max_pos]` on the scale `0..=65535` that is
//! certain to hold the true position, and shifts it with the time that has
//! passed under each movement.

pub mod clock;
pub mod travel;
pub mod estimator;
pub mod laws;
pub mod snapshot;
pub mod command;

pub use crate::estimator::{Estimate, MovementState, ShadeState};
pub use crate::travel::{FULL_SCALE, PRESS_TIME, TIME_TO_BOTTOM, TIME_TO_TOP};
pub use crate::command::{next_turn, parse_command, Command, Output, Turn};
