//! The parts of the bar that have a state of their own.

pub mod current_track;
pub mod session;
