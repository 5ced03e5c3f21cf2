//! Plain values the bar shows.

pub mod track;
pub mod workspace;
