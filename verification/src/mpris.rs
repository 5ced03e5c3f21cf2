//! Media players on the session bus: which peers are players, and which of
//! them is the one to show.

pub mod directory;
pub mod selection;
