//! Verified core of a desktop status bar: the active media session tracker,
//! the data it reports, and the style text the bar's widgets are given.

pub mod components;
pub mod data;
pub mod mpris;
pub mod styling;
pub mod text;
pub mod utils;
