//! Style text for the bar's widgets.

pub mod border;
pub mod font;
pub mod style;
pub mod stylesheet;
pub mod thickness;
