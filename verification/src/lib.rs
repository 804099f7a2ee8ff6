//! Rectangles with whole-number sides: their area, and their textual
//! renderings for diagnostics.

pub mod decimal;
pub mod rect;
pub mod render;
