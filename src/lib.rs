//! A vertical gauge widget for character-cell displays: a fill ratio is turned
//! into full, fractional and blank block glyphs inside a rectangle, with a
//! centred label cut out of the filled region.

pub mod geometry;
pub mod style;
pub mod text;
pub mod buffer;
pub mod gauge;
pub mod water;
pub mod laws;
