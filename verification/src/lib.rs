//! Measures the geometric roughness ("wonkiness") of typeface glyph
//! outlines and checks whether an overlap-removal pass makes an outline
//! measurably rougher than it was.

pub mod backend;
pub mod dbl;
pub mod ext;
pub mod path;
pub mod pipeline;
pub mod segment;
pub mod wonkiness;
