//! Core of a terminal rain visualizer: a field of falling glyph particles,
//! a grayscale color ramp for the glyph list, and the per-frame update that
//! turns the field into a list of cells to draw.

pub mod color;
pub mod field;
pub mod render;
pub mod sampler;
