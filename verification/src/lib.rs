pub mod board;
pub mod coord;
pub mod glyph;
pub mod rules;
