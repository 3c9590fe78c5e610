//! A message that chases the border of the terminal: the perimeter walk, the
//! cyclic glyph source, and the decisions of the animation engine and of the
//! input controller that drive them.
pub mod perimeter;
pub mod glyphs;
pub mod engine;
pub mod input;
