//! Tick-driven core of a snake game played on a character grid.
//!
//! The grid is the only record of where the snake's body lies: each body
//! cell holds a glyph that encodes which two neighbours it connects, and the
//! tail is advanced by reading those glyphs rather than a list of segments.

pub mod arith;
pub mod glyph;
pub mod grid;
pub mod driver;
pub mod input;
pub mod random;
pub mod movement;
pub mod tail;
pub mod apple;

pub use arith::{add1, safe_add, sub1};
