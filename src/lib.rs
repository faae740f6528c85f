//! Conway's Game of Life on a fixed-size toroidal grid.
//!
//! The grid advances one generation at a time under the classic
//! survival/birth rules and can be rendered as text.
pub mod cell;
pub mod laws;
pub mod universe;

pub use cell::{LifeCell, ALIVE_GLYPH, DEAD_GLYPH};
pub use universe::{GridModel, Universe, DEFAULT_HEIGHT, DEFAULT_WIDTH};
