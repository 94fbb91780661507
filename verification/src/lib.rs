//! Conway's Game of Life on a bounded rectangular grid.
//!
//! The crate holds the simulation core: the cell grid, the rule that takes one
//! generation to the next, and the session that an interactive front end
//! drives with edits and ticks.
//!
//! - `evolution`: the rule, on a row-major sequence of cells.
//! - `grid`: the grid store, with lookup, edits and resizing.
//! - `source`: the seeded random source that fills a grid.
//! - `session`: grid, playback flag, brush and source behind one set of
//!   commands, each of which says what it does to the session as a whole.
//! - `patterns`: what the rule makes of a block and of a blinker.

pub mod evolution;
pub mod source;
pub mod grid;
pub mod session;
pub mod patterns;
