//! Conway's Game of Life on a torus: cells, grids and the step from one
//! generation to the next, with every function proved against its contract.
//!
//! - [`cell`]: a cell, the standard rule and the symbol that shows a cell.
//! - [`torus`]: the model of a generation and of the neighbourhood of a cell.
//! - [`rule`]: what it means for a generation to follow from another under a
//!   rule, and what is true of every such step.
//! - [`grid`]: the grid itself: how it is made, read, advanced and rendered.
//! - [`text`]: the text that a generation is rendered as.
//! - [`terminal`]: the text that waits to be shown on the screen.

pub mod cell;
pub mod grid;
mod parallel;
pub mod rule;
mod source;
pub mod terminal;
pub mod text;
pub mod torus;

pub use cell::Cell;
pub use grid::{Grid, ShapeError};
pub use terminal::Terminal;
