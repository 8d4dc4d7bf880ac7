//! Conway's Game of Life on a fixed-size grid with hard, non-wrapping edges.
//!
//! The grid is stored row-major; every operation is stated against the
//! mathematical model in [`universe::GridModel`].

pub mod cell;
pub mod laws;
pub mod universe;

pub use cell::{something, Cell};
pub use universe::Universe;
