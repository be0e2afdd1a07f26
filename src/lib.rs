//! A sandbox for a two-threshold generalisation of Conway's Game of Life:
//! the cell grid and its evolution rule, and the key-driven session that
//! edits and runs it.
pub mod display;
pub mod grid;
pub mod metrics;
pub mod playback;
pub mod session;
