//! Conway's Game of Life on a fixed, dense, square grid.
//!
//! [`rules`] states the automaton mathematically: what a generation is, how
//! neighbours are counted and which cells live in the next generation.
//! [`grid`] holds the double-buffered grid that computes it, [`screen`] maps
//! between cells and physical pixels, and [`pacing`] decides when a running
//! simulation advances. [`patterns`] proves the behaviour of two classic
//! shapes.

pub mod rules;
pub mod grid;
pub mod patterns;
pub mod screen;
pub mod pacing;
