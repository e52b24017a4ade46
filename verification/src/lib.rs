//! A turn generator for a shared pixel grid.
//!
//! A [`player::Player`] remembers the dimensions of the grid and a counter.
//! Each turn maps the counter to one cell of the grid, row by row, and then
//! advances the counter by one.

pub mod state;
pub mod player;
pub mod laws;
