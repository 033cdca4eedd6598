//! Conway's Game of Life on a toroidal grid, with verified indexing,
//! neighbour counting and generation transition.

pub mod board;
pub mod cell;
pub mod laws;
pub mod sum;
pub mod universe;

pub use board::Board;
pub use cell::Cell;
pub use universe::{Universe, HEIGHT, WIDTH};
