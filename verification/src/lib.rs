//! A tile-painting board: a fixed grid of rectangular cells with a legend
//! strip below it, the input rules that repaint cells, and the list of draws
//! that shows them.

pub mod frame;
pub mod game;
pub mod geometry;
pub mod grid;
pub mod input;
pub mod layout;
pub mod tile;
