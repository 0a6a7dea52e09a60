//! Conway's Game of Life on a toroidal grid, with a half-block terminal
//! renderer and the mode machine (running / help / editing) that drives an
//! interactive session.
//!
//! The grid, the generation rule, the renderer and the mode transitions are
//! verified; a thin unverified shell does the terminal I/O.

pub mod board;
pub mod help;
pub mod laws;
pub mod machine;
pub mod views;
