//! Core logic of a grid-based snake game: positions on a toroidal grid,
//! the snake's movement and collision state machine, and the fruit it chases.
//! Rendering and input handling live outside this crate.

pub mod grid;
pub mod fruit;
pub mod snake;
pub mod game;
mod rng;
