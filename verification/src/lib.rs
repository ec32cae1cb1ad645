//! The simulation core of a grid snake game: a snake that moves one cell per
//! tick, grows when its head meets the food, and turns on validated input.
//!
//! Every type comes with a mathematical model (its view), and every operation
//! is specified as a function on those models.

pub mod direction;
pub mod food;
pub mod game;
pub mod grid;
pub mod layout;
pub mod score;
pub mod snake;
