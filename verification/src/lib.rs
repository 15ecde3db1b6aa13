//! A snake game on a fixed wrap-around grid.
//!
//! The crate holds the game's transition rules: how the snake's head moves and
//! wraps, when a tick is blocked, when the snake respawns, and how it grows
//! on food. Every function carries a contract over a mathematical snapshot
//! of the game, and the rules' general properties are proved in `laws`.

pub mod point;
pub mod rules;
pub mod food;
pub mod game;
pub mod laws;
pub mod render;
pub mod driver;
