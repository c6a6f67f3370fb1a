//! A snake game on a bounded grid: geometry, the game state and its tick
//! rule, the frame that shows it, and the decisions of the event loop.
pub mod control;
pub mod game;
pub mod geometry;
pub mod render;
