//! Simulation core of a scrolling top-down racing game.
//!
//! Coordinates and velocities are fixed-point integers: one world unit is
//! [`engine::UNIT`] steps, so every speed and distance of the game is exact.
pub mod engine;
pub mod game;
