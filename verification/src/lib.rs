//! Simulation core of a continuously-moving snake game.
//!
//! The crate owns the per-tick rules of the game: translating directional
//! intents into a clamped head displacement, follow-the-leader tracking of the
//! body chain, box-overlap detection between the head and food items, growth
//! scheduling, timed random food spawning, and full-state reset. Rendering,
//! input polling and file access are left to the host program.

pub mod body;
pub mod collision;
pub mod config;
pub mod food;
pub mod geometry;
pub mod movement;
pub mod parse;
pub mod rng;
pub mod round;
pub mod score;
pub mod spawner;
