//! Simulation core of a top-down arcade duel: a player ship and a wandering,
//! armed enemy exchange rockets until one side runs out of health.
//!
//! Everything here works on whole pixels and whole health points. Drawing,
//! key polling, the clock and trigonometry are the caller's business; the
//! crate takes their results as plain values and decides what happens next.

pub mod background;
mod chance;
pub mod combat;
pub mod config;
pub mod enemy;
pub mod game;
pub mod geometry;
pub mod rocket;
pub mod ship;
