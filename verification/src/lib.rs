//! Simulation core of a tick-driven tactical infantry battle.
//!
//! All quantities are integers: world coordinates and distances are
//! millimetres, angles are thousandths of a degree, opacities and
//! probabilities are parts per million.

pub mod math;
pub mod types;
pub mod text;
pub mod map;
pub mod order;
pub mod behavior;
pub mod game;
pub mod config;
pub mod entity;
pub mod physics;
pub mod state;
pub mod runner;
pub mod angle;
pub mod sync;
pub mod message;
pub mod engine;
pub mod ui;
pub mod hardcode;
