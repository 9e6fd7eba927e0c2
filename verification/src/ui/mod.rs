//! What the observer's window lays over the scene.

pub mod hud;
pub mod menu;
