//! Physical events and the engines that work on the map.

pub mod event;
pub mod path;
pub mod route;
pub mod visibility;
