//! What explosions and bullets do to soldiers and vehicles.

pub mod explosion;
pub mod fire;
