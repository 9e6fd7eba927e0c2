//! What stands on the battlefield: soldiers, their squads, vehicles.

pub mod soldier;
pub mod squad;
pub mod vehicle;
