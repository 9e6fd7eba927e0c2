//! The battle state and the messages that change it.

pub mod battle;
pub mod decay;
pub mod invariants;
pub mod markers;
pub mod message;
pub mod reorder;
pub mod succession;
pub mod validate;
