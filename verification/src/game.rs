//! Small closed sets of the game: sides, phases, explosives, sounds.

use vstd::prelude::*;

verus! {

/// One of the two opposing sides.
#[derive(Clone, Copy, Debug, PartialEq, Eq, Structural)]
pub enum Side {
    A,
    B,
}

/// Stage of a battle. Squads are placed by drag only during `Placement`.
#[derive(Clone, Copy, Debug, PartialEq, Eq, Structural)]
pub enum Phase {
    Placement,
    Battle,
    End,
}

/// Kind of explosive, which decides the radii of a blast.
#[derive(Clone, Copy, Debug, PartialEq, Eq, Structural)]
pub enum ExplosiveType {
    Grenade,
    MortarShell,
    ArtilleryShell,
}

/// Sounds that the simulator asks observers to play.
#[derive(Clone, Copy, Debug, PartialEq, Eq, Structural)]
pub enum Sound {
    MaleScreaming1,
    MaleScreaming2,
    MaleScreaming3,
    MaleScreaming4,
    MaleScreaming5,
    MaleDie1,
    MaleDie2,
    MaleDie3,
    MaleDie4,
    MaleDie5,
    MaleDie6,
    MaleDie7,
    MaleDie8,
    MetalHit1,
    Bip1,
}

impl Side {
    pub open spec fn spec_opposite(&self) -> Side {
        match self {
            Side::A => Side::B,
            Side::B => Side::A,
        }
    }

    /// The other side.
    #[verifier::when_used_as_spec(spec_opposite)]
    pub fn opposite(&self) -> (other: Side)
        ensures
            other == self.spec_opposite(),
    {
        match self {
            Side::A => Side::B,
            Side::B => Side::A,
        }
    }
}

impl Phase {
    pub open spec fn spec_placement(&self) -> bool {
        *self == Phase::Placement
    }

    /// Whether squads are still being placed.
    #[verifier::when_used_as_spec(spec_placement)]
    pub fn placement(&self) -> (placing: bool)
        ensures
            placing == self.spec_placement(),
    {
        match self {
            Phase::Placement => true,
            _ => false,
        }
    }
}

} // verus!
