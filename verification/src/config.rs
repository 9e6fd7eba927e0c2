//! Immutable settings of the simulator and of an observer.

use vstd::prelude::*;
use crate::behavior::BehaviorView;
use crate::behavior::Behavior;
use crate::game::ExplosiveType;
use crate::types::Distance;

verus! {

/// Length of a simulator cycle, in microseconds.
pub const TARGET_CYCLE_DURATION_US: u64 = 16666;

/// What a soldier's under-fire intensity loses at each tick.
pub const UNDER_FIRE_TICK: u32 = 1;

/// Intensity from which a soldier takes being under fire as a warning.
pub const UNDER_FIRE_WARNING: u32 = 100;

/// Intensity from which a soldier is in danger.
pub const UNDER_FIRE_DANGER: u32 = 150;

/// Largest under-fire intensity.
pub const UNDER_FIRE_MAX: u32 = 200;

/// Intensity that a blast nearby adds.
pub const UNDER_FIRE_BLAST: u32 = 150;

/// Reach, in metres, within which a soldier feels an explosion.
pub const EXPLOSION_FELT_METERS: u64 = 100;

/// A roll of chance is an integer from 0 up to, but not including, this.
pub const ROLL_SCALE: u32 = 1000000;

/// The three radii of a blast.
#[derive(Clone, Copy, Debug, PartialEq, Eq, Structural)]
pub struct ExplosiveProfile {
    /// Within this radius a soldier dies.
    pub direct_death: Distance,
    /// Up to this radius a soldier may die, the less likely the farther.
    pub regressive_death: Distance,
    /// Up to this radius a soldier may be stunned, the less likely the farther.
    pub regressive_injured: Distance,
}

/// How sight is sampled along a line.
#[derive(Clone, Copy, Debug, PartialEq, Eq, Structural)]
pub struct VisibilityConfig {
    /// Distance between two samples, in millimetres.
    pub step: u32,
    /// Opacity, in parts per million, from which the target is hidden.
    pub threshold: u32,
    /// Share of a sample's opacity, in parts per million, that counts.
    pub decay: u32,
}

/// How soldiers fire.
#[derive(Clone, Copy, Debug, PartialEq, Eq, Structural)]
pub struct FireConfig {
    /// A soldier fires at every frame that this divides; 0 stops all fire.
    pub interval: u64,
    /// Frames that a bullet stays in flight.
    pub bullet_frames: u64,
    /// Chance of a hit on a clear line, in parts per million.
    pub hit_chance: u32,
    /// Chance that a hit kills, in parts per million; a hit that does not
    /// kill stuns.
    pub kill_chance: u32,
    /// Intensity that being fired at adds.
    pub under_fire: u32,
    /// Reach around a point under suppressing fire, in millimetres.
    pub suppress_radius: u32,
}

/// Settings of the simulator.
#[derive(Clone, Copy, Debug, PartialEq, Eq, Structural)]
pub struct ServerConfig {
    /// Millimetres per tick of a walking soldier.
    pub move_velocity: u32,
    /// Millimetres per tick of a running soldier.
    pub move_fast_velocity: u32,
    /// Millimetres per tick of a sneaking soldier.
    pub move_hide_velocity: u32,
    /// Millimetres per tick of a driven vehicle.
    pub drive_velocity: u32,
    /// Millimetres between two neighbours of a squad in formation.
    pub formation_spacing: u32,
    pub grenade: Option<ExplosiveProfile>,
    pub mortar_shell: Option<ExplosiveProfile>,
    pub artillery_shell: Option<ExplosiveProfile>,
    pub visibility: VisibilityConfig,
    pub fire: FireConfig,
}

impl ServerConfig {
    /// Speed that goes with a behavior; none for behaviors that do not move.
    pub open spec fn spec_behavior_velocity(&self, behavior: BehaviorView) -> Option<u32> {
        match behavior {
            BehaviorView::MoveTo(_) => Some(self.move_velocity),
            BehaviorView::MoveFastTo(_) => Some(self.move_fast_velocity),
            BehaviorView::SneakTo(_) => Some(self.move_hide_velocity),
            BehaviorView::DriveTo(_) => Some(self.drive_velocity),
            _ => None,
        }
    }

    /// Radii of a kind of explosive, where the settings hold them.
    pub open spec fn spec_explosive(&self, kind: ExplosiveType) -> Option<ExplosiveProfile> {
        match kind {
            ExplosiveType::Grenade => self.grenade,
            ExplosiveType::MortarShell => self.mortar_shell,
            ExplosiveType::ArtilleryShell => self.artillery_shell,
        }
    }

    /// Speed that goes with a behavior; none for behaviors that do not move.
    pub fn behavior_velocity(&self, behavior: &Behavior) -> (velocity: Option<u32>)
        ensures
            velocity == self.spec_behavior_velocity(behavior@),
    {
        match behavior {
            Behavior::MoveTo(_) => Some(self.move_velocity),
            Behavior::MoveFastTo(_) => Some(self.move_fast_velocity),
            Behavior::SneakTo(_) => Some(self.move_hide_velocity),
            Behavior::DriveTo(_) => Some(self.drive_velocity),
            _ => None,
        }
    }

    /// Radii of a kind of explosive, where the settings hold them.
    #[verifier::when_used_as_spec(spec_explosive)]
    pub fn explosive(&self, kind: ExplosiveType) -> (profile: Option<ExplosiveProfile>)
        ensures
            profile == self.spec_explosive(kind),
    {
        match kind {
            ExplosiveType::Grenade => self.grenade,
            ExplosiveType::MortarShell => self.mortar_shell,
            ExplosiveType::ArtilleryShell => self.artillery_shell,
        }
    }
}

} // verus!
