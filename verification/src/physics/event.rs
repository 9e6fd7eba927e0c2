//! Events that last a span of frames: explosions and projectiles.

use vstd::prelude::*;
use crate::game::{ExplosiveType, Side};
use crate::types::WorldPoint;

verus! {

/// A blast at a point, in effect from its first frame to its last.
#[derive(Clone, Copy, Debug, PartialEq, Eq, Structural)]
pub struct Explosion {
    pub point: WorldPoint,
    pub type_: ExplosiveType,
    pub start: u64,
    pub end: u64,
}

/// A shot in flight between two points.
#[derive(Clone, Copy, Debug, PartialEq, Eq, Structural)]
pub struct Projectile {
    pub from: WorldPoint,
    pub to: WorldPoint,
    pub side: Side,
    pub start: u64,
    pub end: u64,
}

impl Explosion {
    pub fn new(point: WorldPoint, type_: ExplosiveType, start: u64, end: u64) -> (e: Explosion)
        ensures
            e == (Explosion { point, type_, start, end }),
    {
        Explosion { point, type_, start, end }
    }

    /// An explosion acts on every frame from its first to its last.
    pub open spec fn spec_effective(&self, frame_i: u64) -> bool {
        self.start <= frame_i <= self.end
    }

    #[verifier::when_used_as_spec(spec_effective)]
    pub fn effective(&self, frame_i: u64) -> (acts: bool)
        ensures
            acts == self.spec_effective(frame_i),
    {
        self.start <= frame_i && frame_i <= self.end
    }

    /// An explosion is over once its last frame has passed.
    pub open spec fn spec_finished(&self, frame_i: u64) -> bool {
        frame_i > self.end
    }

    #[verifier::when_used_as_spec(spec_finished)]
    pub fn finished(&self, frame_i: u64) -> (over: bool)
        ensures
            over == self.spec_finished(frame_i),
    {
        frame_i > self.end
    }

    pub fn point(&self) -> (p: &WorldPoint)
        ensures
            *p == self.point,
    {
        &self.point
    }

    pub fn type_(&self) -> (kind: &ExplosiveType)
        ensures
            *kind == self.type_,
    {
        &self.type_
    }

    pub fn start(&self) -> (frame: u64)
        ensures
            frame == self.start,
    {
        self.start
    }

    pub fn end(&self) -> (frame: u64)
        ensures
            frame == self.end,
    {
        self.end
    }
}

impl Projectile {
    /// A projectile is shown from its first frame up to, but not including,
    /// its last.
    pub open spec fn spec_displayed(&self, frame_i: u64) -> bool {
        self.start <= frame_i < self.end
    }

    #[verifier::when_used_as_spec(spec_displayed)]
    pub fn displayed(&self, frame_i: u64) -> (shown: bool)
        ensures
            shown == self.spec_displayed(frame_i),
    {
        self.start <= frame_i && frame_i < self.end
    }

    /// A projectile is kept as long as its last frame has not passed.
    pub open spec fn spec_finished(&self, frame_i: u64) -> bool {
        frame_i > self.end
    }

    #[verifier::when_used_as_spec(spec_finished)]
    pub fn finished(&self, frame_i: u64) -> (over: bool)
        ensures
            over == self.spec_finished(frame_i),
    {
        frame_i > self.end
    }
}

} // verus!
