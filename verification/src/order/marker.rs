//! Icons that show a squad's order on the battle scene.

use vstd::prelude::*;

verus! {

/// Icon attached to an order, which an observer can drag to change the order.
#[derive(Clone, Copy, Debug, PartialEq, Eq, Structural)]
pub enum OrderMarker {
    MoveTo,
    MoveFastTo,
    SneakTo,
    Defend,
    Hide,
    EngageSquad,
    SuppressFire,
}

impl OrderMarker {
    /// Where the icon is drawn from the point that it marks, in pixels.
    pub open spec fn spec_offset(&self) -> crate::types::Offset {
        match self {
            OrderMarker::MoveTo | OrderMarker::MoveFastTo | OrderMarker::SneakTo => {
                crate::types::Offset { x: -5i32, y: -20i32 }
            },
            OrderMarker::Defend | OrderMarker::Hide => crate::types::Offset { x: -12i32, y: -12i32 },
            OrderMarker::EngageSquad | OrderMarker::SuppressFire => {
                crate::types::Offset { x: -10i32, y: -10i32 }
            },
        }
    }

    #[verifier::when_used_as_spec(spec_offset)]
    pub fn offset(&self) -> (o: crate::types::Offset)
        ensures
            o == self.spec_offset(),
    {
        match self {
            OrderMarker::MoveTo | OrderMarker::MoveFastTo | OrderMarker::SneakTo => {
                crate::types::Offset { x: -5i32, y: -20i32 }
            },
            OrderMarker::Defend | OrderMarker::Hide => crate::types::Offset { x: -12i32, y: -12i32 },
            OrderMarker::EngageSquad | OrderMarker::SuppressFire => {
                crate::types::Offset { x: -10i32, y: -10i32 }
            },
        }
    }

    /// Half of the icon's side, in millimetres of world: a cursor within that
    /// reach of the marker's point, on both axes, is on the marker.
    pub open spec fn spec_reach(&self) -> u32 {
        match self {
            OrderMarker::MoveTo | OrderMarker::MoveFastTo | OrderMarker::SneakTo => 1500,
            OrderMarker::Defend | OrderMarker::Hide => 2500,
            OrderMarker::EngageSquad | OrderMarker::SuppressFire => 2000,
        }
    }

    #[verifier::when_used_as_spec(spec_reach)]
    pub fn reach(&self) -> (r: u32)
        ensures
            r == self.spec_reach(),
    {
        match self {
            OrderMarker::MoveTo | OrderMarker::MoveFastTo | OrderMarker::SneakTo => 1500,
            OrderMarker::Defend | OrderMarker::Hide => 2500,
            OrderMarker::EngageSquad | OrderMarker::SuppressFire => 2000,
        }
    }
}

} // verus!
