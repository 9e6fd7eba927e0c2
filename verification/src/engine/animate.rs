//! The drift of a soldier that nothing else moves.

use vstd::prelude::*;
use crate::engine::Engine;
use crate::map::clamp_i32;
use crate::state::message::{BattleStateMessage, BattleStateMessageView, SoldierMessage, SoldierMessageView};
use crate::types::{SoldierIndex, WorldPoint};

verus! {

/// How far a soldier drifts along each axis at a time: one metre.
pub const DRIFT_STEP: i32 = 1000;

/// The point one step further along both axes, within what a coordinate can
/// hold.
pub open spec fn drifted(point: WorldPoint) -> WorldPoint {
    WorldPoint { x: clamp_i32(point.x + DRIFT_STEP), y: clamp_i32(point.y + DRIFT_STEP) }
}

impl Engine {
    /// The one change by which the soldier drifts a step along both axes
    /// from where it stands.
    pub fn animate_entity(&self, i: SoldierIndex) -> (messages: Vec<BattleStateMessage>)
        requires
            i.0 < self.battle_state@.soldiers.len(),
        ensures
            messages@.len() == 1,
            messages@[0]@ == BattleStateMessageView::Soldier(
                i,
                SoldierMessageView::SetWorldPosition(
                    drifted(self.battle_state@.soldiers[i.0 as int].world_point),
                ),
            ),
    {
        let current = self.battle_state.soldier(i).world_point();
        let x: i32 = if current.x > i32::MAX - DRIFT_STEP {
            i32::MAX
        } else {
            current.x + DRIFT_STEP
        };
        let y: i32 = if current.y > i32::MAX - DRIFT_STEP {
            i32::MAX
        } else {
            current.y + DRIFT_STEP
        };
        let mut messages: Vec<BattleStateMessage> = Vec::new();
        messages.push(
            BattleStateMessage::Soldier(i, SoldierMessage::SetWorldPosition(WorldPoint { x, y })),
        );
        messages
    }
}

} // verus!
