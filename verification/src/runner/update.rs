//! What a tick does to a soldier besides choosing its behavior: it turns,
//! moves along its route and feels less under fire.

use vstd::prelude::*;
use crate::angle::direction;
use crate::config::ServerConfig;
use crate::entity::soldier::{Soldier, SoldierView};
use crate::order::path::paths_next_point;
use crate::runner::message::{extend, views, RunnerMessage, RunnerMessageView};
use crate::runner::movement::movement_message;
use crate::runner::Runner;
use crate::state::message::{
    BattleStateMessage, BattleStateMessageView, SoldierMessage, SoldierMessageView,
};
use crate::types::{Angle, SoldierIndex};

verus! {

/// The direction that a soldier's behavior has it face: the angle that the
/// behavior fixes, else the direction of the point that it looks at.
pub open spec fn facing(s: SoldierView) -> Option<Angle> {
    match s.behavior.fixed_angle() {
        Some(angle) => Some(angle),
        None => match s.behavior.looks_at() {
            Some(point) => Some(Angle(direction(s.world_point, point) as i32)),
            None => None,
        },
    }
}

/// The message that turns a soldier as its behavior asks; none for a soldier
/// who cannot act or whose behavior leaves the direction open.
pub open spec fn orientation_messages(s: SoldierView) -> Seq<RunnerMessageView> {
    match facing(s) {
        Some(angle) => if s.able() {
            seq![
                RunnerMessageView::BattleState(
                    BattleStateMessageView::Soldier(s.uuid, SoldierMessageView::SetOrientation(angle)),
                ),
            ]
        } else {
            Seq::empty()
        },
        None => Seq::empty(),
    }
}

/// The message of a soldier's move: none for a soldier who cannot act or
/// whose behavior has no route and speed.
pub open spec fn movement_messages(config: ServerConfig, s: SoldierView) -> Seq<RunnerMessageView> {
    if s.able() && s.behavior.paths() is Some && paths_next_point(s.behavior.paths().unwrap())
        is Some && config.spec_behavior_velocity(s.behavior) is Some {
        seq![
            movement_message(
                s.world_point,
                paths_next_point(s.behavior.paths().unwrap()).unwrap(),
                config.spec_behavior_velocity(s.behavior).unwrap(),
                s.uuid,
            ),
        ]
    } else {
        Seq::empty()
    }
}

/// The message by which a soldier who feels under fire feels less so.
pub open spec fn decay_messages(s: SoldierView) -> Seq<RunnerMessageView> {
    if s.under_fire.spec_exist() {
        seq![
            RunnerMessageView::BattleState(
                BattleStateMessageView::Soldier(s.uuid, SoldierMessageView::DecreaseUnderFire),
            ),
        ]
    } else {
        Seq::empty()
    }
}

/// The messages of a soldier's update: it turns, it moves, it calms down.
pub open spec fn update_messages(config: ServerConfig, s: SoldierView) -> Seq<RunnerMessageView> {
    orientation_messages(s) + movement_messages(config, s) + decay_messages(s)
}

/// The direction that a soldier's behavior has it face.
pub fn facing_of(soldier: &Soldier) -> (angle: Option<Angle>)
    ensures
        angle == facing(soldier@),
{
    match soldier.behavior().fixed_angle() {
        Some(angle) => Some(angle),
        None => match soldier.behavior().looks_at() {
            Some(point) => Some(Angle::from_points(&point, &soldier.world_point())),
            None => None,
        },
    }
}

impl Runner {
    /// The messages of a soldier's update.
    pub fn soldier_update(&self, soldier_index: SoldierIndex) -> (messages: Vec<RunnerMessage>)
        requires
            self.wf(),
            soldier_index.0 < self.battle_state@.soldiers.len(),
        ensures
            views(messages@) == update_messages(
                self.config,
                self.battle_state@.soldiers[soldier_index.0 as int],
            ),
    {
        let soldier = self.battle_state.soldier(soldier_index);
        let ghost s = soldier@;
        assert(s.uuid == soldier_index);
        let mut messages: Vec<RunnerMessage> = Vec::new();
        assert(views(messages@) =~= Seq::empty());
        if soldier.able() {
            if let Some(angle) = facing_of(soldier) {
                messages.push(
                    RunnerMessage::BattleState(
                        BattleStateMessage::Soldier(
                            soldier_index,
                            SoldierMessage::SetOrientation(angle),
                        ),
                    ),
                );
            }
        }
        assert(views(messages@) =~= orientation_messages(s));
        if soldier.able() {
            if let Some(paths) = soldier.behavior().paths() {
                if paths.next_point().is_some() && self.config.behavior_velocity(
                    soldier.behavior(),
                ).is_some() {
                    extend(&mut messages, self.movement_updates(soldier_index, paths));
                }
            }
        }
        assert(views(messages@) =~= orientation_messages(s) + movement_messages(self.config, s));
        if soldier.under_fire().exist() {
            messages.push(
                RunnerMessage::BattleState(
                    BattleStateMessage::Soldier(soldier_index, SoldierMessage::DecreaseUnderFire),
                ),
            );
        }
        assert(views(messages@) =~= update_messages(self.config, s));
        messages
    }
}

} // verus!
