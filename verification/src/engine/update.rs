//! What the observer foresees of a soldier's tick on its replica.

use vstd::prelude::*;
use crate::engine::Engine;
use crate::order::path::{paths_next_point, WorldPaths};
use crate::runner::message::RunnerMessageView;
use crate::runner::movement::{movement_message, reached_of, step_toward_of};
use crate::runner::update::{facing_of, movement_messages, orientation_messages};
use crate::state::message::{BattleStateMessage, BattleStateMessageView, SoldierMessage};
use crate::types::SoldierIndex;

verus! {

/// The changes to the battle as messages of a tick.
pub open spec fn as_runner_messages(messages: Seq<BattleStateMessage>) -> Seq<RunnerMessageView> {
    messages.map_values(|m: BattleStateMessage| RunnerMessageView::BattleState(m@))
}

/// Appends the changes of `more` to `messages`.
fn extend_changes(messages: &mut Vec<BattleStateMessage>, more: Vec<BattleStateMessage>)
    ensures
        as_runner_messages(final(messages)@) == as_runner_messages(old(messages)@)
            + as_runner_messages(more@),
{
    let mut more = more;
    let ghost added = more@;
    let ghost before = messages@;
    messages.append(&mut more);
    assert(as_runner_messages(messages@) =~= as_runner_messages(before) + as_runner_messages(
        added,
    ));
}

impl Engine {
    /// The change by which a moving soldier goes on along `path`: the same
    /// that the simulator decides on.
    pub fn movement_updates(&self, soldier_index: SoldierIndex, path: &WorldPaths) -> (messages: Vec<
        BattleStateMessage,
    >)
        requires
            soldier_index.0 < self.battle_state@.soldiers.len(),
            paths_next_point(path@) is Some,
            self.config.spec_behavior_velocity(
                self.battle_state@.soldiers[soldier_index.0 as int].behavior,
            ) is Some,
        ensures
            as_runner_messages(messages@) == seq![
                movement_message(
                    self.battle_state@.soldiers[soldier_index.0 as int].world_point,
                    paths_next_point(path@).unwrap(),
                    self.config.spec_behavior_velocity(
                        self.battle_state@.soldiers[soldier_index.0 as int].behavior,
                    ).unwrap(),
                    soldier_index,
                ),
            ],
    {
        let mut messages: Vec<BattleStateMessage> = Vec::new();
        let soldier = self.battle_state.soldier(soldier_index);
        let point = path.next_point().unwrap();
        let velocity: u32 = self.config.behavior_velocity(soldier.behavior()).unwrap();
        if reached_of(soldier.world_point(), point, velocity) {
            messages.push(BattleStateMessage::Soldier(soldier_index, SoldierMessage::ReachBehaviorStep));
        } else {
            let new_point = step_toward_of(soldier.world_point(), point, velocity);
            messages.push(
                BattleStateMessage::Soldier(soldier_index, SoldierMessage::SetWorldPosition(new_point)),
            );
        }
        assert(as_runner_messages(messages@) =~= seq![
            movement_message(
                self.battle_state@.soldiers[soldier_index.0 as int].world_point,
                paths_next_point(path@).unwrap(),
                self.config.spec_behavior_velocity(
                    self.battle_state@.soldiers[soldier_index.0 as int].behavior,
                ).unwrap(),
                soldier_index,
            ),
        ]);
        messages
    }

    /// The changes of a soldier's tick that the observer foresees: it turns
    /// and it moves.
    pub fn update_soldier(&self, i: SoldierIndex) -> (messages: Vec<BattleStateMessage>)
        requires
            self.wf(),
            i.0 < self.battle_state@.soldiers.len(),
        ensures
            as_runner_messages(messages@) == orientation_messages(
                self.battle_state@.soldiers[i.0 as int],
            ) + movement_messages(self.config, self.battle_state@.soldiers[i.0 as int]),
    {
        let mut messages: Vec<BattleStateMessage> = Vec::new();
        assert(as_runner_messages(messages@) =~= Seq::empty());
        extend_changes(&mut messages, self.orientation_update(i));
        extend_changes(&mut messages, self.behavior_update(i));
        messages
    }

    /// The change by which a soldier turns as its behavior asks.
    pub fn orientation_update(&self, i: SoldierIndex) -> (messages: Vec<BattleStateMessage>)
        requires
            self.wf(),
            i.0 < self.battle_state@.soldiers.len(),
        ensures
            as_runner_messages(messages@) == orientation_messages(
                self.battle_state@.soldiers[i.0 as int],
            ),
    {
        let soldier = self.battle_state.soldier(i);
        assert(soldier@.uuid == i);
        let mut messages: Vec<BattleStateMessage> = Vec::new();
        if soldier.able() {
            if let Some(angle_) = facing_of(soldier) {
                messages.push(BattleStateMessage::Soldier(i, SoldierMessage::SetOrientation(angle_)));
            }
        }
        assert(as_runner_messages(messages@) =~= orientation_messages(soldier@));
        messages
    }

    /// The change by which a soldier carries on with its behavior: a soldier
    /// on the move goes on along its route.
    pub fn behavior_update(&self, soldier_index: SoldierIndex) -> (messages: Vec<BattleStateMessage>)
        requires
            self.wf(),
            soldier_index.0 < self.battle_state@.soldiers.len(),
        ensures
            as_runner_messages(messages@) == movement_messages(
                self.config,
                self.battle_state@.soldiers[soldier_index.0 as int],
            ),
    {
        let soldier = self.battle_state.soldier(soldier_index);
        assert(soldier@.uuid == soldier_index);
        let mut messages: Vec<BattleStateMessage> = Vec::new();
        assert(as_runner_messages(messages@) =~= Seq::empty());
        if soldier.able() {
            if let Some(paths) = soldier.behavior().paths() {
                if paths.next_point().is_some() && self.config.behavior_velocity(
                    soldier.behavior(),
                ).is_some() {
                    extend_changes(&mut messages, self.movement_updates(soldier_index, paths));
                }
            }
        }
        assert(as_runner_messages(messages@) =~= movement_messages(self.config, soldier@));
        messages
    }
}

} // verus!
