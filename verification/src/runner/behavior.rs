//! From orders to behaviors, soldier by soldier, and from a leader's
//! behavior to the orders of its squad.

use vstd::prelude::*;
use crate::behavior::{Behavior, BehaviorMode, BehaviorPropagation, BehaviorView, Body};
use crate::config::{ServerConfig, UNDER_FIRE_DANGER, UNDER_FIRE_WARNING};
use crate::entity::soldier::{Soldier, SoldierView};
use crate::entity::squad::SquadView;
use crate::order::path::WorldPaths;
use crate::order::{Order, OrderView};
use crate::runner::engage::opponent_of;
use crate::runner::formation::{formation_offset, formation_offset_of, offset_paths, offset_paths_of};
use crate::runner::message::{
    extend, views, ClientStateMessage, DebugPoint, RunnerMessage, RunnerMessageView,
};
use crate::runner::Runner;
use crate::state::battle::BattleStateView;
use crate::state::message::{
    BattleStateMessage, BattleStateMessageView, SoldierMessage, SoldierMessageView,
};
use crate::types::{Angle, SoldierIndex, SquadUuid, WorldPoint};

verus! {

/// Behavior of a soldier whose order is to stay idle: it engages an opponent
/// in sight; else, under fire, it hides, facing as it does; else it is idle.
pub open spec fn spec_idle_behavior(state: BattleStateView, config: ServerConfig, s: SoldierView) -> BehaviorView {
    match opponent_of(state, config.visibility, s, None) {
        Some(opponent) => BehaviorView::EngageSoldier(opponent),
        None => if s.under_fire.spec_exist() {
            BehaviorView::Hide(s.looking_direction)
        } else {
            BehaviorView::Idle(state.soldier_body(s.uuid))
        },
    }
}

/// Behavior of a soldier ordered to move: it engages an opponent in sight;
/// else a driver drives; else, from the warning level of fire on, it sneaks;
/// else it walks.
pub open spec fn spec_move_behavior(
    state: BattleStateView,
    config: ServerConfig,
    s: SoldierView,
    paths: Seq<Seq<WorldPoint>>,
) -> BehaviorView {
    match opponent_of(state, config.visibility, s, None) {
        Some(opponent) => BehaviorView::EngageSoldier(opponent),
        None => if state.soldier_behavior_mode(s.uuid) == BehaviorMode::Vehicle {
            BehaviorView::DriveTo(paths)
        } else if s.under_fire.0 >= UNDER_FIRE_WARNING {
            BehaviorView::SneakTo(paths)
        } else {
            BehaviorView::MoveTo(paths)
        },
    }
}

/// Behavior of a soldier ordered to run: from the danger level of fire on it
/// sneaks; else it runs.
pub open spec fn spec_move_fast_behavior(s: SoldierView, paths: Seq<Seq<WorldPoint>>) -> BehaviorView {
    if s.under_fire.0 >= UNDER_FIRE_DANGER {
        BehaviorView::SneakTo(paths)
    } else {
        BehaviorView::MoveFastTo(paths)
    }
}

/// Behavior of a soldier ordered to engage a squad: it engages an opponent of
/// that squad in sight; else it is idle.
pub open spec fn spec_engage_behavior(
    state: BattleStateView,
    config: ServerConfig,
    s: SoldierView,
    squad: SquadUuid,
) -> BehaviorView {
    match opponent_of(state, config.visibility, s, Some(squad)) {
        Some(opponent) => BehaviorView::EngageSoldier(opponent),
        None => BehaviorView::Idle(state.soldier_body(s.uuid)),
    }
}

/// The behavior that a soldier's order and situation call for.
pub open spec fn computed_behavior(state: BattleStateView, config: ServerConfig, s: SoldierView) -> BehaviorView {
    match s.order {
        OrderView::Idle => spec_idle_behavior(state, config, s),
        OrderView::MoveTo(paths, _) => spec_move_behavior(state, config, s, paths),
        OrderView::MoveFastTo(paths, _) => spec_move_fast_behavior(s, paths),
        OrderView::SneakTo(paths, _) => BehaviorView::SneakTo(paths),
        OrderView::Defend(angle) => BehaviorView::Defend(angle),
        OrderView::Hide(angle) => BehaviorView::Hide(angle),
        OrderView::EngageSquad(squad) => spec_engage_behavior(state, config, s, squad),
        OrderView::SuppressFire(point) => BehaviorView::SuppressFire(point),
    }
}

/// Number of subordinates among the first `k` members of a squad.
pub open spec fn rank_upto(squad: SquadView, k: int) -> int
    decreases k,
{
    if k <= 0 {
        0
    } else {
        rank_upto(squad, k - 1) + if squad.members[k - 1] != squad.leader {
            1int
        } else {
            0int
        }
    }
}

/// The order that a leader's behavior means for its subordinate of the given
/// rank. A movement on foot is the leader's route moved to the subordinate's
/// place in the formation; defending, hiding and suppressing fire are passed
/// on as they are; engaging a soldier becomes engaging that soldier's squad.
/// A leader who drives, turns or does nothing passes nothing on.
pub open spec fn subordinate_order(
    state: BattleStateView,
    config: ServerConfig,
    behavior: BehaviorView,
    mode: BehaviorMode,
    rank: int,
) -> Option<OrderView> {
    let dx = formation_offset(config.formation_spacing, rank);
    match behavior {
        BehaviorView::MoveTo(paths) => if mode == BehaviorMode::Ground {
            Some(OrderView::MoveTo(offset_paths(paths, dx), None))
        } else {
            None
        },
        BehaviorView::MoveFastTo(paths) => if mode == BehaviorMode::Ground {
            Some(OrderView::MoveFastTo(offset_paths(paths, dx), None))
        } else {
            None
        },
        BehaviorView::SneakTo(paths) => if mode == BehaviorMode::Ground {
            Some(OrderView::SneakTo(offset_paths(paths, dx), None))
        } else {
            None
        },
        BehaviorView::Defend(angle) => Some(OrderView::Defend(angle)),
        BehaviorView::Hide(angle) => Some(OrderView::Hide(angle)),
        BehaviorView::SuppressFire(point) => Some(OrderView::SuppressFire(point)),
        BehaviorView::EngageSoldier(target) => if target.0 < state.soldiers.len() {
            Some(OrderView::EngageSquad(state.soldiers[target.0 as int].squad_uuid))
        } else {
            None
        },
        _ => None,
    }
}

/// The message, if any, that gives the member at position `pos` of the squad
/// its order: none for the leader, for a member that the state does not
/// hold, and for a subordinate who has that order already.
pub open spec fn order_message_at(
    state: BattleStateView,
    config: ServerConfig,
    squad: SquadView,
    behavior: BehaviorView,
    mode: BehaviorMode,
    pos: int,
) -> Seq<RunnerMessageView> {
    let member = squad.members[pos];
    if member != squad.leader && member.0 < state.soldiers.len() {
        match subordinate_order(state, config, behavior, mode, rank_upto(squad, pos)) {
            Some(order) => if order != state.soldiers[member.0 as int].order {
                seq![
                    RunnerMessageView::BattleState(
                        BattleStateMessageView::Soldier(member, SoldierMessageView::SetOrder(order)),
                    ),
                ]
            } else {
                Seq::empty()
            },
            None => Seq::empty(),
        }
    } else {
        Seq::empty()
    }
}

/// The order messages for the first `k` members of the squad.
pub open spec fn order_messages_upto(
    state: BattleStateView,
    config: ServerConfig,
    squad: SquadView,
    behavior: BehaviorView,
    mode: BehaviorMode,
    k: int,
) -> Seq<RunnerMessageView>
    decreases k,
{
    if k <= 0 {
        Seq::empty()
    } else {
        order_messages_upto(state, config, squad, behavior, mode, k - 1) + order_message_at(
            state,
            config,
            squad,
            behavior,
            mode,
            k - 1,
        )
    }
}

/// The debug point, if any, for the member at position `pos`: the place of
/// each subordinate whom the leader has defend or hide.
pub open spec fn debug_point_at(
    state: BattleStateView,
    squad: SquadView,
    behavior: BehaviorView,
    pos: int,
) -> Seq<RunnerMessageView> {
    let member = squad.members[pos];
    if (behavior is Defend || behavior is Hide) && member != squad.leader && member.0
        < state.soldiers.len() {
        seq![
            RunnerMessageView::ClientsState(
                ClientStateMessage::PushDebugPoint(
                    DebugPoint {
                        frame_i: state.frame_i,
                        point: state.soldiers[member.0 as int].world_point,
                    },
                ),
            ),
        ]
    } else {
        Seq::empty()
    }
}

/// The debug points for the first `k` members of the squad.
pub open spec fn debug_points_upto(
    state: BattleStateView,
    squad: SquadView,
    behavior: BehaviorView,
    k: int,
) -> Seq<RunnerMessageView>
    decreases k,
{
    if k <= 0 {
        Seq::empty()
    } else {
        debug_points_upto(state, squad, behavior, k - 1) + debug_point_at(
            state,
            squad,
            behavior,
            k - 1,
        )
    }
}

/// The messages by which a leader's behavior reaches its squad: the orders,
/// in the squad's order, then the debug points.
pub open spec fn propagation_messages(
    state: BattleStateView,
    config: ServerConfig,
    leader: SoldierIndex,
    behavior: BehaviorView,
) -> Seq<RunnerMessageView> {
    let squad = state.squads[state.soldiers[leader.0 as int].squad_uuid.0 as int];
    let mode = state.soldier_behavior_mode(leader);
    order_messages_upto(state, config, squad, behavior, mode, squad.members.len() as int)
        + debug_points_upto(state, squad, behavior, squad.members.len() as int)
}

/// The messages of one soldier's tick of behavior. A soldier who cannot act
/// gives none. A leader passes a behavior of the `Regularly` kind on at
/// every tick, and one of the `OnChange` kind when it takes it up; a
/// behavior that differs from the current one is set.
pub open spec fn behavior_messages(state: BattleStateView, config: ServerConfig, i: SoldierIndex) -> Seq<
    RunnerMessageView,
> {
    let s = state.soldiers[i.0 as int];
    let behavior = computed_behavior(state, config, s);
    let leads = state.is_squad_leader(i);
    if !s.able() {
        Seq::empty()
    } else {
        (if leads && behavior.propagation() == BehaviorPropagation::Regularly {
            propagation_messages(state, config, i, behavior)
        } else {
            Seq::empty()
        }) + (if behavior != s.behavior {
            (if leads && behavior.propagation() == BehaviorPropagation::OnChange {
                propagation_messages(state, config, i, behavior)
            } else {
                Seq::empty()
            }) + seq![
                RunnerMessageView::BattleState(
                    BattleStateMessageView::Soldier(i, SoldierMessageView::SetBehavior(behavior)),
                ),
            ]
        } else {
            Seq::empty()
        })
    }
}

impl Runner {
    /// Whether the soldier is one of the battle, as the battle holds it.
    pub open spec fn holds(&self, soldier: &Soldier) -> bool {
        &&& soldier@.uuid.0 < self.battle_state@.soldiers.len()
        &&& self.battle_state@.soldiers[soldier@.uuid.0 as int] == soldier@
    }

    /// The messages of one soldier's tick of behavior.
    pub fn soldier_behavior(&self, soldier: &Soldier) -> (messages: Vec<RunnerMessage>)
        requires
            self.wf(),
            self.holds(soldier),
        ensures
            views(messages@) == behavior_messages(
                self.battle_state@,
                self.config,
                soldier@.uuid,
            ),
    {
        let mut messages: Vec<RunnerMessage> = Vec::new();
        if !soldier.able() {
            assert(views(messages@) =~= Seq::empty());
            return messages;
        }
        let behavior = match soldier.order() {
            Order::Idle => self.idle_behavior(soldier),
            Order::MoveTo(paths, _) => self.move_behavior(soldier, paths),
            Order::MoveFastTo(paths, _) => self.move_fast_behavior(soldier, paths),
            Order::SneakTo(paths, _) => self.sneak_to_behavior(soldier, paths),
            Order::Defend(angle) => self.defend_behavior(soldier, angle),
            Order::Hide(angle) => self.hide_behavior(soldier, angle),
            Order::EngageSquad(squad_index) => self.engage_behavior(soldier, squad_index),
            Order::SuppressFire(point) => self.suppress_fire_behavior(soldier, point),
        };
        assert(behavior@ == computed_behavior(self.battle_state@, self.config, soldier@));
        let leads = self.battle_state.soldier_is_squad_leader(soldier.uuid());
        assert(views(messages@) =~= Seq::empty());

        // A leader passes a lasting behavior on at every tick.
        if leads && behavior.propagation() == BehaviorPropagation::Regularly {
            extend(&mut messages, self.propagate_behavior(soldier, &behavior));
        }
        let ghost first = views(messages@);

        // The behavior changes when the computed one differs.
        if !behavior.same_as(soldier.behavior()) {
            if leads && behavior.propagation() == BehaviorPropagation::OnChange {
                extend(&mut messages, self.propagate_behavior(soldier, &behavior));
            }
            let ghost second = views(messages@);
            messages.push(
                RunnerMessage::BattleState(
                    BattleStateMessage::Soldier(soldier.uuid(), SoldierMessage::SetBehavior(behavior)),
                ),
            );
            assert(views(messages@) =~= second.push(
                RunnerMessageView::BattleState(
                    BattleStateMessageView::Soldier(
                        soldier@.uuid,
                        SoldierMessageView::SetBehavior(
                            computed_behavior(self.battle_state@, self.config, soldier@),
                        ),
                    ),
                ),
            ));
        }
        assert(views(messages@) =~= behavior_messages(
            self.battle_state@,
            self.config,
            soldier@.uuid,
        ));
        messages
    }

    /// The order that a leader's behavior means for its subordinate of the
    /// given rank.
    fn subordinate_order(&self, behavior: &Behavior, mode: BehaviorMode, rank: usize) -> (order: Option<
        Order,
    >)
        ensures
            match order {
                Some(o) => subordinate_order(
                    self.battle_state@,
                    self.config,
                    behavior@,
                    mode,
                    rank as int,
                ) == Some(o@),
                None => subordinate_order(
                    self.battle_state@,
                    self.config,
                    behavior@,
                    mode,
                    rank as int,
                ) is None,
            },
    {
        let dx: i32 = formation_offset_of(self.config.formation_spacing, rank);
        match behavior {
            Behavior::MoveTo(paths) => match mode {
                BehaviorMode::Ground => Some(Order::MoveTo(offset_paths_of(paths, dx), None)),
                BehaviorMode::Vehicle => None,
            },
            Behavior::MoveFastTo(paths) => match mode {
                BehaviorMode::Ground => Some(Order::MoveFastTo(offset_paths_of(paths, dx), None)),
                BehaviorMode::Vehicle => None,
            },
            Behavior::SneakTo(paths) => match mode {
                BehaviorMode::Ground => Some(Order::SneakTo(offset_paths_of(paths, dx), None)),
                BehaviorMode::Vehicle => None,
            },
            Behavior::Defend(angle) => Some(Order::Defend(*angle)),
            Behavior::Hide(angle) => Some(Order::Hide(*angle)),
            Behavior::SuppressFire(point) => Some(Order::SuppressFire(*point)),
            Behavior::EngageSoldier(target) => {
                if target.0 < self.battle_state.soldiers.len() {
                    Some(Order::EngageSquad(self.battle_state.soldiers[target.0].squad_uuid))
                } else {
                    None
                }
            },
            _ => None,
        }
    }

    /// The messages by which a leader's behavior reaches its squad: to each
    /// subordinate the order that the behavior means for it, unless it has
    /// that order already.
    pub fn propagate_behavior(&self, leader: &Soldier, behavior: &Behavior) -> (messages: Vec<
        RunnerMessage,
    >)
        requires
            self.wf(),
            self.holds(leader),
            self.battle_state@.is_squad_leader(leader@.uuid),
        ensures
            views(messages@) == propagation_messages(
                self.battle_state@,
                self.config,
                leader@.uuid,
                behavior@,
            ),
    {
        let ghost state = self.battle_state@;
        let mut messages: Vec<RunnerMessage> = Vec::new();
        let mode = self.battle_state.soldier_behavior_mode(leader);
        let squad = &self.battle_state.squads[leader.squad_uuid.0];
        assert(squad@ == state.squads[state.soldiers[leader@.uuid.0 as int].squad_uuid.0 as int]);
        let mut rank: usize = 0;
        let mut k: usize = 0;
        assert(views(messages@) =~= Seq::empty());
        while k < squad.members.len()
            invariant
                k <= squad.members.len(),
                state == self.battle_state@,
                rank == rank_upto(squad@, k as int),
                rank <= k,
                views(messages@) == order_messages_upto(
                    state,
                    self.config,
                    squad@,
                    behavior@,
                    mode,
                    k as int,
                ),
            decreases squad.members.len() - k,
        {
            let member = squad.members[k];
            let ghost before = views(messages@);
            if member != squad.leader {
                if member.0 < self.battle_state.soldiers.len() {
                    let subordinate = &self.battle_state.soldiers[member.0];
                    assert(subordinate@ == state.soldiers[member.0 as int]);
                    match self.subordinate_order(behavior, mode, rank) {
                        Some(order) => {
                            // Give the order only if the subordinate has another one.
                            if !subordinate.order().same_as(&order) {
                                messages.push(
                                    RunnerMessage::BattleState(
                                        BattleStateMessage::Soldier(
                                            member,
                                            SoldierMessage::SetOrder(order),
                                        ),
                                    ),
                                );
                            }
                        },
                        None => {},
                    }
                }
                rank += 1;
            }
            assert(views(messages@) =~= before + order_message_at(
                state,
                self.config,
                squad@,
                behavior@,
                mode,
                k as int,
            ));
            k += 1;
        }
        let ghost orders = views(messages@);
        let with_points = match behavior {
            Behavior::Defend(_) | Behavior::Hide(_) => true,
            _ => false,
        };
        let mut k: usize = 0;
        while k < squad.members.len()
            invariant
                k <= squad.members.len(),
                state == self.battle_state@,
                with_points == (behavior@ is Defend || behavior@ is Hide),
                views(messages@) == orders + debug_points_upto(state, squad@, behavior@, k as int),
            decreases squad.members.len() - k,
        {
            let member = squad.members[k];
            let ghost before = views(messages@);
            if with_points && member != squad.leader && member.0 < self.battle_state.soldiers.len() {
                let subordinate = &self.battle_state.soldiers[member.0];
                assert(subordinate@ == state.soldiers[member.0 as int]);
                messages.push(
                    RunnerMessage::ClientsState(
                        ClientStateMessage::PushDebugPoint(
                            DebugPoint {
                                frame_i: self.battle_state.frame_i,
                                point: subordinate.world_point,
                            },
                        ),
                    ),
                );
            }
            assert(views(messages@) =~= before + debug_point_at(
                state,
                squad@,
                behavior@,
                k as int,
            ));
            k += 1;
        }
        messages
    }

    pub fn idle_behavior(&self, soldier: &Soldier) -> (behavior: Behavior)
        ensures
            behavior@ == spec_idle_behavior(self.battle_state@, self.config, soldier@),
    {
        if let Some(opponent) = self.get_soldier_opponent(soldier, None) {
            return Behavior::EngageSoldier(opponent);
        }
        if soldier.under_fire().exist() {
            Behavior::Hide(soldier.looking_direction())
        } else {
            Behavior::Idle(self.battle_state.soldier_body(soldier.uuid()))
        }
    }

    pub fn move_behavior(&self, soldier: &Soldier, paths: &WorldPaths) -> (behavior: Behavior)
        ensures
            behavior@ == spec_move_behavior(self.battle_state@, self.config, soldier@, paths@),
    {
        if let Some(opponent) = self.get_soldier_opponent(soldier, None) {
            return Behavior::EngageSoldier(opponent);
        }
        match self.battle_state.soldier_behavior_mode(soldier) {
            BehaviorMode::Ground => {
                if soldier.under_fire().is_warning() || soldier.under_fire().is_danger()
                    || soldier.under_fire().is_max() {
                    Behavior::SneakTo(paths.clone())
                } else {
                    Behavior::MoveTo(paths.clone())
                }
            },
            BehaviorMode::Vehicle => Behavior::DriveTo(paths.clone()),
        }
    }

    pub fn move_fast_behavior(&self, soldier: &Soldier, paths: &WorldPaths) -> (behavior: Behavior)
        ensures
            behavior@ == spec_move_fast_behavior(soldier@, paths@),
    {
        if soldier.under_fire().is_danger() || soldier.under_fire().is_max() {
            Behavior::SneakTo(paths.clone())
        } else {
            Behavior::MoveFastTo(paths.clone())
        }
    }

    pub fn sneak_to_behavior(&self, _soldier: &Soldier, paths: &WorldPaths) -> (behavior: Behavior)
        ensures
            behavior@ == BehaviorView::SneakTo(paths@),
    {
        Behavior::SneakTo(paths.clone())
    }

    pub fn defend_behavior(&self, _soldier: &Soldier, angle: &Angle) -> (behavior: Behavior)
        ensures
            behavior@ == BehaviorView::Defend(*angle),
    {
        Behavior::Defend(*angle)
    }

    pub fn hide_behavior(&self, _soldier: &Soldier, angle: &Angle) -> (behavior: Behavior)
        ensures
            behavior@ == BehaviorView::Hide(*angle),
    {
        Behavior::Hide(*angle)
    }

    pub fn engage_behavior(&self, soldier: &Soldier, squad_index: &SquadUuid) -> (behavior: Behavior)
        ensures
            behavior@ == spec_engage_behavior(
                self.battle_state@,
                self.config,
                soldier@,
                *squad_index,
            ),
    {
        if let Some(opponent) = self.get_soldier_opponent(soldier, Some(squad_index)) {
            return Behavior::EngageSoldier(opponent);
        }
        Behavior::Idle(self.battle_state.soldier_body(soldier.uuid()))
    }

    pub fn suppress_fire_behavior(&self, _soldier: &Soldier, point: &WorldPoint) -> (behavior: Behavior)
        ensures
            behavior@ == BehaviorView::SuppressFire(*point),
    {
        Behavior::SuppressFire(*point)
    }
}

} // verus!
