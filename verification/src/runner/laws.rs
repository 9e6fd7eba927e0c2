//! What holds of every soldier's tick.

use vstd::prelude::*;
use crate::behavior::{BehaviorMode, BehaviorView};
use crate::config::ServerConfig;
use crate::entity::squad::SquadView;
use crate::runner::behavior::{
    behavior_messages, computed_behavior, debug_points_upto, order_messages_upto,
    propagation_messages,
};
use crate::runner::message::RunnerMessageView;
use crate::runner::react::battle_messages;
use crate::runner::update::{decay_messages, movement_messages, orientation_messages, update_messages};
use crate::state::battle::BattleStateView;
use crate::state::decay::{decayed, decays_of, no_fire_on, under_fire_decays_through_batch};
use crate::state::message::{BattleStateMessageView, SoldierMessageView};
use crate::types::SoldierIndex;

verus! {

/// Whether a message gives a soldier a behavior.
pub open spec fn sets_behavior(message: RunnerMessageView) -> bool {
    message matches RunnerMessageView::BattleState(
        BattleStateMessageView::Soldier(_, SoldierMessageView::SetBehavior(_)),
    )
}

/// Whether no message of a list gives a soldier a behavior.
pub open spec fn sets_no_behavior(messages: Seq<RunnerMessageView>) -> bool {
    forall|k: int| 0 <= k < messages.len() ==> !sets_behavior(#[trigger] messages[k])
}

/// Whether the list gives a behavior in one message at most, and whether
/// that message is its last, gives `behavior` to soldier `i` and is there
/// exactly when it is `due`.
pub open spec fn sets_one_behavior(
    messages: Seq<RunnerMessageView>,
    i: SoldierIndex,
    behavior: BehaviorView,
    due: bool,
) -> bool {
    &&& forall|k: int|
        0 <= k < messages.len() && sets_behavior(#[trigger] messages[k]) ==> due && k
            == messages.len() - 1
    &&& due ==> messages.len() > 0 && messages.last() == RunnerMessageView::BattleState(
        BattleStateMessageView::Soldier(i, SoldierMessageView::SetBehavior(behavior)),
    )
}

proof fn lemma_orders_set_no_behavior(
    state: BattleStateView,
    config: ServerConfig,
    squad: SquadView,
    behavior: BehaviorView,
    mode: BehaviorMode,
    k: int,
)
    ensures
        sets_no_behavior(order_messages_upto(state, config, squad, behavior, mode, k)),
    decreases k,
{
    if k > 0 {
        lemma_orders_set_no_behavior(state, config, squad, behavior, mode, k - 1);
    }
}

proof fn lemma_points_set_no_behavior(
    state: BattleStateView,
    squad: SquadView,
    behavior: BehaviorView,
    k: int,
)
    ensures
        sets_no_behavior(debug_points_upto(state, squad, behavior, k)),
    decreases k,
{
    if k > 0 {
        lemma_points_set_no_behavior(state, squad, behavior, k - 1);
    }
}

/// What a leader passes on to its squad holds orders and notes, never a
/// behavior.
pub proof fn propagation_sets_no_behavior(
    state: BattleStateView,
    config: ServerConfig,
    leader: SoldierIndex,
    behavior: BehaviorView,
)
    ensures
        sets_no_behavior(propagation_messages(state, config, leader, behavior)),
{
    let squad = state.squads[state.soldiers[leader.0 as int].squad_uuid.0 as int];
    let mode = state.soldier_behavior_mode(leader);
    lemma_orders_set_no_behavior(state, config, squad, behavior, mode, squad.members.len() as int);
    lemma_points_set_no_behavior(state, squad, behavior, squad.members.len() as int);
}

/// A soldier's tick of behavior gives a behavior in one message at most:
/// to that soldier, the behavior that its order and its situation call for,
/// as the last message, and exactly when the soldier can act and that
/// behavior is not the one it has. So every soldier has one behavior at any
/// time, and no tick of another soldier changes it.
pub proof fn one_behavior_per_tick(state: BattleStateView, config: ServerConfig, i: SoldierIndex)
    ensures
        sets_one_behavior(
            behavior_messages(state, config, i),
            i,
            computed_behavior(state, config, state.soldiers[i.0 as int]),
            state.soldiers[i.0 as int].able() && computed_behavior(
                state,
                config,
                state.soldiers[i.0 as int],
            ) != state.soldiers[i.0 as int].behavior,
        ),
{
    let s = state.soldiers[i.0 as int];
    let behavior = computed_behavior(state, config, s);
    propagation_sets_no_behavior(state, config, i, behavior);
}

/// The changes to the battle among two lists of messages on end are those
/// of the first list, then those of the second.
pub proof fn lemma_battle_messages_concat(a: Seq<RunnerMessageView>, b: Seq<RunnerMessageView>)
    ensures
        battle_messages(a + b) == battle_messages(a) + battle_messages(b),
    decreases b.len(),
{
    if b.len() == 0 {
        assert(a + b =~= a);
        assert(battle_messages(a) + battle_messages(b) =~= battle_messages(a));
    } else {
        lemma_battle_messages_concat(a, b.drop_last());
        assert((a + b).drop_last() =~= a + b.drop_last());
        assert((a + b).last() == b.last());
        match b.last() {
            RunnerMessageView::BattleState(m) => {
                assert((battle_messages(a) + battle_messages(b.drop_last())).push(m)
                    =~= battle_messages(a) + battle_messages(b.drop_last()).push(m));
            },
            _ => {},
        }
    }
}

proof fn lemma_decays_concat(
    a: Seq<BattleStateMessageView>,
    b: Seq<BattleStateMessageView>,
    i: SoldierIndex,
)
    ensures
        decays_of(a + b, i) == decays_of(a, i) + decays_of(b, i),
    decreases b.len(),
{
    if b.len() == 0 {
        assert(a + b =~= a);
    } else {
        lemma_decays_concat(a, b.drop_last(), i);
        assert((a + b).drop_last() =~= a + b.drop_last());
        assert((a + b).last() == b.last());
    }
}

/// The changes to the battle in a list of no message or of one.
proof fn lemma_battle_messages_short(messages: Seq<RunnerMessageView>)
    requires
        messages.len() <= 1,
    ensures
        battle_messages(messages) =~= match (if messages.len() == 1 {
            Some(messages[0])
        } else {
            None
        }) {
            Some(RunnerMessageView::BattleState(m)) => seq![m],
            _ => Seq::empty(),
        },
{
    if messages.len() == 1 {
        assert(messages.drop_last() =~= Seq::empty());
        assert(battle_messages(messages.drop_last()) =~= Seq::empty());
    }
}

proof fn lemma_decays_short(messages: Seq<BattleStateMessageView>, i: SoldierIndex)
    requires
        messages.len() <= 1,
    ensures
        decays_of(messages, i) == if messages.len() == 1 && messages[0]
            == BattleStateMessageView::Soldier(i, SoldierMessageView::DecreaseUnderFire) {
            1nat
        } else {
            0nat
        },
{
    if messages.len() == 1 {
        assert(messages.drop_last() =~= Seq::empty());
        assert(decays_of(messages.drop_last(), i) == 0);
    }
}

/// A soldier's update, once the battle has reacted to it, has taken the
/// fixed amount off the fire that the soldier feels, down to 0 at the
/// lowest: the soldier turns, moves and calms down, and nothing in that adds
/// to the fire.
pub proof fn update_takes_a_step_off_fire(state: BattleStateView, config: ServerConfig, i: SoldierIndex)
    requires
        state.wf(),
        i.0 < state.soldiers.len(),
    ensures
        state.react_all(
            battle_messages(update_messages(config, state.soldiers[i.0 as int])),
        ).soldiers.len() == state.soldiers.len(),
        state.react_all(
            battle_messages(update_messages(config, state.soldiers[i.0 as int])),
        ).soldiers[i.0 as int].under_fire == state.soldiers[i.0 as int].under_fire.spec_decreased(),
{
    let s = state.soldiers[i.0 as int];
    assert(s.uuid == i);
    let turn = orientation_messages(s);
    let walk = movement_messages(config, s);
    let calm = decay_messages(s);
    lemma_battle_messages_concat(turn + walk, calm);
    lemma_battle_messages_concat(turn, walk);
    lemma_battle_messages_short(turn);
    lemma_battle_messages_short(walk);
    lemma_battle_messages_short(calm);
    let a = battle_messages(turn);
    let b = battle_messages(walk);
    let c = battle_messages(calm);
    let all = battle_messages(update_messages(config, s));
    assert(all == (a + b) + c);
    lemma_decays_concat(a + b, c, i);
    lemma_decays_concat(a, b, i);
    lemma_decays_short(a, i);
    lemma_decays_short(b, i);
    lemma_decays_short(c, i);
    assert(no_fire_on(all, i)) by {
        assert forall|k: int| 0 <= k < all.len() implies !(#[trigger] all[k] matches BattleStateMessageView::Soldier(
            j,
            SoldierMessageView::IncreaseUnderFire(_),
        ) && j == i) by {
            if k < a.len() {
                assert(all[k] == a[k]);
            } else if k < a.len() + b.len() {
                assert(all[k] == b[k - a.len()]);
            } else {
                assert(all[k] == c[k - a.len() - b.len()]);
            }
        }
    }
    under_fire_decays_through_batch(state, all, i);
    assert(decayed(s.under_fire, 0) == s.under_fire);
    assert(decayed(s.under_fire, 1) == decayed(s.under_fire, 0).spec_decreased());
}

} // verus!
