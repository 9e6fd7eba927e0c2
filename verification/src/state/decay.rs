//! How the fire that a soldier feels dies down through a batch of messages.

use vstd::prelude::*;
use crate::config::UNDER_FIRE_TICK;
use crate::entity::soldier::UnderFire;
use crate::state::battle::BattleStateView;
use crate::state::invariants::lemma_apply_all_keeps_under_fire;
use crate::state::message::{BattleStateMessageView, SoldierMessageView};
use crate::types::SoldierIndex;

verus! {

/// How many messages of a batch take a step off the fire that soldier `i`
/// feels.
pub open spec fn decays_of(messages: Seq<BattleStateMessageView>, i: SoldierIndex) -> nat
    decreases messages.len(),
{
    if messages.len() == 0 {
        0
    } else {
        decays_of(messages.drop_last(), i) + if messages.last() == BattleStateMessageView::Soldier(
            i,
            SoldierMessageView::DecreaseUnderFire,
        ) {
            1nat
        } else {
            0nat
        }
    }
}

/// Whether no message of a batch adds to the fire that soldier `i` feels.
pub open spec fn no_fire_on(messages: Seq<BattleStateMessageView>, i: SoldierIndex) -> bool {
    forall|k: int|
        0 <= k < messages.len() ==> !(#[trigger] messages[k] matches BattleStateMessageView::Soldier(
            j,
            SoldierMessageView::IncreaseUnderFire(_),
        ) && j == i)
}

/// The fire felt after a number of steps down.
pub open spec fn decayed(fire: UnderFire, times: nat) -> UnderFire
    decreases times,
{
    if times == 0 {
        fire
    } else {
        decayed(fire, (times - 1) as nat).spec_decreased()
    }
}

/// After `times` steps down the fire felt is lower by that many times the
/// fixed amount, and 0 where that would be less than nothing.
pub proof fn lemma_decayed_value(fire: UnderFire, times: nat)
    ensures
        decayed(fire, times).0 == if fire.0 >= times * UNDER_FIRE_TICK {
            fire.0 - times * UNDER_FIRE_TICK
        } else {
            0
        },
    decreases times,
{
    if times > 0 {
        lemma_decayed_value(fire, (times - 1) as nat);
        assert(times * UNDER_FIRE_TICK == (times - 1) * UNDER_FIRE_TICK + UNDER_FIRE_TICK)
            by (nonlinear_arith);
    }
}

proof fn lemma_react_each_decays(state: BattleStateView, messages: Seq<BattleStateMessageView>, i: SoldierIndex)
    requires
        i.0 < state.soldiers.len(),
        no_fire_on(messages, i),
    ensures
        state.react_each(messages).0.soldiers.len() == state.soldiers.len(),
        state.react_each(messages).0.soldiers[i.0 as int].under_fire == decayed(
            state.soldiers[i.0 as int].under_fire,
            decays_of(messages, i),
        ),
    decreases messages.len(),
{
    if messages.len() > 0 {
        assert forall|k: int| 0 <= k < messages.drop_last().len() implies !(
        #[trigger] messages.drop_last()[k] matches BattleStateMessageView::Soldier(
            j,
            SoldierMessageView::IncreaseUnderFire(_),
        ) && j == i) by {
            assert(messages.drop_last()[k] == messages[k]);
        }
        lemma_react_each_decays(state, messages.drop_last(), i);
        assert(messages[messages.len() - 1] == messages.last());
    }
}

/// Through a batch of messages that adds nothing to the fire that a soldier
/// feels, that fire goes down by the fixed amount for each
/// `DecreaseUnderFire` for the soldier, to 0 at the lowest, and changes in
/// no other way.
pub proof fn under_fire_decays_through_batch(
    state: BattleStateView,
    messages: Seq<BattleStateMessageView>,
    i: SoldierIndex,
)
    requires
        i.0 < state.soldiers.len(),
        no_fire_on(messages, i),
    ensures
        state.react_all(messages).soldiers.len() == state.soldiers.len(),
        state.react_all(messages).soldiers[i.0 as int].under_fire == decayed(
            state.soldiers[i.0 as int].under_fire,
            decays_of(messages, i),
        ),
{
    lemma_react_each_decays(state, messages, i);
    let (reacted, effects) = state.react_each(messages);
    lemma_apply_all_keeps_under_fire(reacted, effects);
}

} // verus!
