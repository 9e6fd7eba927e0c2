//! What holds of the battle state whatever messages it reacts to.

use vstd::prelude::*;
use crate::config::UNDER_FIRE_TICK;
use crate::entity::soldier::{SoldierView, Status};
use crate::entity::squad::SquadView;
use crate::state::battle::{
    alive_in, elected_leader, first_alive_from, has_alive_member, lemma_apply_keeps_wf,
    lemma_dead_is_final, lemma_first_alive, lemma_react_keeps_wf, lemma_soldier_react,
    BattleStateView,
};
use crate::state::message::{BattleStateMessageView, SideEffectView, SoldierMessageView};
use crate::types::SoldierIndex;

verus! {

/// A dead soldier has `Dead` as its behavior, and no message, nor the side
/// effects that a message leaves, changes its status or its behavior.
pub proof fn dead_soldier_stays_dead(
    state: BattleStateView,
    message: BattleStateMessageView,
    frame_i: u64,
    i: int,
)
    requires
        state.wf(),
        0 <= i < state.soldiers.len(),
        state.soldiers[i].status == Status::Dead,
    ensures
        state.soldiers[i].behavior is Dead,
        state.react_with_effects(message, frame_i).soldiers.len() == state.soldiers.len(),
        state.react_with_effects(message, frame_i).soldiers[i].status == Status::Dead,
        state.react_with_effects(message, frame_i).soldiers[i].behavior is Dead,
{
    lemma_dead_is_final(state, message, frame_i, i);
    lemma_react_keeps_wf(state, message, frame_i);
    lemma_apply_all_keeps(state.react(message, frame_i), state.side_effects(message));
}

/// Carrying out side effects keeps the state consistent, keeps its soldiers'
/// number and leaves the dead as they are.
pub proof fn lemma_apply_all_keeps(state: BattleStateView, effects: Seq<SideEffectView>)
    requires
        state.wf(),
    ensures
        state.apply_all(effects).wf(),
        state.apply_all(effects).soldiers.len() == state.soldiers.len(),
        forall|i: int|
            0 <= i < state.soldiers.len() && !(#[trigger] state.soldiers[i]).alive()
                ==> state.apply_all(effects).soldiers[i] == state.soldiers[i],
    decreases effects.len(),
{
    if effects.len() > 0 {
        lemma_apply_all_keeps(state, effects.drop_last());
        lemma_apply_keeps_wf(state.apply_all(effects.drop_last()), effects.last());
    }
}

/// A consistent state stays consistent through a message and its side
/// effects.
pub proof fn react_with_effects_keeps_wf(
    state: BattleStateView,
    message: BattleStateMessageView,
    frame_i: u64,
)
    requires
        state.wf(),
    ensures
        state.react_with_effects(message, frame_i).wf(),
{
    lemma_react_keeps_wf(state, message, frame_i);
    lemma_apply_all_keeps(state.react(message, frame_i), state.side_effects(message));
}

/// A consistent state stays consistent while it reacts to a sequence of
/// messages.
pub proof fn react_each_keeps_wf(state: BattleStateView, messages: Seq<BattleStateMessageView>)
    requires
        state.wf(),
    ensures
        state.react_each(messages).0.wf(),
    decreases messages.len(),
{
    if messages.len() > 0 {
        react_each_keeps_wf(state, messages.drop_last());
        let before = state.react_each(messages.drop_last()).0;
        lemma_react_keeps_wf(before, messages.last(), before.frame_i);
    }
}

/// A consistent state stays consistent through any batch of messages.
pub proof fn react_all_keeps_wf(state: BattleStateView, messages: Seq<BattleStateMessageView>)
    requires
        state.wf(),
    ensures
        state.react_all(messages).wf(),
{
    react_each_keeps_wf(state, messages);
    let (reacted, effects) = state.react_each(messages);
    lemma_apply_all_keeps(reacted, effects);
}

/// A dead soldier stays dead, with `Dead` as its behavior, through any
/// batch of messages.
pub proof fn dead_soldier_stays_dead_through_batch(
    state: BattleStateView,
    messages: Seq<BattleStateMessageView>,
    i: int,
)
    requires
        state.wf(),
        0 <= i < state.soldiers.len(),
        state.soldiers[i].status == Status::Dead,
    ensures
        state.react_all(messages).soldiers.len() == state.soldiers.len(),
        state.react_all(messages).soldiers[i].status == Status::Dead,
        state.react_all(messages).soldiers[i].behavior is Dead,
{
    lemma_react_each_dead(state, messages, i);
    react_each_keeps_wf(state, messages);
    let (reacted, effects) = state.react_each(messages);
    lemma_apply_all_keeps(reacted, effects);
}

proof fn lemma_react_each_dead(state: BattleStateView, messages: Seq<BattleStateMessageView>, i: int)
    requires
        state.wf(),
        0 <= i < state.soldiers.len(),
        state.soldiers[i].status == Status::Dead,
    ensures
        state.react_each(messages).0.soldiers.len() == state.soldiers.len(),
        state.react_each(messages).0.soldiers[i].status == Status::Dead,
        state.react_each(messages).0.soldiers[i].behavior is Dead,
    decreases messages.len(),
{
    if messages.len() > 0 {
        lemma_react_each_dead(state, messages.drop_last(), i);
        react_each_keeps_wf(state, messages.drop_last());
        let before = state.react_each(messages.drop_last()).0;
        lemma_dead_is_final(before, messages.last(), before.frame_i, i);
    } else {
        assert(state.soldiers[i].wf());
    }
}

/// Whether no message of a batch adds to the intensity of fire that a
/// soldier feels.
pub open spec fn no_fire_event(messages: Seq<BattleStateMessageView>) -> bool {
    forall|k: int|
        0 <= k < messages.len() ==> !(#[trigger] messages[k] matches BattleStateMessageView::Soldier(
            _,
            SoldierMessageView::IncreaseUnderFire(_),
        ))
}

/// Through a batch of messages without a fire event, the intensity of fire
/// that a soldier feels does not grow.
pub proof fn under_fire_never_grows_through_batch(
    state: BattleStateView,
    messages: Seq<BattleStateMessageView>,
    i: int,
)
    requires
        0 <= i < state.soldiers.len(),
        no_fire_event(messages),
    ensures
        state.react_all(messages).soldiers.len() == state.soldiers.len(),
        state.react_all(messages).soldiers[i].under_fire.0 <= state.soldiers[i].under_fire.0,
{
    lemma_react_each_under_fire(state, messages, i);
    let (reacted, effects) = state.react_each(messages);
    lemma_apply_all_keeps_under_fire(reacted, effects);
}

proof fn lemma_react_each_under_fire(
    state: BattleStateView,
    messages: Seq<BattleStateMessageView>,
    i: int,
)
    requires
        0 <= i < state.soldiers.len(),
        no_fire_event(messages),
    ensures
        state.react_each(messages).0.soldiers.len() == state.soldiers.len(),
        state.react_each(messages).0.soldiers[i].under_fire.0 <= state.soldiers[i].under_fire.0,
    decreases messages.len(),
{
    if messages.len() > 0 {
        assert forall|k: int| 0 <= k < messages.drop_last().len() implies !(
        #[trigger] messages.drop_last()[k] matches BattleStateMessageView::Soldier(
            _,
            SoldierMessageView::IncreaseUnderFire(_),
        )) by {
            assert(messages.drop_last()[k] == messages[k]);
        }
        lemma_react_each_under_fire(state, messages.drop_last(), i);
        assert(messages[messages.len() - 1] == messages.last());
    }
}

/// In a consistent state, a squad with a living member is led by a living
/// member.
pub proof fn leader_of_living_squad_is_alive(state: BattleStateView, q: int)
    requires
        state.wf(),
        0 <= q < state.squads.len(),
        has_alive_member(state.soldiers, state.squads[q]),
    ensures
        alive_in(state.soldiers, state.squads[q].leader),
        state.squads[q].members.contains(state.squads[q].leader),
{
    assert(state.squad_ok(q));
}

/// When the leader of a squad dies, the first member still alive, in the
/// squad's order, leads it from then on; when nobody is left alive the squad
/// keeps its dead leader.
pub proof fn leader_succession(state: BattleStateView, i: SoldierIndex, frame_i: u64)
    requires
        state.wf(),
        state.is_squad_leader(i),
    ensures
        ({
            let q = state.soldiers[i.0 as int].squad_uuid.0 as int;
            let after = state.react(
                BattleStateMessageView::Soldier(i, SoldierMessageView::SetAlive(false)),
                frame_i,
            );
            &&& after.wf()
            &&& after.squads[q].members == state.squads[q].members
            &&& after.squads[q].leader == match first_alive_from(
                after.soldiers,
                state.squads[q].members,
                0,
            ) {
                Some(successor) => successor,
                None => i,
            }
            &&& has_alive_member(after.soldiers, after.squads[q]) ==> alive_in(
                after.soldiers,
                after.squads[q].leader,
            )
        }),
{
    let message = BattleStateMessageView::Soldier(i, SoldierMessageView::SetAlive(false));
    lemma_react_keeps_wf(state, message, frame_i);
    let after = state.react(message, frame_i);
    let q = state.soldiers[i.0 as int].squad_uuid.0 as int;
    assert(after.squad_ok(q));
    assert(!alive_in(after.soldiers, i));
}

/// Without an event that adds to it, the intensity of fire that a soldier
/// feels never grows from one message to the next, and `DecreaseUnderFire`
/// takes the fixed amount off it, down to 0 at the lowest.
pub proof fn under_fire_never_grows_by_itself(
    state: BattleStateView,
    message: BattleStateMessageView,
    frame_i: u64,
    i: int,
)
    requires
        0 <= i < state.soldiers.len(),
        !(message matches BattleStateMessageView::Soldier(
            _,
            SoldierMessageView::IncreaseUnderFire(_),
        )),
    ensures
        state.react_with_effects(message, frame_i).soldiers.len() == state.soldiers.len(),
        state.react_with_effects(message, frame_i).soldiers[i].under_fire.0
            <= state.soldiers[i].under_fire.0,
        message == BattleStateMessageView::Soldier(
            SoldierIndex(i as usize),
            SoldierMessageView::DecreaseUnderFire,
        ) && i <= usize::MAX ==> state.react_with_effects(message, frame_i).soldiers[i].under_fire.0
            == if state.soldiers[i].under_fire.0 >= UNDER_FIRE_TICK {
            state.soldiers[i].under_fire.0 - UNDER_FIRE_TICK
        } else {
            0
        },
{
    let reacted = state.react(message, frame_i);
    lemma_apply_all_keeps_under_fire(reacted, state.side_effects(message));
}

/// Side effects leave the intensity of fire as it is.
pub proof fn lemma_apply_all_keeps_under_fire(state: BattleStateView, effects: Seq<SideEffectView>)
    ensures
        state.apply_all(effects).soldiers.len() == state.soldiers.len(),
        forall|i: int|
            0 <= i < state.soldiers.len() ==> (#[trigger] state.apply_all(
                effects,
            ).soldiers[i]).under_fire == state.soldiers[i].under_fire,
    decreases effects.len(),
{
    if effects.len() > 0 {
        lemma_apply_all_keeps_under_fire(state, effects.drop_last());
    }
}

/// Reacting is a function of the state, the messages and the frame: equal
/// states that take the same messages end up equal.
pub proof fn react_is_deterministic(
    first: BattleStateView,
    second: BattleStateView,
    messages: Seq<BattleStateMessageView>,
)
    requires
        first == second,
    ensures
        first.react_all(messages) == second.react_all(messages),
        first.react_each(messages) == second.react_each(messages),
{
}

/// Whether two messages are for different soldiers of different squads.
pub open spec fn disjoint_targets(
    state: BattleStateView,
    first: BattleStateMessageView,
    second: BattleStateMessageView,
) -> bool {
    &&& first matches BattleStateMessageView::Soldier(i, _)
    &&& second matches BattleStateMessageView::Soldier(j, _)
    &&& i != j
    &&& i.0 < state.soldiers.len() && j.0 < state.soldiers.len() ==> state.soldiers[i.0 as int].squad_uuid
        != state.soldiers[j.0 as int].squad_uuid
}

/// The first living member of a squad does not depend on soldiers outside
/// the squad.
pub(crate) proof fn lemma_first_alive_frame(
    a: Seq<SoldierView>,
    b: Seq<SoldierView>,
    members: Seq<SoldierIndex>,
    from: int,
)
    requires
        0 <= from,
        forall|k: int|
            0 <= k < members.len() ==> alive_in(a, #[trigger] members[k]) == alive_in(b, members[k]),
    ensures
        first_alive_from(a, members, from) == first_alive_from(b, members, from),
    decreases members.len() - from,
{
    if from < members.len() {
        lemma_first_alive_frame(a, b, members, from + 1);
    }
}

/// Two messages for different soldiers of different squads can be taken in
/// either order: the state ends up the same, side effects included.
pub proof fn disjoint_messages_commute(
    state: BattleStateView,
    first: BattleStateMessageView,
    second: BattleStateMessageView,
    frame_i: u64,
)
    requires
        state.wf(),
        disjoint_targets(state, first, second),
    ensures
        state.react_with_effects(first, frame_i).react_with_effects(second, frame_i)
            == state.react_with_effects(second, frame_i).react_with_effects(first, frame_i),
{
    let i = first->Soldier_0;
    let a = first->Soldier_1;
    let j = second->Soldier_0;
    let b = second->Soldier_1;
    let s1 = state.react_with_effects(first, frame_i);
    let s2 = state.react_with_effects(second, frame_i);
    let s12 = s1.react_with_effects(second, frame_i);
    let s21 = s2.react_with_effects(first, frame_i);
    react_with_effects_keeps_wf(state, first, frame_i);
    react_with_effects_keeps_wf(state, second, frame_i);
    lemma_react_with_effects_frame(state, i, a, frame_i);
    lemma_react_with_effects_frame(state, j, b, frame_i);
    lemma_react_with_effects_frame(s1, j, b, frame_i);
    lemma_react_with_effects_frame(s2, i, a, frame_i);
    lemma_place_frame(state, s1, j, 0);
    lemma_place_frame(state, s2, i, 0);
    if i.0 < state.soldiers.len() && j.0 < state.soldiers.len() {
        let qi = state.soldiers[i.0 as int].squad_uuid.0 as int;
        let qj = state.soldiers[j.0 as int].squad_uuid.0 as int;
        assert(s1.soldiers[j.0 as int] == state.soldiers[j.0 as int]);
        assert(s2.soldiers[i.0 as int] == state.soldiers[i.0 as int]);
        assert(soldier_after(s1, j, b) == soldier_after(state, j, b));
        assert(soldier_after(s2, i, a) == soldier_after(state, i, a));
        assert(s12.soldiers =~= s21.soldiers);
        lemma_leader_frame(state, i, a, j, b, frame_i);
        lemma_leader_frame(state, j, b, i, a, frame_i);
        assert(s12.squads =~= s21.squads);
    } else {
        assert(s12.soldiers =~= s21.soldiers);
        assert(s12.squads =~= s21.squads);
    }
}

/// What a message for a soldier, with its side effects, changes: that
/// soldier, as a function of the soldier and of its place aboard a vehicle,
/// and, when it dies, the leader of its squad.
pub open spec fn soldier_after(
    state: BattleStateView,
    i: SoldierIndex,
    m: SoldierMessageView,
) -> SoldierView {
    let s = state.soldiers[i.0 as int];
    if m == SoldierMessageView::ReachBehaviorStep && s.step_finishes() {
        s.react(m).finished(
            s.order.follow_up(),
            state.soldier_behavior_mode(i),
            state.soldier_body(i),
        )
    } else {
        s.react(m)
    }
}

proof fn lemma_react_with_effects_frame(
    state: BattleStateView,
    i: SoldierIndex,
    m: SoldierMessageView,
    frame_i: u64,
)
    requires
        state.wf(),
    ensures
        ({
            let after = state.react_with_effects(BattleStateMessageView::Soldier(i, m), frame_i);
            &&& after.map == state.map
            &&& after.frame_i == state.frame_i
            &&& after.phase == state.phase
            &&& after.vehicles == state.vehicles
            &&& after.soldier_on_board == state.soldier_on_board
            &&& after.explosions == state.explosions
            &&& after.projectiles == state.projectiles
            &&& after.soldiers.len() == state.soldiers.len()
            &&& after.squads.len() == state.squads.len()
            &&& i.0 >= state.soldiers.len() ==> after == state
            &&& i.0 < state.soldiers.len() ==> after.soldiers == state.soldiers.update(
                i.0 as int,
                soldier_after(state, i, m),
            )
            &&& after.squads == state.react(BattleStateMessageView::Soldier(i, m), frame_i).squads
        }),
{
    let message = BattleStateMessageView::Soldier(i, m);
    let reacted = state.react(message, frame_i);
    let effects = state.side_effects(message);
    if i.0 < state.soldiers.len() {
        let s = state.soldiers[i.0 as int];
        if effects.len() == 0 {
            assert(reacted.apply_all(effects) == reacted);
        } else {
            assert(effects.len() == 1);
            assert(effects.drop_last().len() == 0);
            assert(reacted.apply_all(effects.drop_last()) == reacted);
            assert(reacted.apply_all(effects) == reacted.apply(effects[0]));
            if m == SoldierMessageView::ReachBehaviorStep {
                assert(s.step_finishes());
                assert(effects[0] == SideEffectView::SoldierFinishHisBehavior(
                    s.uuid,
                    s.order.follow_up(),
                ));
                assert(reacted.soldier_on_board == state.soldier_on_board);
                lemma_place_frame(state, reacted, s.uuid, 0);
                if s.uuid.0 < state.soldiers.len() {
                    if s.uuid == i {
                        assert(reacted.apply(effects[0]).soldiers =~= state.soldiers.update(
                            i.0 as int,
                            soldier_after(state, i, m),
                        ));
                    }
                }
            }
        }
    } else {
        assert(effects.len() == 0);
        assert(reacted.apply_all(effects) == reacted);
    }
}

/// A soldier's place aboard depends only on who is aboard what.
pub(crate) proof fn lemma_place_frame(a: BattleStateView, b: BattleStateView, i: SoldierIndex, from: int)
    requires
        a.soldier_on_board == b.soldier_on_board,
        0 <= from,
    ensures
        a.vehicle_place_from(i, from) == b.vehicle_place_from(i, from),
    decreases a.soldier_on_board.len() - from,
{
    if from < a.soldier_on_board.len() {
        lemma_place_frame(a, b, i, from + 1);
    }
}

proof fn lemma_leader_frame(
    state: BattleStateView,
    i: SoldierIndex,
    a: SoldierMessageView,
    j: SoldierIndex,
    b: SoldierMessageView,
    frame_i: u64,
)
    requires
        state.wf(),
        i != j,
        i.0 < state.soldiers.len(),
        j.0 < state.soldiers.len(),
        state.soldiers[i.0 as int].squad_uuid != state.soldiers[j.0 as int].squad_uuid,
    ensures
        ({
            let only_i = state.react_with_effects(BattleStateMessageView::Soldier(i, a), frame_i);
            let j_then_i = state.react_with_effects(
                BattleStateMessageView::Soldier(j, b),
                frame_i,
            ).react_with_effects(BattleStateMessageView::Soldier(i, a), frame_i);
            let q = state.soldiers[i.0 as int].squad_uuid.0 as int;
            &&& j_then_i.squads.len() == state.squads.len()
            &&& j_then_i.squads[q] == only_i.squads[q]
            &&& forall|r: int|
                0 <= r < state.squads.len() && r != q && r != state.soldiers[j.0 as int].squad_uuid.0
                    ==> j_then_i.squads[r] == state.squads[r]
        }),
{
    let mi = BattleStateMessageView::Soldier(i, a);
    let mj = BattleStateMessageView::Soldier(j, b);
    let only_i = state.react_with_effects(mi, frame_i);
    let after_j = state.react_with_effects(mj, frame_i);
    let j_then_i = after_j.react_with_effects(mi, frame_i);
    react_with_effects_keeps_wf(state, mj, frame_i);
    lemma_react_with_effects_frame(state, i, a, frame_i);
    lemma_react_with_effects_frame(state, j, b, frame_i);
    lemma_react_with_effects_frame(after_j, i, a, frame_i);
    lemma_soldier_react(state.soldiers[i.0 as int], a);
    lemma_soldier_react(state.soldiers[j.0 as int], b);
    let q = state.soldiers[i.0 as int].squad_uuid.0 as int;
    let qj = state.soldiers[j.0 as int].squad_uuid.0 as int;
    assert(state.squad_ok(q));
    assert(after_j.squads[q] == state.squads[q]);
    assert(after_j.soldiers[i.0 as int] == state.soldiers[i.0 as int]);
    if a == SoldierMessageView::SetAlive(false) {
        let squad = state.squads[q];
        let with_i = state.soldiers.update(i.0 as int, state.soldiers[i.0 as int].react(a));
        let with_ji = after_j.soldiers.update(i.0 as int, after_j.soldiers[i.0 as int].react(a));
        assert forall|k: int| 0 <= k < squad.members.len() implies alive_in(
            with_i,
            #[trigger] squad.members[k],
        ) == alive_in(with_ji, squad.members[k]) by {
            assert(squad.members[k].0 != j.0);
        }
        lemma_first_alive_frame(with_i, with_ji, squad.members, 0);
        if squad.members.contains(squad.leader) {
            let l = choose|l: int| 0 <= l < squad.members.len() && squad.members[l] == squad.leader;
            assert(alive_in(with_i, squad.members[l]) == alive_in(with_ji, squad.members[l]));
        }
        assert(elected_leader(with_i, squad) == elected_leader(with_ji, squad));
    }
}

} // verus!
