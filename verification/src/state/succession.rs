//! Who leads a squad after a batch of messages.

use vstd::prelude::*;
use crate::entity::soldier::SoldierView;
use crate::state::battle::{
    alive_in, first_alive_from, lemma_first_alive, lemma_react_keeps_wf, lemma_soldier_react,
    BattleStateView,
};
use crate::state::invariants::{
    lemma_apply_all_keeps, lemma_first_alive_frame, react_each_keeps_wf,
};
use crate::state::message::{BattleStateMessageView, SideEffectView, SoldierMessageView};
use crate::types::SoldierIndex;

verus! {

/// Whether squad `q` is led as the succession asks, `now`, some messages
/// after `start`: its members are the same; the leader it had leads it as
/// long as that soldier lives; once that soldier is dead, the first living
/// member in the squad's order leads it, if a member lives.
pub open spec fn succession_ok(start: BattleStateView, now: BattleStateView, q: int) -> bool {
    let first = start.squads[q].leader;
    &&& now.squads.len() == start.squads.len()
    &&& now.soldiers.len() == start.soldiers.len()
    &&& now.squads[q].members == start.squads[q].members
    &&& if alive_in(now.soldiers, first) {
        now.squads[q].leader == first
    } else {
        match first_alive_from(now.soldiers, now.squads[q].members, 0) {
            Some(successor) => now.squads[q].leader == successor,
            None => true,
        }
    }
}

/// A living member with only dead members before it is the first living
/// member.
proof fn lemma_first_alive_is(
    soldiers: Seq<SoldierView>,
    members: Seq<SoldierIndex>,
    from: int,
    k: int,
)
    requires
        0 <= from <= k < members.len(),
        alive_in(soldiers, members[k]),
        forall|j: int| from <= j < k ==> !alive_in(soldiers, #[trigger] members[j]),
    ensures
        first_alive_from(soldiers, members, from) == Some(members[k]),
    decreases k - from,
{
    if from < k {
        lemma_first_alive_is(soldiers, members, from + 1, k);
    }
}

/// The death of a soldier of squad `q` keeps the succession of that squad.
proof fn lemma_death_in_squad(start: BattleStateView, s: BattleStateView, i: SoldierIndex, q: int)
    requires
        s.wf(),
        0 <= q < s.squads.len(),
        succession_ok(start, s, q),
        i.0 < s.soldiers.len(),
        s.soldiers[i.0 as int].squad_uuid.0 == q,
    ensures
        succession_ok(
            start,
            s.react(BattleStateMessageView::Soldier(i, SoldierMessageView::SetAlive(false)), 0),
            q,
        ),
{
    let m = SoldierMessageView::SetAlive(false);
    let after = s.react(BattleStateMessageView::Soldier(i, m), 0);
    let first = start.squads[q].leader;
    let squad = s.squads[q];
    let members = squad.members;
    assert(s.squad_ok(q));
    lemma_soldier_react(s.soldiers[i.0 as int], m);
    lemma_first_alive(s.soldiers, members, 0);
    lemma_first_alive(after.soldiers, members, 0);
    assert(after.squads[q].members == members);
    assert forall|j: SoldierIndex| alive_in(after.soldiers, j) implies alive_in(s.soldiers, j) by {}
    assert forall|j: SoldierIndex| j != i implies alive_in(after.soldiers, j) == alive_in(
        s.soldiers,
        j,
    ) by {}
    if alive_in(after.soldiers, first) {
        assert(squad.leader == first);
        if !members.contains(first) {
            // Nobody of the squad lives: it keeps the leader it has.
            if first_alive_from(after.soldiers, members, 0) is Some {
                let k = choose|k: int|
                    0 <= k < members.len() && #[trigger] members[k] == first_alive_from(
                        after.soldiers,
                        members,
                        0,
                    )->Some_0;
                assert(alive_in(s.soldiers, members[k]));
            }
        }
    } else if alive_in(s.soldiers, first) {
        // The leader dies now: the first living member takes over.
        assert(squad.leader == first);
    } else {
        match first_alive_from(s.soldiers, members, 0) {
            Some(leader) => {
                assert(squad.leader == leader);
                let k = choose|k: int|
                    0 <= k < members.len() && #[trigger] members[k] == leader && forall|j: int|
                        0 <= j < k ==> !alive_in(s.soldiers, #[trigger] members[j]);
                if leader != i {
                    assert(alive_in(after.soldiers, members[k]));
                    assert forall|j: int| 0 <= j < k implies !alive_in(
                        after.soldiers,
                        #[trigger] members[j],
                    ) by {
                        assert(!alive_in(s.soldiers, members[j]));
                    }
                    lemma_first_alive_is(after.soldiers, members, 0, k);
                    assert(members.contains(leader));
                }
            },
            None => {
                if first_alive_from(after.soldiers, members, 0) is Some {
                    let k = choose|k: int|
                        0 <= k < members.len() && #[trigger] members[k] == first_alive_from(
                            after.soldiers,
                            members,
                            0,
                        )->Some_0;
                    assert(alive_in(s.soldiers, members[k]));
                }
            },
        }
    }
}

/// A message keeps the succession of every squad.
proof fn lemma_succession_step(
    start: BattleStateView,
    s: BattleStateView,
    message: BattleStateMessageView,
    frame_i: u64,
    q: int,
)
    requires
        s.wf(),
        0 <= q < s.squads.len(),
        succession_ok(start, s, q),
    ensures
        succession_ok(start, s.react(message, frame_i), q),
{
    let after = s.react(message, frame_i);
    let first = start.squads[q].leader;
    let members = s.squads[q].members;
    assert(s.squad_ok(q));
    if let BattleStateMessageView::Soldier(i, m) = message {
        if i.0 < s.soldiers.len() {
            let old_soldier = s.soldiers[i.0 as int];
            lemma_soldier_react(old_soldier, m);
            if m == SoldierMessageView::SetAlive(false) && old_soldier.squad_uuid.0 == q {
                lemma_death_in_squad(start, s, i, q);
            } else {
                // No member of the squad dies.
                assert(after.squads[q] == s.squads[q]);
                assert forall|k: int| 0 <= k < members.len() implies alive_in(
                    s.soldiers,
                    #[trigger] members[k],
                ) == alive_in(after.soldiers, members[k]) by {
                    if m == SoldierMessageView::SetAlive(false) {
                        assert(members[k].0 != i.0);
                    }
                }
                lemma_first_alive_frame(s.soldiers, after.soldiers, members, 0);
                if alive_in(s.soldiers, first) && !alive_in(after.soldiers, first) {
                    // The leader is a soldier of another squad: no member lives.
                    lemma_first_alive(s.soldiers, members, 0);
                    if first_alive_from(s.soldiers, members, 0) is Some {
                        assert(members.contains(first));
                        let l = choose|l: int| 0 <= l < members.len() && members[l] == first;
                        assert(members[l].0 == i.0);
                    }
                }
            }
        }
    }
}

/// Carrying out side effects changes neither who lives nor who leads.
proof fn lemma_effects_keep_succession(start: BattleStateView, s: BattleStateView, effects: Seq<SideEffectView>, q: int)
    requires
        0 <= q < s.squads.len(),
        succession_ok(start, s, q),
    ensures
        succession_ok(start, s.apply_all(effects), q),
    decreases effects.len(),
{
    if effects.len() > 0 {
        lemma_effects_keep_succession(start, s, effects.drop_last(), q);
        let before = s.apply_all(effects.drop_last());
        let after = before.apply(effects.last());
        assert(after.squads == before.squads);
        assert forall|j: SoldierIndex| alive_in(after.soldiers, j) == alive_in(before.soldiers, j) by {}
        lemma_first_alive_frame(before.soldiers, after.soldiers, before.squads[q].members, 0);
    }
}

proof fn lemma_succession_each(start: BattleStateView, messages: Seq<BattleStateMessageView>, q: int)
    requires
        start.wf(),
        0 <= q < start.squads.len(),
    ensures
        succession_ok(start, start.react_each(messages).0, q),
    decreases messages.len(),
{
    if messages.len() == 0 {
        assert(start.squad_ok(q));
        lemma_first_alive(start.soldiers, start.squads[q].members, 0);
        if !alive_in(start.soldiers, start.squads[q].leader) && first_alive_from(
            start.soldiers,
            start.squads[q].members,
            0,
        ) is Some {
            let members = start.squads[q].members;
            let k = choose|k: int|
                0 <= k < members.len() && #[trigger] members[k] == first_alive_from(
                    start.soldiers,
                    members,
                    0,
                )->Some_0;
            assert(alive_in(start.soldiers, members[k]));
        }
    } else {
        lemma_succession_each(start, messages.drop_last(), q);
        react_each_keeps_wf(start, messages.drop_last());
        let before = start.react_each(messages.drop_last()).0;
        lemma_succession_step(start, before, messages.last(), before.frame_i, q);
    }
}

/// Through any batch of messages a squad keeps its members, and its leader
/// as long as that soldier lives. Once the leader has died in the batch,
/// whatever other messages stand around its death, the squad is led by its
/// first living member in the squad's order, if a member lives: the
/// successor depends on the state and the messages alone.
pub proof fn leader_succession_through_batch(
    state: BattleStateView,
    messages: Seq<BattleStateMessageView>,
    q: int,
)
    requires
        state.wf(),
        0 <= q < state.squads.len(),
    ensures
        state.react_all(messages).wf(),
        succession_ok(state, state.react_all(messages), q),
{
    lemma_succession_each(state, messages, q);
    react_each_keeps_wf(state, messages);
    let (reacted, effects) = state.react_each(messages);
    lemma_effects_keep_succession(state, reacted, effects, q);
    lemma_apply_all_keeps(reacted, effects);
}

} // verus!
