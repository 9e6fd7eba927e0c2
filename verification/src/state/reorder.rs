//! Messages for different soldiers of different squads can change places in
//! a batch, one by one or as whole lists from two senders.

use vstd::prelude::*;
use crate::state::battle::{
    alive_in, lemma_react_keeps_wf, lemma_soldier_react, BattleStateView,
};
use crate::state::invariants::{
    disjoint_targets, lemma_first_alive_frame, lemma_place_frame, react_each_keeps_wf,
};
use crate::state::message::{BattleStateMessageView, SideEffectView, SoldierMessageView};
use crate::types::SoldierIndex;

verus! {

/// Reacting to one list of messages after another is reacting to the two
/// lists on end.
pub proof fn lemma_react_each_concat(
    state: BattleStateView,
    a: Seq<BattleStateMessageView>,
    b: Seq<BattleStateMessageView>,
)
    ensures
        state.react_each(a + b) == ({
            let (s1, e1) = state.react_each(a);
            let (s2, e2) = s1.react_each(b);
            (s2, e1 + e2)
        }),
    decreases b.len(),
{
    let (s1, e1) = state.react_each(a);
    if b.len() == 0 {
        assert(a + b =~= a);
        assert(e1 + Seq::<SideEffectView>::empty() =~= e1);
    } else {
        lemma_react_each_concat(state, a, b.drop_last());
        assert((a + b).drop_last() =~= a + b.drop_last());
        assert((a + b).last() == b.last());
        let (s2, e2) = s1.react_each(b.drop_last());
        assert((e1 + e2) + s2.side_effects(b.last()) =~= e1 + (e2 + s2.side_effects(b.last())));
    }
}

/// Carrying out one list of side effects after another is carrying out the
/// two lists on end.
pub proof fn lemma_apply_all_concat(
    state: BattleStateView,
    a: Seq<SideEffectView>,
    b: Seq<SideEffectView>,
)
    ensures
        state.apply_all(a + b) == state.apply_all(a).apply_all(b),
    decreases b.len(),
{
    if b.len() == 0 {
        assert(a + b =~= a);
    } else {
        lemma_apply_all_concat(state, a, b.drop_last());
        assert((a + b).drop_last() =~= a + b.drop_last());
        assert((a + b).last() == b.last());
    }
}

/// The soldier that a side effect is for.
pub open spec fn effect_target(effect: SideEffectView) -> int {
    match effect {
        SideEffectView::SoldierFinishHisBehavior(i, _) => i.0 as int,
        SideEffectView::RefreshEntityAnimation(i) => i.0 as int,
    }
}

/// Side effects for different soldiers can be carried out in either order.
proof fn lemma_effects_commute(state: BattleStateView, x: SideEffectView, y: SideEffectView)
    requires
        effect_target(x) != effect_target(y),
    ensures
        state.apply(x).apply(y) == state.apply(y).apply(x),
{
    let sx = state.apply(x);
    let sy = state.apply(y);
    lemma_place_same(state, sx);
    lemma_place_same(state, sy);
    assert(sx.apply(y).soldiers =~= sy.apply(x).soldiers);
}

/// States with the same soldiers aboard give every soldier the same mode
/// and the same body.
proof fn lemma_place_same(a: BattleStateView, b: BattleStateView)
    requires
        a.soldier_on_board == b.soldier_on_board,
    ensures
        forall|i: SoldierIndex|
            a.soldier_behavior_mode(i) == b.soldier_behavior_mode(i) && a.soldier_body(i)
                == b.soldier_body(i),
{
    assert forall|i: SoldierIndex|
        a.soldier_behavior_mode(i) == b.soldier_behavior_mode(i) && a.soldier_body(i)
            == b.soldier_body(i) by {
        lemma_place_frame(a, b, i, 0);
    }
}

/// Whether every side effect of a list is for the given soldier.
pub open spec fn all_for(effects: Seq<SideEffectView>, i: int) -> bool {
    forall|k: int| 0 <= k < effects.len() ==> effect_target(#[trigger] effects[k]) == i
}

/// A side effect for one soldier can be carried out before or after a list
/// of side effects for another.
proof fn lemma_effect_past_list(state: BattleStateView, x: SideEffectView, ys: Seq<SideEffectView>, j: int)
    requires
        effect_target(x) != j,
        all_for(ys, j),
    ensures
        state.apply(x).apply_all(ys) == state.apply_all(ys).apply(x),
    decreases ys.len(),
{
    if ys.len() > 0 {
        assert forall|k: int| 0 <= k < ys.drop_last().len() implies effect_target(
            #[trigger] ys.drop_last()[k],
        ) == j by {
            assert(ys.drop_last()[k] == ys[k]);
        }
        lemma_effect_past_list(state, x, ys.drop_last(), j);
        assert(ys[ys.len() - 1] == ys.last());
        lemma_effects_commute(state.apply_all(ys.drop_last()), x, ys.last());
    }
}

/// Lists of side effects for two different soldiers can be carried out in
/// either order.
proof fn lemma_lists_commute(
    state: BattleStateView,
    xs: Seq<SideEffectView>,
    ys: Seq<SideEffectView>,
    i: int,
    j: int,
)
    requires
        i != j,
        all_for(xs, i),
        all_for(ys, j),
    ensures
        state.apply_all(xs + ys) == state.apply_all(ys + xs),
    decreases xs.len(),
{
    lemma_apply_all_concat(state, xs, ys);
    lemma_apply_all_concat(state, ys, xs);
    if xs.len() > 0 {
        assert forall|k: int| 0 <= k < xs.drop_last().len() implies effect_target(
            #[trigger] xs.drop_last()[k],
        ) == i by {
            assert(xs.drop_last()[k] == xs[k]);
        }
        lemma_lists_commute(state, xs.drop_last(), ys, i, j);
        lemma_apply_all_concat(state, xs.drop_last(), ys);
        lemma_apply_all_concat(state, ys, xs.drop_last());
        assert(xs[xs.len() - 1] == xs.last());
        // apply_all(xs).apply_all(ys) = apply_all(xs').apply(x).apply_all(ys)
        //                            = apply_all(xs').apply_all(ys).apply(x)
        //                            = apply_all(ys).apply_all(xs').apply(x)
        lemma_effect_past_list(state.apply_all(xs.drop_last()), xs.last(), ys, j);
    }
}

/// Two messages for different soldiers of different squads, one after the
/// other in a batch, can change places: the battle ends up the same.
pub proof fn neighbours_in_batch_commute(
    state: BattleStateView,
    before: Seq<BattleStateMessageView>,
    first: BattleStateMessageView,
    second: BattleStateMessageView,
    after: Seq<BattleStateMessageView>,
)
    requires
        state.wf(),
        disjoint_targets(state, first, second),
    ensures
        state.react_all(before + seq![first, second] + after) == state.react_all(
            before + seq![second, first] + after,
        ),
{
    let (s0, e0) = state.react_each(before);
    lemma_disjoint_after(state, before, first, second);
    let one = seq![first, second];
    let other = seq![second, first];
    lemma_pair(s0, first, second);
    let s1 = s0.react_each(one).0;
    let (s3, e3) = s1.react_each(after);
    lemma_react_each_concat(state, before, one);
    lemma_react_each_concat(state, before + one, after);
    lemma_react_each_concat(state, before, other);
    lemma_react_each_concat(state, before + other, after);
    let x = s0.side_effects(first);
    let y = s0.side_effects(second);
    assert(state.react_each(before + one + after) == (s3, (e0 + (x + y)) + e3));
    assert(state.react_each(before + other + after) == (s3, (e0 + (y + x)) + e3));
    lemma_effects_of(s0, first);
    lemma_effects_of(s0, second);
    lemma_middle_commutes(s3, e0, x, y, e3, first->Soldier_0.0 as int, second->Soldier_0.0 as int);
}

/// Two neighbouring runs of side effects for two different soldiers can
/// change places in a list.
proof fn lemma_middle_commutes(
    state: BattleStateView,
    head: Seq<SideEffectView>,
    xs: Seq<SideEffectView>,
    ys: Seq<SideEffectView>,
    tail: Seq<SideEffectView>,
    i: int,
    j: int,
)
    requires
        i != j,
        all_for(xs, i),
        all_for(ys, j),
    ensures
        state.apply_all((head + (xs + ys)) + tail) == state.apply_all((head + (ys + xs)) + tail),
{
    lemma_apply_all_concat(state, head + (xs + ys), tail);
    lemma_apply_all_concat(state, head + (ys + xs), tail);
    lemma_apply_all_concat(state, head, xs + ys);
    lemma_apply_all_concat(state, head, ys + xs);
    lemma_lists_commute(state.apply_all(head), xs, ys, i, j);
}

/// Messages for soldiers of different squads before a batch are so after it.
proof fn lemma_disjoint_after(
    state: BattleStateView,
    before: Seq<BattleStateMessageView>,
    first: BattleStateMessageView,
    second: BattleStateMessageView,
)
    requires
        state.wf(),
        disjoint_targets(state, first, second),
    ensures
        state.react_each(before).0.wf(),
        disjoint_targets(state.react_each(before).0, first, second),
{
    react_each_keeps_wf(state, before);
    lemma_react_each_keeps_squads(state, before);
    let later = state.react_each(before).0;
    let i = first->Soldier_0;
    let j = second->Soldier_0;
    if i.0 < later.soldiers.len() && j.0 < later.soldiers.len() {
        assert(later.soldiers[i.0 as int].squad_uuid == state.soldiers[i.0 as int].squad_uuid);
        assert(later.soldiers[j.0 as int].squad_uuid == state.soldiers[j.0 as int].squad_uuid);
    }
}

/// A batch of messages moves no soldier to another squad.
proof fn lemma_react_each_keeps_squads(state: BattleStateView, messages: Seq<BattleStateMessageView>)
    requires
        state.wf(),
    ensures
        state.react_each(messages).0.soldiers.len() == state.soldiers.len(),
        forall|i: int|
            0 <= i < state.soldiers.len() ==> (#[trigger] state.react_each(
                messages,
            ).0.soldiers[i]).squad_uuid == state.soldiers[i].squad_uuid,
    decreases messages.len(),
{
    if messages.len() > 0 {
        lemma_react_each_keeps_squads(state, messages.drop_last());
        react_each_keeps_wf(state, messages.drop_last());
        let before = state.react_each(messages.drop_last()).0;
        lemma_react_keeps_wf(before, messages.last(), before.frame_i);
        if let BattleStateMessageView::Soldier(i, m) = messages.last() {
            if i.0 < before.soldiers.len() {
                lemma_soldier_react(before.soldiers[i.0 as int], m);
            }
        }
    }
}

/// The side effects of a message for a soldier of a consistent state are
/// for that soldier.
proof fn lemma_effects_of(state: BattleStateView, message: BattleStateMessageView)
    requires
        state.wf(),
        message is Soldier,
    ensures
        all_for(state.side_effects(message), message->Soldier_0.0 as int),
{
    let i = message->Soldier_0;
    if i.0 < state.soldiers.len() {
        assert(state.soldiers[i.0 as int].uuid == i);
    }
}

/// Two messages for different soldiers of different squads give the same
/// state and the same side effects, these in the order of the messages,
/// whichever comes first.
proof fn lemma_pair(state: BattleStateView, first: BattleStateMessageView, second: BattleStateMessageView)
    requires
        state.wf(),
        disjoint_targets(state, first, second),
    ensures
        state.react_each(seq![first, second]).0 == state.react_each(seq![second, first]).0,
        state.react_each(seq![first, second]).1 == state.side_effects(first) + state.side_effects(
            second,
        ),
        state.react_each(seq![second, first]).1 == state.side_effects(second) + state.side_effects(
            first,
        ),
{
    let one = seq![first, second];
    let other = seq![second, first];
    assert(one.drop_last() =~= seq![first]);
    assert(seq![first].drop_last() =~= Seq::<BattleStateMessageView>::empty());
    assert(other.drop_last() =~= seq![second]);
    assert(seq![second].drop_last() =~= Seq::<BattleStateMessageView>::empty());
    assert(state.react_each(Seq::empty()) == (state, Seq::<SideEffectView>::empty()));
    let empty = Seq::<SideEffectView>::empty();
    assert(state.react_each(seq![first]) == (
        state.react(first, state.frame_i),
        empty + state.side_effects(first),
    ));
    assert(state.react_each(seq![second]) == (
        state.react(second, state.frame_i),
        empty + state.side_effects(second),
    ));
    assert(empty + state.side_effects(first) =~= state.side_effects(first));
    assert(empty + state.side_effects(second) =~= state.side_effects(second));
    let i = first->Soldier_0;
    let a = first->Soldier_1;
    let j = second->Soldier_0;
    let b = second->Soldier_1;
    let s1 = state.react(first, state.frame_i);
    let s2 = state.react(second, state.frame_i);
    assert(s1.frame_i == state.frame_i);
    assert(s2.frame_i == state.frame_i);
    lemma_react_keeps_wf(state, first, state.frame_i);
    lemma_react_keeps_wf(state, second, state.frame_i);
    // A message leaves the soldiers that it is not for as they are.
    if j.0 < state.soldiers.len() {
        assert(s1.soldiers[j.0 as int] == state.soldiers[j.0 as int]);
    }
    if i.0 < state.soldiers.len() {
        assert(s2.soldiers[i.0 as int] == state.soldiers[i.0 as int]);
    }
    assert(s1.side_effects(second) == state.side_effects(second));
    assert(s2.side_effects(first) == state.side_effects(first));
    lemma_react_commute(state, i, a, j, b);
}

/// The reactions to two messages for different soldiers of different squads
/// can be taken in either order.
proof fn lemma_react_commute(
    state: BattleStateView,
    i: SoldierIndex,
    a: SoldierMessageView,
    j: SoldierIndex,
    b: SoldierMessageView,
)
    requires
        state.wf(),
        disjoint_targets(
            state,
            BattleStateMessageView::Soldier(i, a),
            BattleStateMessageView::Soldier(j, b),
        ),
    ensures
        state.react(BattleStateMessageView::Soldier(i, a), state.frame_i).react(
            BattleStateMessageView::Soldier(j, b),
            state.frame_i,
        ) == state.react(BattleStateMessageView::Soldier(j, b), state.frame_i).react(
            BattleStateMessageView::Soldier(i, a),
            state.frame_i,
        ),
{
    let mi = BattleStateMessageView::Soldier(i, a);
    let mj = BattleStateMessageView::Soldier(j, b);
    let f = state.frame_i;
    let si = state.react(mi, f);
    let sj = state.react(mj, f);
    let sij = si.react(mj, f);
    let sji = sj.react(mi, f);
    if i.0 < state.soldiers.len() && j.0 < state.soldiers.len() {
        lemma_soldier_react(state.soldiers[i.0 as int], a);
        lemma_soldier_react(state.soldiers[j.0 as int], b);
        assert(sij.soldiers =~= sji.soldiers);
        let qi = state.soldiers[i.0 as int].squad_uuid.0 as int;
        let qj = state.soldiers[j.0 as int].squad_uuid.0 as int;
        assert(state.squad_ok(qi));
        assert(state.squad_ok(qj));
        lemma_leader_after(state, i, a, j, b);
        lemma_leader_after(state, j, b, i, a);
        assert(sij.squads =~= sji.squads);
    } else {
        assert(sij.soldiers =~= sji.soldiers);
        assert(sij.squads =~= sji.squads);
    }
}

/// The leader that the death of soldier `i` gives its squad does not depend
/// on a message for a soldier of another squad.
proof fn lemma_leader_after(
    state: BattleStateView,
    i: SoldierIndex,
    a: SoldierMessageView,
    j: SoldierIndex,
    b: SoldierMessageView,
)
    requires
        state.wf(),
        i != j,
        i.0 < state.soldiers.len(),
        j.0 < state.soldiers.len(),
        state.soldiers[i.0 as int].squad_uuid != state.soldiers[j.0 as int].squad_uuid,
    ensures
        ({
            let f = state.frame_i;
            let only_i = state.react(BattleStateMessageView::Soldier(i, a), f);
            let j_then_i = state.react(BattleStateMessageView::Soldier(j, b), f).react(
                BattleStateMessageView::Soldier(i, a),
                f,
            );
            let i_then_j = only_i.react(BattleStateMessageView::Soldier(j, b), f);
            let q = state.soldiers[i.0 as int].squad_uuid.0 as int;
            &&& j_then_i.squads.len() == state.squads.len()
            &&& i_then_j.squads.len() == state.squads.len()
            &&& j_then_i.squads[q] == only_i.squads[q]
            &&& i_then_j.squads[q] == only_i.squads[q]
            &&& forall|r: int|
                0 <= r < state.squads.len() && r != q && r != state.soldiers[j.0 as int].squad_uuid.0
                    ==> j_then_i.squads[r] == state.squads[r] && i_then_j.squads[r]
                    == state.squads[r]
        }),
{
    let f = state.frame_i;
    let mi = BattleStateMessageView::Soldier(i, a);
    let mj = BattleStateMessageView::Soldier(j, b);
    let only_i = state.react(mi, f);
    let after_j = state.react(mj, f);
    lemma_soldier_react(state.soldiers[i.0 as int], a);
    lemma_soldier_react(state.soldiers[j.0 as int], b);
    let q = state.soldiers[i.0 as int].squad_uuid.0 as int;
    assert(state.squad_ok(q));
    assert(after_j.squads[q] == state.squads[q]);
    assert(after_j.soldiers[i.0 as int] == state.soldiers[i.0 as int]);
    assert(only_i.soldiers[j.0 as int] == state.soldiers[j.0 as int]);
    if a == SoldierMessageView::SetAlive(false) {
        let squad = state.squads[q];
        let with_i = state.soldiers.update(i.0 as int, state.soldiers[i.0 as int].react(a));
        let with_ji = after_j.soldiers.update(i.0 as int, after_j.soldiers[i.0 as int].react(a));
        assert forall|k: int| 0 <= k < squad.members.len() implies alive_in(
            with_i,
            #[trigger] squad.members[k],
        ) == alive_in(with_ji, squad.members[k]) by {
            assert(squad.members[k].0 != j.0);
        }
        lemma_first_alive_frame(with_i, with_ji, squad.members, 0);
        if squad.members.contains(squad.leader) {
            let l = choose|l: int| 0 <= l < squad.members.len() && squad.members[l] == squad.leader;
            assert(alive_in(with_i, squad.members[l])
                == alive_in(with_ji, squad.members[l]));
        }
    }
}

/// Whether every message of the one list and every message of the other are
/// for different soldiers of different squads.
pub open spec fn disjoint_lists(
    state: BattleStateView,
    a: Seq<BattleStateMessageView>,
    b: Seq<BattleStateMessageView>,
) -> bool {
    forall|x: int, y: int|
        0 <= x < a.len() && 0 <= y < b.len() ==> disjoint_targets(state, #[trigger] a[x], #[trigger] b[y])
}

/// Whether `merged` holds the messages of `a` and those of `b`, each list in
/// its own order, mixed in any way.
pub open spec fn is_interleaving(
    merged: Seq<BattleStateMessageView>,
    a: Seq<BattleStateMessageView>,
    b: Seq<BattleStateMessageView>,
) -> bool
    decreases merged.len(),
{
    if merged.len() == 0 {
        a.len() == 0 && b.len() == 0
    } else {
        ||| (a.len() > 0 && merged.last() == a.last() && is_interleaving(
            merged.drop_last(),
            a.drop_last(),
            b,
        ))
        ||| (b.len() > 0 && merged.last() == b.last() && is_interleaving(
            merged.drop_last(),
            a,
            b.drop_last(),
        ))
    }
}

/// One list after the other is one way of mixing the two.
pub proof fn lemma_concat_interleaves(a: Seq<BattleStateMessageView>, b: Seq<BattleStateMessageView>)
    ensures
        is_interleaving(a + b, a, b),
        is_interleaving(b + a, a, b),
    decreases a.len() + b.len(),
{
    if a.len() > 0 {
        lemma_concat_interleaves(a.drop_last(), b);
        assert((b + a).drop_last() =~= b + a.drop_last());
        assert((b + a).last() == a.last());
    }
    if b.len() > 0 {
        lemma_concat_interleaves(a, b.drop_last());
        assert((a + b).drop_last() =~= a + b.drop_last());
        assert((a + b).last() == b.last());
    }
    if a.len() == 0 {
        assert(a + b =~= b);
        assert(b + a =~= b);
        if b.len() > 0 {
            assert(b.drop_last() + a =~= b.drop_last());
            assert(a + b.drop_last() =~= b.drop_last());
        }
    }
    if b.len() == 0 {
        assert(a + b =~= a);
        assert(b + a =~= a);
        if a.len() > 0 {
            assert(a.drop_last() + b =~= a.drop_last());
            assert(b + a.drop_last() =~= a.drop_last());
        }
    }
}

/// A message can move to the front of a run of messages that are all for
/// other soldiers of other squads.
proof fn lemma_move_over(
    state: BattleStateView,
    before: Seq<BattleStateMessageView>,
    run: Seq<BattleStateMessageView>,
    message: BattleStateMessageView,
    after: Seq<BattleStateMessageView>,
)
    requires
        state.wf(),
        forall|y: int| 0 <= y < run.len() ==> disjoint_targets(state, message, #[trigger] run[y]),
    ensures
        state.react_all(before + run + seq![message] + after) == state.react_all(
            before + seq![message] + run + after,
        ),
    decreases run.len(),
{
    if run.len() == 0 {
        assert(before + run + seq![message] + after =~= before + seq![message] + run + after);
    } else {
        let last = run.last();
        let rest = run.drop_last();
        assert(disjoint_targets(state, message, run[run.len() - 1]));
        assert(disjoint_targets(state, last, message));
        neighbours_in_batch_commute(state, before + rest, last, message, after);
        assert(before + run + seq![message] + after =~= (before + rest) + seq![last, message]
            + after);
        assert((before + rest) + seq![message, last] + after =~= before + rest + seq![message] + (
        seq![last] + after));
        assert forall|y: int| 0 <= y < rest.len() implies disjoint_targets(
            state,
            message,
            #[trigger] rest[y],
        ) by {
            assert(rest[y] == run[y]);
        }
        lemma_move_over(state, before, rest, message, seq![last] + after);
        assert(before + seq![message] + rest + (seq![last] + after) =~= before + seq![message]
            + run + after);
    }
}

proof fn lemma_interleaving(
    state: BattleStateView,
    merged: Seq<BattleStateMessageView>,
    a: Seq<BattleStateMessageView>,
    b: Seq<BattleStateMessageView>,
    after: Seq<BattleStateMessageView>,
)
    requires
        state.wf(),
        disjoint_lists(state, a, b),
        is_interleaving(merged, a, b),
    ensures
        state.react_all(merged + after) == state.react_all(a + b + after),
    decreases merged.len(),
{
    if merged.len() == 0 {
        assert(merged + after =~= a + b + after);
    } else if a.len() > 0 && merged.last() == a.last() && is_interleaving(
        merged.drop_last(),
        a.drop_last(),
        b,
    ) {
        let x = a.last();
        let rest = a.drop_last();
        assert forall|i: int, j: int| 0 <= i < rest.len() && 0 <= j < b.len() implies disjoint_targets(
            state,
            #[trigger] rest[i],
            #[trigger] b[j],
        ) by {
            assert(rest[i] == a[i]);
        }
        lemma_interleaving(state, merged.drop_last(), rest, b, seq![x] + after);
        assert(merged + after =~= merged.drop_last() + (seq![x] + after));
        assert(rest + b + (seq![x] + after) =~= rest + b + seq![x] + after);
        assert forall|y: int| 0 <= y < b.len() implies disjoint_targets(state, x, #[trigger] b[y]) by {
            assert(x == a[a.len() - 1]);
        }
        lemma_move_over(state, rest, b, x, after);
        assert(rest + seq![x] + b + after =~= a + b + after);
    } else {
        let y = b.last();
        let rest = b.drop_last();
        assert forall|i: int, j: int| 0 <= i < a.len() && 0 <= j < rest.len() implies disjoint_targets(
            state,
            #[trigger] a[i],
            #[trigger] rest[j],
        ) by {
            assert(rest[j] == b[j]);
        }
        lemma_interleaving(state, merged.drop_last(), a, rest, seq![y] + after);
        assert(merged + after =~= merged.drop_last() + (seq![y] + after));
        assert(a + rest + (seq![y] + after) =~= a + b + after);
    }
}

/// Two senders whose messages are for different soldiers of different
/// squads: however their messages are mixed in a batch, each sender's in its
/// own order, the battle ends up as if one sender's had all come first; in
/// particular the two lists can come in either order.
pub proof fn senders_with_disjoint_targets_commute(
    state: BattleStateView,
    a: Seq<BattleStateMessageView>,
    b: Seq<BattleStateMessageView>,
    merged: Seq<BattleStateMessageView>,
)
    requires
        state.wf(),
        disjoint_lists(state, a, b),
        is_interleaving(merged, a, b),
    ensures
        state.react_all(merged) == state.react_all(a + b),
        state.react_all(b + a) == state.react_all(a + b),
{
    let none = Seq::<BattleStateMessageView>::empty();
    lemma_interleaving(state, merged, a, b, none);
    assert(merged + none =~= merged);
    assert(a + b + none =~= a + b);
    lemma_concat_interleaves(a, b);
    lemma_interleaving(state, b + a, a, b, none);
    assert((b + a) + none =~= b + a);
}

} // verus!
