//! Keeping the replica in step with the simulator.

use vstd::prelude::*;
use crate::engine::message::{
    engine_views, push_engine, push_gui, EngineMessage, EngineMessageView, GuiStateMessage,
    GuiStateMessageView,
};
use crate::engine::Engine;
use crate::message::{OutputMessage, OutputMessageView};
use crate::runner::message::{ClientStateMessage, RunnerMessageView};
use crate::runner::react::{battle_messages, effect_views};
use crate::runner::tick::{forwarded, output_views};
use crate::state::battle::BattleStateView;
use crate::state::invariants::lemma_apply_all_keeps;
use crate::state::message::{SideEffect, SideEffectView};

verus! {

impl BattleStateView {
    /// The replica after each message from the simulator has been taken, in
    /// order, with the side effects gathered on the way. A whole battle sent
    /// takes the place of the replica, and of what was gathered.
    pub open spec fn observe_each(self, outputs: Seq<OutputMessageView>) -> (
        BattleStateView,
        Seq<SideEffectView>,
    )
        decreases outputs.len(),
    {
        if outputs.len() == 0 {
            (self, Seq::empty())
        } else {
            let (state, effects) = self.observe_each(outputs.drop_last());
            match outputs.last() {
                OutputMessageView::LoadFromCopy(copy) => (copy, Seq::empty()),
                OutputMessageView::BattleState(m) => (
                    state.react(m, state.frame_i),
                    effects + state.side_effects(m),
                ),
                OutputMessageView::ClientState(_) => (state, effects),
            }
        }
    }

    /// The replica after a batch of messages from the simulator: all are
    /// taken, then the side effects that they left are carried out.
    pub open spec fn observe_all(self, outputs: Seq<OutputMessageView>) -> BattleStateView {
        let (state, effects) = self.observe_each(outputs);
        state.apply_all(effects)
    }
}

/// Whether every whole battle in a batch is consistent.
pub open spec fn copies_wf(outputs: Seq<OutputMessageView>) -> bool {
    forall|k: int|
        0 <= k < outputs.len() ==> (#[trigger] outputs[k] matches OutputMessageView::LoadFromCopy(
            copy,
        ) ==> copy.wf())
}

/// A consistent replica stays consistent while it takes a batch in which
/// every whole battle is consistent.
pub proof fn observe_keeps_wf(state: BattleStateView, outputs: Seq<OutputMessageView>)
    requires
        state.wf(),
        copies_wf(outputs),
    ensures
        state.observe_each(outputs).0.wf(),
        state.observe_all(outputs).wf(),
    decreases outputs.len(),
{
    if outputs.len() > 0 {
        assert forall|k: int| 0 <= k < outputs.drop_last().len() implies (
        #[trigger] outputs.drop_last()[k] matches OutputMessageView::LoadFromCopy(copy)
            ==> copy.wf()) by {
            assert(outputs.drop_last()[k] == outputs[k]);
        }
        observe_keeps_wf(state, outputs.drop_last());
        let before = state.observe_each(outputs.drop_last()).0;
        match outputs.last() {
            OutputMessageView::BattleState(m) => {
                crate::state::battle::lemma_react_keeps_wf(before, m, before.frame_i);
            },
            OutputMessageView::LoadFromCopy(copy) => {
                assert(outputs[outputs.len() - 1] == outputs.last());
            },
            _ => {},
        }
    }
    let (reacted, effects) = state.observe_each(outputs);
    lemma_apply_all_keeps(reacted, effects);
}

/// What a notice from the simulator asks of the observer.
pub open spec fn notice_message(notice: ClientStateMessage) -> EngineMessageView {
    match notice {
        ClientStateMessage::PlayBattleSound(sound) => EngineMessageView::PlaySound(sound),
        ClientStateMessage::PushDebugPoint(point) => EngineMessageView::GuiState(
            GuiStateMessageView::PushDebugPoint(point),
        ),
    }
}

/// What the notices among a batch from the simulator ask of the observer.
pub open spec fn notices(outputs: Seq<OutputMessageView>) -> Seq<EngineMessageView>
    decreases outputs.len(),
{
    if outputs.len() == 0 {
        Seq::empty()
    } else {
        match outputs.last() {
            OutputMessageView::ClientState(notice) => notices(outputs.drop_last()).push(
                notice_message(notice),
            ),
            _ => notices(outputs.drop_last()),
        }
    }
}

/// A replica that takes what the simulator sends for the messages of a tick
/// goes through what the simulator's battle goes through.
pub proof fn replica_follows_simulator(state: BattleStateView, messages: Seq<RunnerMessageView>)
    ensures
        state.observe_each(forwarded(messages)) == state.react_each(battle_messages(messages)),
        state.observe_all(forwarded(messages)) == state.react_all(battle_messages(messages)),
    decreases messages.len(),
{
    if messages.len() > 0 {
        replica_follows_simulator(state, messages.drop_last());
        assert(forwarded(messages).drop_last() =~= forwarded(messages.drop_last()));
        match messages.last() {
            RunnerMessageView::BattleState(m) => {
                assert(battle_messages(messages).drop_last() =~= battle_messages(
                    messages.drop_last(),
                ));
            },
            _ => {},
        }
    }
}

/// A whole battle sent at the end of a batch is what the replica holds after
/// the batch.
pub proof fn replica_loads_copy(
    state: BattleStateView,
    outputs: Seq<OutputMessageView>,
    copy: BattleStateView,
)
    ensures
        state.observe_all(outputs.push(OutputMessageView::LoadFromCopy(copy))) == copy,
{
    let all = outputs.push(OutputMessageView::LoadFromCopy(copy));
    assert(all.drop_last() =~= outputs);
}

impl Engine {
    /// Takes a batch of messages from the simulator: the replica reacts to
    /// the changes as the simulator's battle did, a whole battle sent takes
    /// its place, and the notices come back as messages for the observer.
    pub fn react_outputs(&mut self, outputs: &Vec<OutputMessage>) -> (messages: Vec<EngineMessage>)
        ensures
            final(self).config == old(self).config,
            final(self).gui_state == old(self).gui_state,
            final(self).hud == old(self).hud,
            final(self).battle_state@ == old(self).battle_state@.observe_all(output_views(outputs@)),
            engine_views(messages@) == notices(output_views(outputs@)),
            old(self).wf() && copies_wf(output_views(outputs@)) ==> final(self).wf(),
    {
        let ghost start = self.battle_state@;
        proof {
            if start.wf() && copies_wf(output_views(outputs@)) {
                observe_keeps_wf(start, output_views(outputs@));
            }
        }
        let ghost all = output_views(outputs@);
        let mut messages: Vec<EngineMessage> = Vec::new();
        let mut side_effects: Vec<SideEffect> = Vec::new();
        let mut k: usize = 0;
        assert(all.subrange(0, 0) =~= Seq::empty());
        assert(effect_views(side_effects@) =~= Seq::empty());
        assert(engine_views(messages@) =~= Seq::empty());
        while k < outputs.len()
            invariant
                k <= outputs.len(),
                all == output_views(outputs@),
                self.config == old(self).config,
                self.gui_state == old(self).gui_state,
                self.hud == old(self).hud,
                (self.battle_state@, effect_views(side_effects@)) == start.observe_each(
                    all.subrange(0, k as int),
                ),
                engine_views(messages@) == notices(all.subrange(0, k as int)),
            decreases outputs.len() - k,
        {
            let ghost upto = all.subrange(0, k as int);
            let ghost next = all.subrange(0, k + 1);
            proof {
                assert(next.drop_last() =~= upto);
                assert(next.last() == outputs@[k as int]@);
            }
            match &outputs[k] {
                OutputMessage::LoadFromCopy(copy) => {
                    self.battle_state.load_from_copy(copy);
                    side_effects = Vec::new();
                    assert(effect_views(side_effects@) =~= Seq::empty());
                },
                OutputMessage::BattleState(state_message) => {
                    let ghost before = effect_views(side_effects@);
                    let frame_i: u64 = *self.battle_state.frame_i();
                    let mut effects = self.battle_state.react(state_message, frame_i);
                    let ghost added = effect_views(effects@);
                    side_effects.append(&mut effects);
                    assert(effect_views(side_effects@) =~= before + added);
                },
                OutputMessage::ClientState(notice) => {
                    match notice {
                        ClientStateMessage::PlayBattleSound(sound) => {
                            push_engine(&mut messages, EngineMessage::PlaySound(*sound));
                        },
                        ClientStateMessage::PushDebugPoint(point) => {
                            push_gui(&mut messages, GuiStateMessage::PushDebugPoint(*point));
                        },
                    }
                },
            }
            k += 1;
        }
        assert(all.subrange(0, k as int) =~= all);
        let ghost reacted = self.battle_state@;
        let ghost effects = effect_views(side_effects@);
        let mut e: usize = 0;
        assert(effects.subrange(0, 0) =~= Seq::empty());
        while e < side_effects.len()
            invariant
                e <= side_effects.len(),
                self.config == old(self).config,
                self.gui_state == old(self).gui_state,
                self.hud == old(self).hud,
                effects == effect_views(side_effects@),
                self.battle_state@ == reacted.apply_all(effects.subrange(0, e as int)),
            decreases side_effects.len() - e,
        {
            proof {
                assert(effects.subrange(0, e + 1).drop_last() =~= effects.subrange(0, e as int));
            }
            self.battle_state.apply_side_effect(&side_effects[e]);
            e += 1;
        }
        assert(effects.subrange(0, e as int) =~= effects);
        messages
    }
}

} // verus!
