//! Applying a tick's messages to the battle.

use vstd::prelude::*;
use crate::runner::message::{views, RunnerMessage, RunnerMessageView};
use crate::runner::Runner;
use crate::state::battle::BattleStateView;
use crate::state::invariants::{lemma_apply_all_keeps, react_each_keeps_wf};
use crate::state::message::{BattleStateMessageView, SideEffect, SideEffectView};

verus! {

/// The changes to the battle among the messages of a tick, in order.
pub open spec fn battle_messages(messages: Seq<RunnerMessageView>) -> Seq<BattleStateMessageView>
    decreases messages.len(),
{
    if messages.len() == 0 {
        Seq::empty()
    } else {
        match messages.last() {
            RunnerMessageView::BattleState(m) => battle_messages(messages.drop_last()).push(m),
            _ => battle_messages(messages.drop_last()),
        }
    }
}

/// The mathematical values of a list of side effects.
pub open spec fn effect_views(effects: Seq<SideEffect>) -> Seq<SideEffectView> {
    effects.map_values(|e: SideEffect| e@)
}

impl Runner {
    /// Reacts to the changes of the battle among `messages`, in order, then
    /// carries out the side effects that they left. Notices to observers
    /// change nothing here.
    pub fn react(&mut self, messages: &Vec<RunnerMessage>)
        ensures
            final(self).config == old(self).config,
            final(self).battle_state@ == old(self).battle_state@.react_all(
                battle_messages(views(messages@)),
            ),
            old(self).wf() ==> final(self).wf(),
    {
        let ghost start = self.battle_state@;
        let mut side_effects: Vec<SideEffect> = Vec::new();
        let mut k: usize = 0;
        assert(views(messages@).subrange(0, 0) =~= Seq::empty());
        assert(effect_views(side_effects@) =~= Seq::empty());
        while k < messages.len()
            invariant
                k <= messages.len(),
                self.config == old(self).config,
                (self.battle_state@, effect_views(side_effects@)) == start.react_each(
                    battle_messages(views(messages@).subrange(0, k as int)),
                ),
            decreases messages.len() - k,
        {
            let ghost upto = views(messages@).subrange(0, k as int);
            let ghost next = views(messages@).subrange(0, k + 1);
            proof {
                assert(next.drop_last() =~= upto);
                assert(next.last() == messages@[k as int]@);
            }
            match &messages[k] {
                RunnerMessage::BattleState(state_message) => {
                    let ghost before = effect_views(side_effects@);
                    let frame_i: u64 = *self.battle_state.frame_i();
                    let mut effects = self.battle_state.react(state_message, frame_i);
                    let ghost added = effect_views(effects@);
                    side_effects.append(&mut effects);
                    proof {
                        assert(effect_views(side_effects@) =~= before + added);
                        assert(battle_messages(next).drop_last() =~= battle_messages(upto));
                    }
                },
                // These messages are for the observers alone.
                RunnerMessage::ClientsState(_) | RunnerMessage::ClientState(_, _) => {},
            }
            k += 1;
        }
        assert(views(messages@).subrange(0, k as int) =~= views(messages@));
        let ghost reacted = self.battle_state@;
        let ghost effects = effect_views(side_effects@);
        let mut e: usize = 0;
        assert(effects.subrange(0, 0) =~= Seq::empty());
        while e < side_effects.len()
            invariant
                e <= side_effects.len(),
                self.config == old(self).config,
                effects == effect_views(side_effects@),
                self.battle_state@ == reacted.apply_all(effects.subrange(0, e as int)),
            decreases side_effects.len() - e,
        {
            proof {
                assert(effects.subrange(0, e + 1).drop_last() =~= effects.subrange(0, e as int));
            }
            self.side_effect(&side_effects[e]);
            e += 1;
        }
        proof {
            assert(effects.subrange(0, e as int) =~= effects);
            if start.wf() {
                react_each_keeps_wf(start, battle_messages(views(messages@)));
                lemma_apply_all_keeps(reacted, effects);
            }
        }
    }

    /// Carries out a side effect on the battle.
    pub fn side_effect(&mut self, side_effect: &SideEffect)
        ensures
            final(self).config == old(self).config,
            final(self).battle_state@ == old(self).battle_state@.apply(side_effect@),
            old(self).wf() ==> final(self).wf(),
    {
        self.battle_state.apply_side_effect(side_effect);
    }
}

} // verus!
