//! One cycle of the simulator.

use vstd::prelude::*;
use crate::config::ServerConfig;
use crate::message::{InputMessage, InputMessageView, OutputMessage, OutputMessageView};
use crate::runner::behavior::behavior_messages;
use crate::runner::message::{extend, views, RunnerMessage, RunnerMessageView};
use crate::runner::physics::explosion::{explosions_messages_upto, rolls_cover, BlastRolls};
use crate::runner::physics::fire::{fires_messages_upto, shots_cover, FireRolls};
use crate::runner::react::battle_messages;
use crate::runner::update::update_messages;
use crate::runner::Runner;
use crate::state::battle::BattleStateView;
use crate::state::message::{BattleStateMessage, BattleStateMessageView};
use crate::types::SoldierIndex;

verus! {

/// The changes that observers ask for, in the order in which they came.
pub open spec fn input_messages(inputs: Seq<InputMessageView>) -> Seq<RunnerMessageView>
    decreases inputs.len(),
{
    if inputs.len() == 0 {
        Seq::empty()
    } else {
        input_messages(inputs.drop_last()) + match inputs.last() {
            InputMessageView::BattleState(m) => seq![RunnerMessageView::BattleState(m)],
            InputMessageView::RequireCompleteSync => Seq::empty(),
        }
    }
}

/// Whether an observer asks for the whole battle.
pub open spec fn sync_required(inputs: Seq<InputMessageView>) -> bool {
    exists|k: int| 0 <= k < inputs.len() && #[trigger] inputs[k] is RequireCompleteSync
}

/// The messages of the tick of the first `k` soldiers: for each its
/// behavior, then its update.
pub open spec fn soldiers_messages_upto(state: BattleStateView, config: ServerConfig, k: int) -> Seq<
    RunnerMessageView,
>
    decreases k,
{
    if k <= 0 {
        Seq::empty()
    } else {
        soldiers_messages_upto(state, config, k - 1) + behavior_messages(
            state,
            config,
            SoldierIndex((k - 1) as usize),
        ) + update_messages(config, state.soldiers[k - 1])
    }
}

/// The messages that take away, among the first `k` explosions, those that
/// are over.
pub open spec fn finished_explosions_upto(state: BattleStateView, k: int) -> Seq<RunnerMessageView>
    decreases k,
{
    if k <= 0 {
        Seq::empty()
    } else {
        finished_explosions_upto(state, k - 1) + if state.explosions[k - 1].spec_finished(
            state.frame_i,
        ) {
            seq![
                RunnerMessageView::BattleState(
                    BattleStateMessageView::RemoveExplosion(state.explosions[k - 1]),
                ),
            ]
        } else {
            Seq::empty()
        }
    }
}

/// The messages that take away, among the first `k` projectiles, those that
/// are over.
pub open spec fn finished_projectiles_upto(state: BattleStateView, k: int) -> Seq<RunnerMessageView>
    decreases k,
{
    if k <= 0 {
        Seq::empty()
    } else {
        finished_projectiles_upto(state, k - 1) + if state.projectiles[k - 1].spec_finished(
            state.frame_i,
        ) {
            seq![
                RunnerMessageView::BattleState(
                    BattleStateMessageView::RemoveProjectile(state.projectiles[k - 1]),
                ),
            ]
        } else {
            Seq::empty()
        }
    }
}

/// The chance drawn in a tick: that of each shot and that of each soldier
/// in each explosion.
pub struct TickRolls {
    pub shots: Seq<FireRolls>,
    pub blasts: Seq<Seq<BlastRolls>>,
}

/// Whether the chance of a tick covers every shot and every blast.
pub open spec fn tick_rolls_cover(state: BattleStateView, rolls: TickRolls) -> bool {
    shots_cover(state, rolls.shots) && rolls_cover(state, rolls.blasts)
}

/// All the messages of a tick, for the chance drawn in it: what the
/// observers ask for, the tick of each soldier, the fire, the explosions in
/// effect, the events that are over, and the step to the next frame.
pub open spec fn tick_messages(
    state: BattleStateView,
    config: ServerConfig,
    inputs: Seq<InputMessageView>,
    rolls: TickRolls,
) -> Seq<RunnerMessageView> {
    input_messages(inputs) + soldiers_messages_upto(state, config, state.soldiers.len() as int)
        + fires_messages_upto(state, config, rolls.shots, state.soldiers.len() as int)
        + explosions_messages_upto(state, config, rolls.blasts, state.explosions.len() as int)
        + finished_explosions_upto(state, state.explosions.len() as int)
        + finished_projectiles_upto(state, state.projectiles.len() as int)
        + seq![RunnerMessageView::BattleState(BattleStateMessageView::IncrementFrameI)]
}

/// What goes out to the observers for the messages of a tick: every change
/// to the battle and every notice, in order.
pub open spec fn forwarded(messages: Seq<RunnerMessageView>) -> Seq<OutputMessageView> {
    Seq::new(
        messages.len(),
        |k: int|
            match messages[k] {
                RunnerMessageView::BattleState(m) => OutputMessageView::BattleState(m),
                RunnerMessageView::ClientsState(m) => OutputMessageView::ClientState(m),
                RunnerMessageView::ClientState(_, m) => OutputMessageView::ClientState(m),
            },
    )
}

/// What goes out after a tick: the tick's messages, then, when an observer
/// asked for it, the whole battle as the tick left it.
pub open spec fn tick_outputs(
    after: BattleStateView,
    inputs: Seq<InputMessageView>,
    messages: Seq<RunnerMessageView>,
) -> Seq<OutputMessageView> {
    forwarded(messages) + if sync_required(inputs) {
        seq![OutputMessageView::LoadFromCopy(after)]
    } else {
        Seq::empty()
    }
}

/// The mathematical values of a list of inputs.
pub open spec fn input_views(inputs: Seq<InputMessage>) -> Seq<InputMessageView> {
    inputs.map_values(|m: InputMessage| m@)
}

/// The mathematical values of a list of outputs.
pub open spec fn output_views(outputs: Seq<OutputMessage>) -> Seq<OutputMessageView> {
    outputs.map_values(|m: OutputMessage| m@)
}

impl Runner {
    /// The changes that observers ask for, and whether one of them asks for
    /// the whole battle.
    pub fn inputs(&self, inputs: &Vec<InputMessage>) -> (out: (Vec<RunnerMessage>, bool))
        ensures
            views(out.0@) == input_messages(input_views(inputs@)),
            out.1 == sync_required(input_views(inputs@)),
    {
        let mut messages: Vec<RunnerMessage> = Vec::new();
        let mut sync: bool = false;
        let mut k: usize = 0;
        assert(views(messages@) =~= Seq::empty());
        assert(input_views(inputs@).subrange(0, 0) =~= Seq::empty());
        while k < inputs.len()
            invariant
                k <= inputs.len(),
                views(messages@) == input_messages(input_views(inputs@).subrange(0, k as int)),
                sync == sync_required(input_views(inputs@).subrange(0, k as int)),
            decreases inputs.len() - k,
        {
            let ghost upto = input_views(inputs@).subrange(0, k as int);
            let ghost next = input_views(inputs@).subrange(0, k + 1);
            let ghost before = views(messages@);
            proof {
                assert(next.drop_last() =~= upto);
                assert(next.last() == inputs@[k as int]@);
            }
            match &inputs[k] {
                InputMessage::RequireCompleteSync => {
                    sync = true;
                    proof {
                        assert(next[k as int] is RequireCompleteSync);
                        assert(views(messages@) =~= before + Seq::empty());
                    }
                },
                InputMessage::BattleState(m) => {
                    messages.push(RunnerMessage::BattleState(m.clone()));
                    proof {
                        assert(views(messages@) =~= before + seq![
                            RunnerMessageView::BattleState(m@),
                        ]);
                        if sync_required(next) {
                            let w = choose|w: int|
                                0 <= w < next.len() && #[trigger] next[w] is RequireCompleteSync;
                            assert(upto[w] is RequireCompleteSync);
                        }
                        if sync_required(upto) {
                            let w = choose|w: int|
                                0 <= w < upto.len() && #[trigger] upto[w] is RequireCompleteSync;
                            assert(next[w] is RequireCompleteSync);
                        }
                    }
                },
            }
            k += 1;
        }
        assert(input_views(inputs@).subrange(0, k as int) =~= input_views(inputs@));
        (messages, sync)
    }

    /// The messages of the tick of every soldier, in order.
    pub fn tick_soldiers(&self) -> (messages: Vec<RunnerMessage>)
        requires
            self.wf(),
        ensures
            views(messages@) == soldiers_messages_upto(
                self.battle_state@,
                self.config,
                self.battle_state@.soldiers.len() as int,
            ),
    {
        let mut messages: Vec<RunnerMessage> = Vec::new();
        let mut k: usize = 0;
        assert(views(messages@) =~= Seq::empty());
        while k < self.battle_state.soldiers.len()
            invariant
                k <= self.battle_state.soldiers.len(),
                self.wf(),
                views(messages@) == soldiers_messages_upto(
                    self.battle_state@,
                    self.config,
                    k as int,
                ),
            decreases self.battle_state.soldiers.len() - k,
        {
            let soldier = &self.battle_state.soldiers[k];
            assert(soldier@ == self.battle_state@.soldiers[k as int]);
            assert(soldier@.uuid == SoldierIndex(k));
            let ghost before = views(messages@);
            extend(&mut messages, self.soldier_behavior(soldier));
            extend(&mut messages, self.soldier_update(SoldierIndex(k)));
            k += 1;
        }
        messages
    }

    /// The messages that take away the events that are over.
    pub fn tick_finished(&self) -> (messages: Vec<RunnerMessage>)
        ensures
            views(messages@) == finished_explosions_upto(
                self.battle_state@,
                self.battle_state@.explosions.len() as int,
            ) + finished_projectiles_upto(
                self.battle_state@,
                self.battle_state@.projectiles.len() as int,
            ),
    {
        let ghost state = self.battle_state@;
        let frame_i: u64 = self.battle_state.frame_i;
        let mut messages: Vec<RunnerMessage> = Vec::new();
        let mut k: usize = 0;
        assert(views(messages@) =~= Seq::empty());
        while k < self.battle_state.explosions.len()
            invariant
                k <= self.battle_state.explosions.len(),
                state == self.battle_state@,
                frame_i == state.frame_i,
                views(messages@) == finished_explosions_upto(state, k as int),
            decreases self.battle_state.explosions.len() - k,
        {
            let explosion = self.battle_state.explosions[k];
            let ghost before = views(messages@);
            if explosion.finished(frame_i) {
                messages.push(RunnerMessage::BattleState(BattleStateMessage::RemoveExplosion(explosion)));
                assert(views(messages@) =~= before + seq![
                    RunnerMessageView::BattleState(BattleStateMessageView::RemoveExplosion(explosion)),
                ]);
            } else {
                assert(views(messages@) =~= before + Seq::empty());
            }
            k += 1;
        }
        let ghost first = views(messages@);
        let mut k: usize = 0;
        assert(views(messages@) =~= first + Seq::empty());
        while k < self.battle_state.projectiles.len()
            invariant
                k <= self.battle_state.projectiles.len(),
                state == self.battle_state@,
                frame_i == state.frame_i,
                views(messages@) == first + finished_projectiles_upto(state, k as int),
            decreases self.battle_state.projectiles.len() - k,
        {
            let projectile = self.battle_state.projectiles[k];
            let ghost before = views(messages@);
            if projectile.finished(frame_i) {
                messages.push(
                    RunnerMessage::BattleState(BattleStateMessage::RemoveProjectile(projectile)),
                );
                assert(views(messages@) =~= before + seq![
                    RunnerMessageView::BattleState(
                        BattleStateMessageView::RemoveProjectile(projectile),
                    ),
                ]);
            } else {
                assert(views(messages@) =~= before + Seq::empty());
            }
            k += 1;
        }
        messages
    }

    /// What goes out to the observers for the messages of a tick.
    pub fn outputs(messages: &Vec<RunnerMessage>) -> (outputs: Vec<OutputMessage>)
        ensures
            output_views(outputs@) == forwarded(views(messages@)),
    {
        let mut outputs: Vec<OutputMessage> = Vec::new();
        let mut k: usize = 0;
        while k < messages.len()
            invariant
                k <= messages.len(),
                outputs.len() == k,
                forall|j: int|
                    0 <= j < k ==> (#[trigger] outputs[j])@ == forwarded(views(messages@))[j],
            decreases messages.len() - k,
        {
            let output = match &messages[k] {
                RunnerMessage::BattleState(m) => OutputMessage::BattleState(m.clone()),
                RunnerMessage::ClientsState(m) => OutputMessage::ClientState(*m),
                RunnerMessage::ClientState(_, m) => OutputMessage::ClientState(*m),
            };
            outputs.push(output);
            k += 1;
        }
        assert(output_views(outputs@) =~= forwarded(views(messages@)));
        outputs
    }

    /// One cycle: the messages of the tick are gathered from the battle as
    /// it stands, the battle reacts to them, and they go out to the
    /// observers, followed by the whole battle when one of them asked for
    /// it. Chance is drawn in the fire and in the explosions; the messages
    /// are those of the tick for some such draw.
    pub fn tick(&mut self, inputs: &Vec<InputMessage>) -> (outputs: Vec<OutputMessage>)
        requires
            old(self).wf(),
        ensures
            final(self).wf(),
            final(self).config == old(self).config,
            exists|rolls: TickRolls|
                {
                    let messages = #[trigger] tick_messages(
                        old(self).battle_state@,
                        old(self).config,
                        input_views(inputs@),
                        rolls,
                    );
                    &&& tick_rolls_cover(old(self).battle_state@, rolls)
                    &&& final(self).battle_state@ == old(self).battle_state@.react_all(
                        battle_messages(messages),
                    )
                    &&& output_views(outputs@) == tick_outputs(
                        final(self).battle_state@,
                        input_views(inputs@),
                        messages,
                    )
                },
    {
        let ghost state = self.battle_state@;
        let (mut messages, sync) = self.inputs(inputs);
        extend(&mut messages, self.tick_soldiers());
        let ghost upto_soldiers = views(messages@);
        let fires = self.tick_fires();
        let ghost shots = choose|shots: Seq<FireRolls>|
            shots_cover(state, shots) && views(fires@) == #[trigger] fires_messages_upto(
                state,
                self.config,
                shots,
                state.soldiers.len() as int,
            );
        extend(&mut messages, fires);
        let blasts_messages = self.tick_explosions();
        let ghost blasts = choose|blasts: Seq<Seq<BlastRolls>>|
            rolls_cover(state, blasts) && views(blasts_messages@)
                == #[trigger] explosions_messages_upto(
                state,
                self.config,
                blasts,
                state.explosions.len() as int,
            );
        extend(&mut messages, blasts_messages);
        extend(&mut messages, self.tick_finished());
        let ghost before = views(messages@);
        messages.push(RunnerMessage::BattleState(BattleStateMessage::IncrementFrameI));
        let ghost rolls = TickRolls { shots, blasts };
        proof {
            assert(views(messages@) =~= before + seq![
                RunnerMessageView::BattleState(BattleStateMessageView::IncrementFrameI),
            ]);
            assert(views(messages@) =~= tick_messages(
                state,
                old(self).config,
                input_views(inputs@),
                rolls,
            ));
            assert(tick_rolls_cover(state, rolls));
        }
        self.react(&messages);
        let mut outputs = Runner::outputs(&messages);
        let ghost sent = output_views(outputs@);
        if sync {
            outputs.push(OutputMessage::LoadFromCopy(self.battle_state.copy()));
            assert(output_views(outputs@) =~= sent + seq![
                OutputMessageView::LoadFromCopy(self.battle_state@),
            ]);
        } else {
            assert(output_views(outputs@) =~= sent + Seq::empty());
        }
        outputs
    }
}

} // verus!
