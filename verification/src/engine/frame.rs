//! One frame of the observer: what the player did is turned into messages,
//! and the messages for the window are carried out on the way.

use vstd::prelude::*;
use crate::config::ServerConfig;
use crate::engine::event::UIEvent;
use crate::engine::input::{player_inputs_messages, KeysPressed};
use crate::engine::message::{
    engine_views, EngineMessage, EngineMessageView, GuiStateMessageView,
};
use crate::engine::order::{preview_ok, ui_event_messages};
use crate::engine::state::GuiStateView;
use crate::engine::Engine;
use crate::state::battle::BattleStateView;

verus! {

/// The state of the window after the messages for the window among a list
/// have been carried out, in order.
pub open spec fn gui_after(state: GuiStateView, messages: Seq<EngineMessageView>) -> GuiStateView
    decreases messages.len(),
{
    if messages.len() == 0 {
        state
    } else {
        let before = gui_after(state, messages.drop_last());
        match messages.last() {
            EngineMessageView::GuiState(m) => before.react(m),
            _ => before,
        }
    }
}

/// The messages of a list that are not for the window, in order.
pub open spec fn outward(messages: Seq<EngineMessageView>) -> Seq<EngineMessageView>
    decreases messages.len(),
{
    if messages.len() == 0 {
        Seq::empty()
    } else {
        match messages.last() {
            EngineMessageView::GuiState(_) => outward(messages.drop_last()),
            m => outward(messages.drop_last()).push(m),
        }
    }
}

/// Whether `messages` are those of an event of the cursor, for the observer
/// as it stands.
#[verifier::opaque]
pub open spec fn event_messages_ok(
    battle: BattleStateView,
    state: GuiStateView,
    config: ServerConfig,
    event: UIEvent,
    messages: Seq<EngineMessageView>,
) -> bool {
    if event == UIEvent::DrawMovePaths {
        preview_ok(battle, state, messages)
    } else {
        messages == ui_event_messages(battle, state, config, event)
    }
}

/// The state of the window after the first `k` batches of messages.
pub open spec fn gui_through(
    state: GuiStateView,
    batches: Seq<Seq<EngineMessageView>>,
    k: int,
) -> GuiStateView
    decreases k,
{
    if k <= 0 {
        state
    } else {
        gui_after(gui_through(state, batches, k - 1), batches[k - 1])
    }
}

/// The outward messages of the first `k` batches.
pub open spec fn outward_through(batches: Seq<Seq<EngineMessageView>>, k: int) -> Seq<
    EngineMessageView,
>
    decreases k,
{
    if k <= 0 {
        Seq::empty()
    } else {
        outward_through(batches, k - 1) + outward(batches[k - 1])
    }
}

/// Whether `batches` are the messages of the events of a frame, one batch
/// for each event, each for the window as the batches before left it.
pub open spec fn events_digested(
    battle: BattleStateView,
    state: GuiStateView,
    config: ServerConfig,
    events: Seq<UIEvent>,
    batches: Seq<Seq<EngineMessageView>>,
) -> bool {
    &&& batches.len() == events.len()
    &&& forall|k: int|
        0 <= k < events.len() ==> event_messages_ok(
            battle,
            gui_through(state, batches, k),
            config,
            events[k],
            #[trigger] batches[k],
        )
}

/// The window's state at the start of the digestion of a frame's events:
/// the messages of the keys and of the stillness of the cursor are carried
/// out, and the events gathered are taken out.
pub open spec fn gui_before_events(state: GuiStateView, keys: KeysPressed) -> GuiStateView {
    GuiStateView {
        ui_events: Seq::empty(),
        ..gui_after(state, player_inputs_messages(state, keys))
    }
}

/// The events that a frame digests: those gathered before it, then the
/// stillness of the cursor.
pub open spec fn frame_events(state: GuiStateView, keys: KeysPressed) -> Seq<UIEvent> {
    gui_after(state, player_inputs_messages(state, keys)).ui_events
}

/// The window's state one frame later.
pub open spec fn next_frame(state: GuiStateView) -> GuiStateView {
    GuiStateView {
        frame_i: if state.frame_i == u64::MAX {
            0
        } else {
            (state.frame_i + 1) as u64
        },
        ..state
    }
}

/// Whether a frame of inputs went as `batches` tell: they are the messages
/// of the frame's events, the window ends up as they leave it, one frame
/// later, and `others` are the outward messages of the keys and of the
/// batches, in order.
pub open spec fn frame_ok(
    battle: BattleStateView,
    config: ServerConfig,
    state: GuiStateView,
    keys: KeysPressed,
    batches: Seq<Seq<EngineMessageView>>,
    after: GuiStateView,
    others: Seq<EngineMessageView>,
) -> bool {
    let start = gui_before_events(state, keys);
    let events = frame_events(state, keys);
    &&& events_digested(battle, start, config, events, batches)
    &&& after == next_frame(gui_through(start, batches, events.len() as int))
    &&& others == outward(player_inputs_messages(state, keys)) + outward_through(
        batches,
        events.len() as int,
    )
}

/// How far the digestion of a frame's events has come: `batches` are the
/// messages of the first `k` events, `gui` is the window as they leave it,
/// and `sent` are the outward messages so far, after those in `kept`.
#[verifier::opaque]
spec fn progress_ok(
    battle: BattleStateView,
    config: ServerConfig,
    start: GuiStateView,
    events: Seq<UIEvent>,
    batches: Seq<Seq<EngineMessageView>>,
    k: int,
    gui: GuiStateView,
    sent: Seq<EngineMessageView>,
    kept: Seq<EngineMessageView>,
) -> bool {
    &&& 0 <= k <= events.len()
    &&& batches.len() == k
    &&& forall|j: int|
        0 <= j < k ==> event_messages_ok(
            battle,
            gui_through(start, batches, j),
            config,
            events[j],
            #[trigger] batches[j],
        )
    &&& gui == gui_through(start, batches, k)
    &&& sent == kept + outward_through(batches, k)
}

proof fn lemma_progress_start(
    battle: BattleStateView,
    config: ServerConfig,
    start: GuiStateView,
    events: Seq<UIEvent>,
    kept: Seq<EngineMessageView>,
)
    ensures
        progress_ok(battle, config, start, events, Seq::empty(), 0, start, kept, kept),
{
    reveal(progress_ok);
    assert(kept + outward_through(Seq::empty(), 0) =~= kept);
}

proof fn lemma_progress_step(
    battle: BattleStateView,
    config: ServerConfig,
    start: GuiStateView,
    events: Seq<UIEvent>,
    before: Seq<Seq<EngineMessageView>>,
    k: int,
    gui: GuiStateView,
    sent: Seq<EngineMessageView>,
    kept: Seq<EngineMessageView>,
    batch: Seq<EngineMessageView>,
    gui_next: GuiStateView,
    sent_next: Seq<EngineMessageView>,
)
    requires
        progress_ok(battle, config, start, events, before, k, gui, sent, kept),
        k < events.len(),
        event_messages_ok(battle, gui, config, events[k], batch),
        gui_next == gui_after(gui, batch),
        sent_next == sent + outward(batch),
    ensures
        progress_ok(
            battle,
            config,
            start,
            events,
            before.push(batch),
            k + 1,
            gui_next,
            sent_next,
            kept,
        ),
{
    reveal(progress_ok);
    lemma_batches_extend(battle, config, start, events, before, batch, k);
    assert(sent_next =~= kept + outward_through(before.push(batch), k + 1));
}

proof fn lemma_progress_end(
    battle: BattleStateView,
    config: ServerConfig,
    start: GuiStateView,
    events: Seq<UIEvent>,
    batches: Seq<Seq<EngineMessageView>>,
    gui: GuiStateView,
    sent: Seq<EngineMessageView>,
    kept: Seq<EngineMessageView>,
)
    requires
        progress_ok(battle, config, start, events, batches, events.len() as int, gui, sent, kept),
    ensures
        events_digested(battle, start, config, events, batches),
        gui == gui_through(start, batches, events.len() as int),
        sent == kept + outward_through(batches, events.len() as int),
{
    reveal(progress_ok);
}

/// One more event digested keeps the batches in step with the events.
proof fn lemma_batches_extend(
    battle: BattleStateView,
    config: ServerConfig,
    start: GuiStateView,
    events: Seq<UIEvent>,
    before: Seq<Seq<EngineMessageView>>,
    batch: Seq<EngineMessageView>,
    k: int,
)
    requires
        0 <= k < events.len(),
        before.len() == k,
        forall|j: int|
            0 <= j < k ==> event_messages_ok(
                battle,
                gui_through(start, before, j),
                config,
                events[j],
                #[trigger] before[j],
            ),
        event_messages_ok(battle, gui_through(start, before, k), config, events[k], batch),
    ensures
        forall|j: int|
            0 <= j < k + 1 ==> event_messages_ok(
                battle,
                gui_through(start, before.push(batch), j),
                config,
                events[j],
                #[trigger] before.push(batch)[j],
            ),
        gui_through(start, before.push(batch), k + 1) == gui_after(
            gui_through(start, before, k),
            batch,
        ),
        outward_through(before.push(batch), k + 1) == outward_through(before, k) + outward(batch),
{
    let after = before.push(batch);
    lemma_gui_through_prefix(start, before, after, k);
    assert forall|j: int| 0 <= j < k + 1 implies event_messages_ok(
        battle,
        gui_through(start, after, j),
        config,
        events[j],
        #[trigger] after[j],
    ) by {
        lemma_gui_through_prefix(start, before, after, j);
        if j < k {
            assert(after[j] == before[j]);
        }
    }
}

/// The batches of the first events depend only on themselves.
proof fn lemma_gui_through_prefix(
    state: GuiStateView,
    a: Seq<Seq<EngineMessageView>>,
    b: Seq<Seq<EngineMessageView>>,
    k: int,
)
    requires
        0 <= k <= a.len(),
        k <= b.len(),
        forall|i: int| 0 <= i < k ==> a[i] == b[i],
    ensures
        gui_through(state, a, k) == gui_through(state, b, k),
        outward_through(a, k) == outward_through(b, k),
    decreases k,
{
    if k > 0 {
        lemma_gui_through_prefix(state, a, b, k - 1);
    }
}

impl Engine {
    /// Carries out the messages for the window, in order, and gives back the
    /// others: changes to send to the simulator, sounds, saves.
    pub fn consume_messages(&mut self, messages: Vec<EngineMessage>) -> (others: Vec<EngineMessage>)
        ensures
            final(self).config == old(self).config,
            final(self).battle_state == old(self).battle_state,
            final(self).hud == old(self).hud,
            final(self).gui_state@ == gui_after(old(self).gui_state@, engine_views(messages@)),
            engine_views(others@) == outward(engine_views(messages@)),
    {
        let ghost all = engine_views(messages@);
        let ghost start = self.gui_state@;
        let mut others: Vec<EngineMessage> = Vec::new();
        let mut messages = messages;
        let mut rest: Vec<EngineMessage> = Vec::new();
        // Taken from the back, the messages come into `rest` in reverse.
        let n: usize = messages.len();
        while messages.len() > 0
            invariant
                messages@.len() + rest@.len() == n,
                n == all.len(),
                forall|j: int| 0 <= j < messages@.len() ==> (#[trigger] messages@[j])@ == all[j],
                forall|j: int| 0 <= j < rest@.len() ==> (#[trigger] rest@[j])@ == all[n - 1 - j],
            decreases messages.len(),
        {
            let message = messages.pop().unwrap();
            rest.push(message);
        }
        let mut k: usize = 0;
        assert(engine_views(others@) =~= Seq::empty());
        assert(all.subrange(0, 0) =~= Seq::empty());
        while rest.len() > 0
            invariant
                k + rest@.len() == n,
                n == all.len(),
                self.config == old(self).config,
                self.battle_state == old(self).battle_state,
                self.hud == old(self).hud,
                forall|j: int| 0 <= j < rest@.len() ==> (#[trigger] rest@[j])@ == all[n - 1 - j],
                self.gui_state@ == gui_after(start, all.subrange(0, k as int)),
                engine_views(others@) == outward(all.subrange(0, k as int)),
            decreases rest.len(),
        {
            let ghost upto = all.subrange(0, k as int);
            let ghost next = all.subrange(0, k + 1);
            let ghost kept = engine_views(others@);
            let message = rest.pop().unwrap();
            proof {
                assert(message@ == all[k as int]);
                assert(next.drop_last() =~= upto);
                assert(next.last() == all[k as int]);
            }
            match message {
                EngineMessage::GuiState(change) => {
                    self.gui_state.react(&change);
                },
                other => {
                    others.push(other);
                    assert(engine_views(others@) =~= kept.push(all[k as int]));
                },
            }
            k += 1;
        }
        assert(all.subrange(0, k as int) =~= all);
        others
    }

    /// Digests one event of the cursor and carries out its messages for the
    /// window; gives back the others, with all the messages of the event.
    fn digest_and_consume(&mut self, event: &UIEvent) -> (out: (
        Vec<EngineMessage>,
        Ghost<Seq<EngineMessageView>>,
    ))
        requires
            old(self).wf(),
        ensures
            final(self).config == old(self).config,
            final(self).battle_state == old(self).battle_state,
            final(self).hud == old(self).hud,
            event_messages_ok(
                old(self).battle_state@,
                old(self).gui_state@,
                old(self).config,
                *event,
                out.1@,
            ),
            final(self).gui_state@ == gui_after(old(self).gui_state@, out.1@),
            engine_views(out.0@) == outward(out.1@),
    {
        let messages = self.digest_ui_event(event);
        let ghost batch = engine_views(messages@);
        proof {
            reveal(event_messages_ok);
        }
        let others = self.consume_messages(messages);
        (others, Ghost(batch))
    }

    /// One frame of the observer's inputs: the keys held down pan the
    /// scene, the stillness of the cursor is told, and the events gathered
    /// since the last frame are digested one by one, each on the window as
    /// the one before left it. The messages for the window are carried out
    /// on the way; the others are given back, in order. The frame counter
    /// steps.
    pub fn inputs(&mut self, keys: &KeysPressed) -> (others: Vec<EngineMessage>)
        requires
            old(self).wf(),
        ensures
            final(self).config == old(self).config,
            final(self).battle_state == old(self).battle_state,
            final(self).hud == old(self).hud,
            exists|batches: Seq<Seq<EngineMessageView>>|
                #[trigger] frame_ok(
                    old(self).battle_state@,
                    old(self).config,
                    old(self).gui_state@,
                    *keys,
                    batches,
                    final(self).gui_state@,
                    engine_views(others@),
                ),
    {
        let ghost battle = self.battle_state@;
        let first = self.collect_player_inputs(keys);
        let mut others = self.consume_messages(first);
        let events = self.gui_state.take_ui_events();
        let ghost start = self.gui_state@;
        let ghost kept = engine_views(others@);
        let ghost mut batches: Seq<Seq<EngineMessageView>> = Seq::empty();
        let mut k: usize = 0;
        proof {
            lemma_progress_start(battle, self.config, start, events@, kept);
        }
        while k < events.len()
            invariant
                k <= events.len(),
                old(self).wf(),
                self.config == old(self).config,
                self.battle_state == old(self).battle_state,
                self.hud == old(self).hud,
                battle == old(self).battle_state@,
                progress_ok(
                    battle,
                    self.config,
                    start,
                    events@,
                    batches,
                    k as int,
                    self.gui_state@,
                    engine_views(others@),
                    kept,
                ),
            decreases events.len() - k,
        {
            let ghost before = batches;
            let ghost gui = self.gui_state@;
            let ghost sent = engine_views(others@);
            let (more, Ghost(batch)) = self.digest_and_consume(&events[k]);
            crate::engine::message::extend_engine(&mut others, more);
            proof {
                batches = batches.push(batch);
                lemma_progress_step(
                    battle,
                    self.config,
                    start,
                    events@,
                    before,
                    k as int,
                    gui,
                    sent,
                    kept,
                    batch,
                    self.gui_state@,
                    engine_views(others@),
                );
            }
            k += 1;
        }
        proof {
            lemma_progress_end(
                battle,
                self.config,
                start,
                events@,
                batches,
                self.gui_state@,
                engine_views(others@),
                kept,
            );
        }
        self.gui_state.tick();
        proof {
            assert(frame_ok(
                battle,
                self.config,
                old(self).gui_state@,
                *keys,
                batches,
                self.gui_state@,
                engine_views(others@),
            ));
        }
        others
    }
}

} // verus!
