//! Messages of a tick: changes to the battle and notices to observers.

use vstd::prelude::*;
use crate::game::Sound;
use crate::state::message::{BattleStateMessage, BattleStateMessageView};
use crate::types::WorldPoint;

verus! {

/// A point to show for a while on an observer's debug overlay.
#[derive(Clone, Copy, Debug, PartialEq, Eq, Structural)]
pub struct DebugPoint {
    pub frame_i: u64,
    pub point: WorldPoint,
}

/// A notice for observers that changes nothing in the battle.
#[derive(Clone, Copy, Debug, PartialEq, Eq, Structural)]
pub enum ClientStateMessage {
    PlayBattleSound(Sound),
    PushDebugPoint(DebugPoint),
}

/// A message that the simulator hands itself during a tick.
#[derive(Debug)]
pub enum RunnerMessage {
    /// A change to the battle.
    BattleState(BattleStateMessage),
    /// A notice for every observer.
    ClientsState(ClientStateMessage),
    /// A notice for the observer of the given number.
    ClientState(usize, ClientStateMessage),
}

/// Mathematical value of a [`RunnerMessage`].
pub enum RunnerMessageView {
    BattleState(BattleStateMessageView),
    ClientsState(ClientStateMessage),
    ClientState(usize, ClientStateMessage),
}

impl View for RunnerMessage {
    type V = RunnerMessageView;

    open spec fn view(&self) -> RunnerMessageView {
        match self {
            RunnerMessage::BattleState(m) => RunnerMessageView::BattleState(m@),
            RunnerMessage::ClientsState(m) => RunnerMessageView::ClientsState(*m),
            RunnerMessage::ClientState(i, m) => RunnerMessageView::ClientState(*i, *m),
        }
    }
}

impl Clone for RunnerMessage {
    fn clone(&self) -> (copy: RunnerMessage)
        ensures
            copy@ == self@,
    {
        match self {
            RunnerMessage::BattleState(m) => RunnerMessage::BattleState(m.clone()),
            RunnerMessage::ClientsState(m) => RunnerMessage::ClientsState(*m),
            RunnerMessage::ClientState(i, m) => RunnerMessage::ClientState(*i, *m),
        }
    }
}

/// The mathematical values of a list of messages.
pub open spec fn views(messages: Seq<RunnerMessage>) -> Seq<RunnerMessageView> {
    messages.map_values(|m: RunnerMessage| m@)
}

/// Appends the messages of `more` to `messages`.
pub fn extend(messages: &mut Vec<RunnerMessage>, more: Vec<RunnerMessage>)
    ensures
        views(final(messages)@) == views(old(messages)@) + views(more@),
{
    let mut more = more;
    let ghost added = more@;
    let ghost before = messages@;
    messages.append(&mut more);
    assert(views(messages@) =~= views(before) + views(added));
}

} // verus!
