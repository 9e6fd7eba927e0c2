//! Messages between observers and the simulator.

use vstd::prelude::*;
use crate::runner::message::ClientStateMessage;
use crate::state::battle::BattleStateView;
use crate::state::message::{BattleStateMessage, BattleStateMessageView};
use crate::sync::BattleStateCopy;

verus! {

/// What the link between an observer and the simulator says of itself.
#[derive(Clone, Copy, Debug, PartialEq, Eq, Structural)]
pub enum NetworkMessage {
    Acknowledge,
}

/// From an observer to the simulator.
#[derive(Debug)]
pub enum InputMessage {
    /// The observer asks for the whole battle.
    RequireCompleteSync,
    /// The observer asks for a change to the battle.
    BattleState(BattleStateMessage),
}

/// From the simulator to the observers.
#[derive(Debug)]
pub enum OutputMessage {
    /// The whole battle, to take the place of what the observer holds.
    LoadFromCopy(BattleStateCopy),
    /// A change that the battle went through.
    BattleState(BattleStateMessage),
    /// A notice that changes nothing in the battle.
    ClientState(ClientStateMessage),
}

/// Anything that travels between an observer and the simulator.
#[derive(Debug)]
pub enum Message {
    Input(InputMessage),
    Output(OutputMessage),
    Network(NetworkMessage),
}

/// Mathematical value of an [`InputMessage`].
pub enum InputMessageView {
    RequireCompleteSync,
    BattleState(BattleStateMessageView),
}

/// Mathematical value of an [`OutputMessage`].
pub enum OutputMessageView {
    LoadFromCopy(BattleStateView),
    BattleState(BattleStateMessageView),
    ClientState(ClientStateMessage),
}

/// Mathematical value of a [`Message`].
pub enum MessageView {
    Input(InputMessageView),
    Output(OutputMessageView),
    Network(NetworkMessage),
}

impl View for InputMessage {
    type V = InputMessageView;

    open spec fn view(&self) -> InputMessageView {
        match self {
            InputMessage::RequireCompleteSync => InputMessageView::RequireCompleteSync,
            InputMessage::BattleState(m) => InputMessageView::BattleState(m@),
        }
    }
}

impl View for OutputMessage {
    type V = OutputMessageView;

    open spec fn view(&self) -> OutputMessageView {
        match self {
            OutputMessage::LoadFromCopy(copy) => OutputMessageView::LoadFromCopy(copy@),
            OutputMessage::BattleState(m) => OutputMessageView::BattleState(m@),
            OutputMessage::ClientState(m) => OutputMessageView::ClientState(*m),
        }
    }
}

impl View for Message {
    type V = MessageView;

    open spec fn view(&self) -> MessageView {
        match self {
            Message::Input(m) => MessageView::Input(m@),
            Message::Output(m) => MessageView::Output(m@),
            Message::Network(m) => MessageView::Network(*m),
        }
    }
}

impl Clone for InputMessage {
    fn clone(&self) -> (copy: InputMessage)
        ensures
            copy@ == self@,
    {
        match self {
            InputMessage::RequireCompleteSync => InputMessage::RequireCompleteSync,
            InputMessage::BattleState(m) => InputMessage::BattleState(m.clone()),
        }
    }
}

impl Clone for OutputMessage {
    fn clone(&self) -> (copy: OutputMessage)
        ensures
            copy@ == self@,
    {
        match self {
            OutputMessage::LoadFromCopy(c) => OutputMessage::LoadFromCopy(c.clone()),
            OutputMessage::BattleState(m) => OutputMessage::BattleState(m.clone()),
            OutputMessage::ClientState(m) => OutputMessage::ClientState(*m),
        }
    }
}

impl Clone for Message {
    fn clone(&self) -> (copy: Message)
        ensures
            copy@ == self@,
    {
        match self {
            Message::Input(m) => Message::Input(m.clone()),
            Message::Output(m) => Message::Output(m.clone()),
            Message::Network(m) => Message::Network(*m),
        }
    }
}

} // verus!
