//! The simulator: at each tick it turns inputs and the state of the battle
//! into messages, and reacts to them.

pub mod behavior;
pub mod engage;
pub mod formation;
pub mod laws;
pub mod message;
pub mod chance;
pub mod physics;
pub mod react;
pub mod tick;
pub mod update;
pub mod movement;

use vstd::prelude::*;
use crate::config::{ServerConfig, TARGET_CYCLE_DURATION_US};
use crate::state::battle::BattleState;

verus! {

/// The simulator: the settings and the battle it owns.
#[derive(Debug)]
pub struct Runner {
    pub config: ServerConfig,
    pub battle_state: BattleState,
}

/// Why the simulator stops.
#[derive(Clone, Copy, Debug, PartialEq, Eq, Structural)]
pub enum RunnerError {
    InputChannelClosed,
    OutputChannelClosed,
}

/// How long to wait before the next cycle, in microseconds, when `elapsed`
/// have passed since the last one began: what is missing to a full cycle,
/// and nothing when the cycle is already late.
pub open spec fn spec_sleep_duration(elapsed: u64) -> u64 {
    if elapsed > TARGET_CYCLE_DURATION_US {
        0
    } else {
        (TARGET_CYCLE_DURATION_US - elapsed) as u64
    }
}

impl RunnerError {
    /// The error as a line of text.
    pub fn message(&self) -> (text: &'static str)
        ensures
            text@ == match self {
                RunnerError::InputChannelClosed => "Input channel closed"@,
                RunnerError::OutputChannelClosed => "Output channel closed"@,
            },
    {
        match self {
            RunnerError::InputChannelClosed => "Input channel closed",
            RunnerError::OutputChannelClosed => "Output channel closed",
        }
    }
}

impl Runner {
    pub open spec fn wf(&self) -> bool {
        self.battle_state.wf()
    }

    pub fn new(config: ServerConfig, state: BattleState) -> (runner: Runner)
        ensures
            runner.config == config,
            runner.battle_state == state,
    {
        Runner { config, battle_state: state }
    }

    /// How long to wait before the next cycle, in microseconds.
    pub fn sleep_duration(elapsed: u64) -> (wait: u64)
        ensures
            wait == spec_sleep_duration(elapsed),
            wait + elapsed >= TARGET_CYCLE_DURATION_US,
            wait <= TARGET_CYCLE_DURATION_US,
    {
        if elapsed > TARGET_CYCLE_DURATION_US {
            0
        } else {
            TARGET_CYCLE_DURATION_US - elapsed
        }
    }
}

} // verus!
