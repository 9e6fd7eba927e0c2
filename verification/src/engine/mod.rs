//! The observer: a replica of the battle, the state of its window, and what
//! turns the player's keys and mouse into messages.

pub mod animate;
pub mod debug;
pub mod event;
pub mod frame;
pub mod input;
pub mod message;
pub mod order;
pub mod pending;
pub mod react;
pub mod route;
pub mod state;
pub mod update;
pub mod utils;

use vstd::prelude::*;
use crate::config::ServerConfig;
use crate::engine::state::GuiState;
use crate::state::battle::BattleState;
use crate::ui::hud::Hud;

verus! {

/// An observer: the settings by which it foresees moves, its replica of the
/// battle, the state of its window and the layout of its HUD.
#[derive(Debug)]
pub struct Engine {
    pub config: ServerConfig,
    pub battle_state: BattleState,
    pub gui_state: GuiState,
    pub hud: Hud,
}

impl Engine {
    pub open spec fn wf(&self) -> bool {
        self.battle_state.wf()
    }

    pub fn new(config: ServerConfig, battle_state: BattleState, gui_state: GuiState, hud: Hud) -> (engine:
        Engine)
        ensures
            engine.config == config,
            engine.battle_state == battle_state,
            engine.gui_state == gui_state,
            engine.hud == hud,
    {
        Engine { config, battle_state, gui_state, hud }
    }
}

} // verus!
