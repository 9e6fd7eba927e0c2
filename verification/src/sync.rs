//! Snapshots of a battle, to seed an observer or to keep as a save.

use vstd::prelude::*;
use crate::state::battle::{BattleState, BattleStateView};

verus! {

/// A self-contained snapshot of a battle.
#[derive(Debug)]
pub struct BattleStateCopy {
    pub state: BattleState,
}

impl View for BattleStateCopy {
    type V = BattleStateView;

    open spec fn view(&self) -> BattleStateView {
        self.state@
    }
}

impl Clone for BattleStateCopy {
    fn clone(&self) -> (copy: BattleStateCopy)
        ensures
            copy@ == self@,
    {
        BattleStateCopy { state: self.state.clone() }
    }
}

impl BattleStateCopy {
    /// A snapshot of the battle as it is.
    pub fn from_state(state: &BattleState) -> (copy: BattleStateCopy)
        ensures
            copy@ == state@,
    {
        BattleStateCopy { state: state.clone() }
    }
}

impl BattleState {
    /// A snapshot of the battle as it is.
    pub fn copy(&self) -> (copy: BattleStateCopy)
        ensures
            copy@ == self@,
    {
        BattleStateCopy::from_state(self)
    }

    /// Replaces the whole battle by a snapshot. A snapshot taken of this
    /// battle brings it back as it was.
    pub fn load_from_copy(&mut self, copy: &BattleStateCopy)
        ensures
            final(self)@ == copy@,
    {
        *self = copy.state.clone();
    }
}

} // verus!
