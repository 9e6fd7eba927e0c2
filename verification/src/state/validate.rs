//! Checking a battle that comes from outside, such as a save.

use vstd::prelude::*;
use crate::state::battle::{alive_in, has_alive_member, BattleState};
use crate::sync::BattleStateCopy;

verus! {

impl BattleState {
    /// Whether the squad at position `q` is in order.
    fn squad_is_ok(&self, q: usize) -> (ok: bool)
        requires
            q < self.squads.len(),
        ensures
            ok == self@.squad_ok(q as int),
    {
        let squad = &self.squads[q];
        assert(squad@ == self@.squads[q as int]);
        if squad.uuid.0 != q {
            return false;
        }
        let mut has_alive: bool = false;
        let mut leader_is_member: bool = false;
        let mut k: usize = 0;
        while k < squad.members.len()
            invariant
                k <= squad.members.len(),
                q < self.squads.len(),
                squad@ == self@.squads[q as int],
                forall|j: int|
                    0 <= j < k ==> (#[trigger] squad@.members[j]).0 < self@.soldiers.len()
                        && self@.soldiers[squad@.members[j].0 as int].squad_uuid.0 == q,
                has_alive == exists|j: int|
                    0 <= j < k && alive_in(self@.soldiers, #[trigger] squad@.members[j]),
                leader_is_member == exists|j: int|
                    0 <= j < k && squad@.members[j] == squad@.leader,
            decreases squad.members.len() - k,
        {
            let member = squad.members[k];
            if member.0 >= self.soldiers.len() {
                return false;
            }
            let soldier = &self.soldiers[member.0];
            assert(soldier@ == self@.soldiers[member.0 as int]);
            if soldier.squad_uuid.0 != q {
                return false;
            }
            if soldier.alive() {
                has_alive = true;
            }
            if member == squad.leader {
                leader_is_member = true;
            }
            k += 1;
        }
        proof {
            assert(has_alive == has_alive_member(self@.soldiers, squad@));
            assert(leader_is_member == squad@.members.contains(squad@.leader));
        }
        if has_alive {
            let leader = squad.leader;
            if !leader_is_member || leader.0 >= self.soldiers.len() {
                return false;
            }
            assert(self.soldiers[leader.0 as int]@ == self@.soldiers[leader.0 as int]);
            self.soldiers[leader.0].alive()
        } else {
            true
        }
    }

    /// Whether the battle is consistent.
    pub fn is_wf(&self) -> (ok: bool)
        ensures
            ok == self.wf(),
    {
        if !self.map.is_wf() {
            return false;
        }
        let mut i: usize = 0;
        while i < self.soldiers.len()
            invariant
                i <= self.soldiers.len(),
                forall|j: int|
                    0 <= j < i ==> {
                        &&& (#[trigger] self@.soldiers[j]).uuid.0 == j
                        &&& self@.soldiers[j].wf()
                        &&& self@.soldiers[j].squad_uuid.0 < self@.squads.len()
                    },
            decreases self.soldiers.len() - i,
        {
            let soldier = &self.soldiers[i];
            assert(soldier@ == self@.soldiers[i as int]);
            if soldier.uuid.0 != i || !soldier.is_wf() || soldier.squad_uuid.0 >= self.squads.len() {
                return false;
            }
            i += 1;
        }
        let mut q: usize = 0;
        while q < self.squads.len()
            invariant
                q <= self.squads.len(),
                forall|j: int| 0 <= j < q ==> #[trigger] self@.squad_ok(j),
            decreases self.squads.len() - q,
        {
            if !self.squad_is_ok(q) {
                return false;
            }
            q += 1;
        }
        let mut v: usize = 0;
        while v < self.vehicles.len()
            invariant
                v <= self.vehicles.len(),
                forall|j: int| 0 <= j < v ==> (#[trigger] self@.vehicles[j]).uuid.0 == j,
            decreases self.vehicles.len() - v,
        {
            assert(self.vehicles[v as int]@ == self@.vehicles[v as int]);
            if self.vehicles[v].uuid.0 != v {
                return false;
            }
            v += 1;
        }
        let mut k: usize = 0;
        while k < self.soldier_on_board.len()
            invariant
                k <= self.soldier_on_board.len(),
                forall|j: int|
                    0 <= j < k ==> {
                        &&& (#[trigger] self@.soldier_on_board[j]).soldier.0 < self@.soldiers.len()
                        &&& self@.soldier_on_board[j].vehicle.0 < self@.vehicles.len()
                    },
            decreases self.soldier_on_board.len() - k,
        {
            let entry = self.soldier_on_board[k];
            if entry.soldier.0 >= self.soldiers.len() || entry.vehicle.0 >= self.vehicles.len() {
                return false;
            }
            k += 1;
        }
        true
    }

    /// The battle that a snapshot holds, if it is consistent.
    pub fn from_copy(copy: &BattleStateCopy) -> (state: Option<BattleState>)
        ensures
            match state {
                Some(s) => s@ == copy@ && s.wf(),
                None => !copy.state.wf(),
            },
    {
        if copy.state.is_wf() {
            Some(copy.state.clone())
        } else {
            None
        }
    }
}

} // verus!
