//! Squads: ordered groups of soldiers under a leader.

use vstd::prelude::*;
use crate::types::{SoldierIndex, SquadUuid};

verus! {

/// An ordered list of soldier identities, one of them the leader.
#[derive(Debug)]
pub struct Squad {
    pub uuid: SquadUuid,
    pub leader: SoldierIndex,
    pub members: Vec<SoldierIndex>,
}

/// Mathematical value of a [`Squad`].
pub struct SquadView {
    pub uuid: SquadUuid,
    pub leader: SoldierIndex,
    pub members: Seq<SoldierIndex>,
}

impl View for Squad {
    type V = SquadView;

    open spec fn view(&self) -> SquadView {
        SquadView { uuid: self.uuid, leader: self.leader, members: self.members@ }
    }
}

impl Clone for Squad {
    fn clone(&self) -> (copy: Squad)
        ensures
            copy@ == self@,
    {
        let mut members: Vec<SoldierIndex> = Vec::new();
        let mut i: usize = 0;
        while i < self.members.len()
            invariant
                i <= self.members.len(),
                members@ == self.members@.subrange(0, i as int),
            decreases self.members.len() - i,
        {
            members.push(self.members[i]);
            i += 1;
        }
        assert(self.members@.subrange(0, i as int) == self.members@);
        Squad { uuid: self.uuid, leader: self.leader, members }
    }
}

impl Squad {
    pub fn uuid(&self) -> (uuid: SquadUuid)
        ensures
            uuid == self@.uuid,
    {
        self.uuid
    }

    pub fn leader(&self) -> (leader: SoldierIndex)
        ensures
            leader == self@.leader,
    {
        self.leader
    }

    pub fn members(&self) -> (members: &Vec<SoldierIndex>)
        ensures
            members@ == self@.members,
    {
        &self.members
    }

    /// The members but the leader, in the squad's order.
    pub fn subordinates(&self) -> (others: Vec<SoldierIndex>)
        ensures
            others@ == self@.members.filter(|m: SoldierIndex| m != self@.leader),
    {
        let mut others: Vec<SoldierIndex> = Vec::new();
        let mut i: usize = 0;
        let ghost keep = |m: SoldierIndex| m != self@.leader;
        while i < self.members.len()
            invariant
                i <= self.members.len(),
                keep == (|m: SoldierIndex| m != self@.leader),
                others@ == self.members@.subrange(0, i as int).filter(keep),
            decreases self.members.len() - i,
        {
            proof {
                let before = self.members@.subrange(0, i as int);
                let upto = self.members@.subrange(0, i + 1);
                assert(upto.drop_last() =~= before);
                reveal(Seq::filter);
            }
            if self.members[i] != self.leader {
                others.push(self.members[i]);
            }
            i += 1;
        }
        assert(self.members@.subrange(0, i as int) == self.members@);
        others
    }
}

} // verus!
