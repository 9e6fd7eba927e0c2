//! Finding the opponent that a soldier engages.

use vstd::prelude::*;
use crate::config::VisibilityConfig;
use crate::entity::soldier::{Soldier, SoldierView};
use crate::physics::visibility::{in_sight, is_visible};
use crate::runner::Runner;
use crate::game::Side;
use crate::state::battle::{BattleState, BattleStateView};
use crate::types::{sq_dist, SoldierIndex, SquadUuid};

verus! {

/// Whether soldier `j` is one that the observer could engage: alive, of
/// another side, in sight, and of the given squad where one is given.
pub open spec fn is_candidate(
    state: BattleStateView,
    config: VisibilityConfig,
    observer: SoldierView,
    restrict: Option<SquadUuid>,
    j: int,
) -> bool {
    &&& 0 <= j < state.soldiers.len()
    &&& state.soldiers[j].alive()
    &&& state.soldiers[j].side != observer.side
    &&& (restrict matches Some(squad) ==> state.soldiers[j].squad_uuid == squad)
    &&& in_sight(state.map, config, observer.world_point, state.soldiers[j].world_point)
}

/// Whether soldier `j` comes before soldier `k` as an opponent: it is
/// nearer, or as near and earlier in the list.
pub open spec fn comes_before(state: BattleStateView, observer: SoldierView, j: int, k: int) -> bool {
    let dj = sq_dist(observer.world_point, state.soldiers[j].world_point);
    let dk = sq_dist(observer.world_point, state.soldiers[k].world_point);
    dj < dk || (dj == dk && j <= k)
}

/// Whether soldier `j` is the opponent to engage: a candidate that comes
/// before every other.
pub open spec fn is_nearest_candidate(
    state: BattleStateView,
    config: VisibilityConfig,
    observer: SoldierView,
    restrict: Option<SquadUuid>,
    j: int,
) -> bool {
    &&& is_candidate(state, config, observer, restrict, j)
    &&& forall|k: int| #[trigger]
        is_candidate(state, config, observer, restrict, k) ==> comes_before(state, observer, j, k)
}

/// The opponent that a soldier engages: the nearest living soldier of
/// another side in its sight, the earliest in the list among equally near
/// ones; none when no such soldier is in sight.
pub open spec fn opponent_of(
    state: BattleStateView,
    config: VisibilityConfig,
    observer: SoldierView,
    restrict: Option<SquadUuid>,
) -> Option<SoldierIndex> {
    if exists|j: int| is_nearest_candidate(state, config, observer, restrict, j) {
        Some(
            SoldierIndex(
                (choose|j: int| is_nearest_candidate(state, config, observer, restrict, j)) as usize,
            ),
        )
    } else {
        None
    }
}

/// At most one soldier is the nearest candidate.
pub proof fn lemma_nearest_candidate_unique(
    state: BattleStateView,
    config: VisibilityConfig,
    observer: SoldierView,
    restrict: Option<SquadUuid>,
    j: int,
    k: int,
)
    requires
        is_nearest_candidate(state, config, observer, restrict, j),
        is_nearest_candidate(state, config, observer, restrict, k),
    ensures
        j == k,
{
    assert(comes_before(state, observer, j, k));
    assert(comes_before(state, observer, k, j));
}

/// Whether soldier `j` is seen by a side: one of the side's soldiers who can
/// act has it in sight as an opponent.
pub open spec fn seen_by_side(
    state: BattleStateView,
    config: VisibilityConfig,
    side: Side,
    j: int,
) -> bool {
    exists|i: int|
        0 <= i < state.soldiers.len() && #[trigger] watches(state, config, side, i, j)
}

/// Whether soldier `i` is a soldier of the side who can act and has soldier
/// `j` in sight as an opponent.
pub open spec fn watches(
    state: BattleStateView,
    config: VisibilityConfig,
    side: Side,
    i: int,
    j: int,
) -> bool {
    &&& 0 <= i < state.soldiers.len()
    &&& state.soldiers[i].side == side
    &&& state.soldiers[i].able()
    &&& is_candidate(state, config, state.soldiers[i], None, j)
}

/// The opponents among the first `k` soldiers that a side sees, in order.
pub open spec fn visible_opponents_upto(
    state: BattleStateView,
    config: VisibilityConfig,
    side: Side,
    k: int,
) -> Seq<SoldierIndex>
    decreases k,
{
    if k <= 0 {
        Seq::empty()
    } else if seen_by_side(state, config, side, k - 1) {
        visible_opponents_upto(state, config, side, k - 1).push(SoldierIndex((k - 1) as usize))
    } else {
        visible_opponents_upto(state, config, side, k - 1)
    }
}

/// The opponents that a side sees: every living soldier of another side
/// that one of the side's soldiers who can act has in sight. Those out of
/// sight are left out.
pub fn visible_opponents(state: &BattleState, config: &VisibilityConfig, side: &Side) -> (seen: Vec<
    SoldierIndex,
>)
    ensures
        seen@ == visible_opponents_upto(state@, *config, *side, state@.soldiers.len() as int),
{
    let mut seen: Vec<SoldierIndex> = Vec::new();
    let mut j: usize = 0;
    while j < state.soldiers.len()
        invariant
            j <= state.soldiers.len(),
            seen@ == visible_opponents_upto(state@, *config, *side, j as int),
        decreases state.soldiers.len() - j,
    {
        let target = &state.soldiers[j];
        assert(target@ == state@.soldiers[j as int]);
        let mut found: bool = false;
        if target.alive() && target.side != *side {
            let mut i: usize = 0;
            while i < state.soldiers.len() && !found
                invariant
                    i <= state.soldiers.len(),
                    j < state.soldiers.len(),
                    target@ == state@.soldiers[j as int],
                    target@.alive(),
                    target@.side != *side,
                    found ==> seen_by_side(state@, *config, *side, j as int),
                    !found ==> forall|w: int|
                        0 <= w < i ==> !#[trigger] watches(state@, *config, *side, w, j as int),
                decreases state.soldiers.len() - i,
            {
                let observer = &state.soldiers[i];
                assert(observer@ == state@.soldiers[i as int]);
                if observer.side == *side && observer.able() && is_visible(
                    config,
                    observer.world_point,
                    target.world_point,
                    &state.map,
                ) {
                    found = true;
                    assert(watches(state@, *config, *side, i as int, j as int));
                }
                i += 1;
            }
        } else {
            assert(forall|w: int| !#[trigger] watches(state@, *config, *side, w, j as int));
        }
        if found {
            seen.push(SoldierIndex(j));
        }
        j += 1;
    }
    seen
}

impl Runner {
    /// The opponents that a side sees.
    pub fn visible_opponents(&self, side: &Side) -> (seen: Vec<SoldierIndex>)
        ensures
            seen@ == visible_opponents_upto(
                self.battle_state@,
                self.config.visibility,
                *side,
                self.battle_state@.soldiers.len() as int,
            ),
    {
        visible_opponents(&self.battle_state, &self.config.visibility, side)
    }

    /// The opponent that the soldier engages, among all soldiers or among
    /// those of one squad: the nearest living soldier of another side in its
    /// sight.
    pub fn get_soldier_opponent(&self, soldier: &Soldier, squad_index: Option<&SquadUuid>) -> (opponent:
        Option<SoldierIndex>)
        ensures
            opponent == opponent_of(
                self.battle_state@,
                self.config.visibility,
                soldier@,
                match squad_index {
                    Some(q) => Some(*q),
                    None => None,
                },
            ),
            opponent matches Some(o) ==> o.0 < self.battle_state@.soldiers.len(),
    {
        let ghost state = self.battle_state@;
        let ghost config = self.config.visibility;
        let ghost observer = soldier@;
        let ghost restrict: Option<SquadUuid> = match squad_index {
            Some(q) => Some(*q),
            None => None,
        };
        let soldiers = &self.battle_state.soldiers;
        let from = soldier.world_point;
        let mut best: Option<usize> = None;
        let mut best_distance: u128 = 0;
        let mut k: usize = 0;
        while k < soldiers.len()
            invariant
                k <= soldiers.len(),
                soldiers@.map_values(|s: Soldier| s@) == state.soldiers,
                state == self.battle_state@,
                config == self.config.visibility,
                observer == soldier@,
                from == observer.world_point,
                restrict == match squad_index {
                    Some(q) => Some(*q),
                    None => None,
                },
                match best {
                    Some(b) => {
                        &&& b < k
                        &&& is_candidate(state, config, observer, restrict, b as int)
                        &&& best_distance == sq_dist(from, state.soldiers[b as int].world_point)
                        &&& forall|c: int|
                            0 <= c < k && #[trigger] is_candidate(
                                state,
                                config,
                                observer,
                                restrict,
                                c,
                            ) ==> comes_before(state, observer, b as int, c)
                    },
                    None => forall|c: int|
                        0 <= c < k ==> !#[trigger] is_candidate(state, config, observer, restrict, c),
                },
            decreases soldiers.len() - k,
        {
            let other = &soldiers[k];
            assert(other@ == state.soldiers[k as int]);
            let in_squad = match squad_index {
                Some(q) => other.squad_uuid == *q,
                None => true,
            };
            if other.alive() && other.side != soldier.side && in_squad && is_visible(
                &self.config.visibility,
                from,
                other.world_point,
                &self.battle_state.map,
            ) {
                let distance: u128 = from.sq_dist_to(&other.world_point);
                let better = match best {
                    Some(_) => distance < best_distance,
                    None => true,
                };
                if better {
                    best = Some(k);
                    best_distance = distance;
                }
            }
            k += 1;
        }
        match best {
            Some(b) => {
                proof {
                    assert(is_nearest_candidate(state, config, observer, restrict, b as int));
                    let chosen = choose|j: int|
                        is_nearest_candidate(state, config, observer, restrict, j);
                    lemma_nearest_candidate_unique(
                        state,
                        config,
                        observer,
                        restrict,
                        chosen,
                        b as int,
                    );
                }
                Some(SoldierIndex(b))
            },
            None => {
                proof {
                    assert forall|j: int| !is_nearest_candidate(
                        state,
                        config,
                        observer,
                        restrict,
                        j,
                    ) by {
                        if is_candidate(state, config, observer, restrict, j) {
                            assert(0 <= j < k);
                        }
                    }
                }
                None
            },
        }
    }
}

} // verus!
