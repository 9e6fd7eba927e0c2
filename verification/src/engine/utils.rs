//! Queries of the observer on its replica of the battle.

use vstd::prelude::*;
use crate::angle::direction;
use crate::behavior::BehaviorView;
use crate::engine::Engine;
use crate::entity::soldier::{Soldier, SoldierView};
use crate::order::path::WorldPaths;
use crate::state::battle::BattleStateView;
use crate::types::{Angle, GridPoint, SoldierIndex, SquadUuid, WorldPoint};

verus! {

/// Half the side of the square around a soldier in which a click selects it,
/// in millimetres.
pub const SELECTION_REACH: u32 = 1000;

/// Whether a point is within the square of selection around a soldier.
pub open spec fn in_selection_square(soldier: WorldPoint, point: WorldPoint) -> bool {
    &&& soldier.x - SELECTION_REACH <= point.x <= soldier.x + SELECTION_REACH
    &&& soldier.y - SELECTION_REACH <= point.y <= soldier.y + SELECTION_REACH
}

/// Whether a point lies in the rectangle spanned by two corners, borders
/// included, whichever way round the corners are given.
pub open spec fn in_area(start: WorldPoint, end: WorldPoint, point: WorldPoint) -> bool {
    &&& (start.x <= point.x <= end.x || end.x <= point.x <= start.x)
    &&& (start.y <= point.y <= end.y || end.y <= point.y <= start.y)
}

/// The soldiers among the first `k` whose place is in the area.
pub open spec fn soldiers_in_area_upto(
    state: BattleStateView,
    start: WorldPoint,
    end: WorldPoint,
    k: int,
) -> Seq<SoldierIndex>
    decreases k,
{
    if k <= 0 {
        Seq::empty()
    } else if in_area(start, end, state.soldiers[k - 1].world_point) {
        soldiers_in_area_upto(state, start, end, k - 1).push(SoldierIndex((k - 1) as usize))
    } else {
        soldiers_in_area_upto(state, start, end, k - 1)
    }
}

/// The soldiers among the first `k` whose square of selection holds the
/// point.
pub open spec fn soldiers_at_point_upto(state: BattleStateView, point: WorldPoint, k: int) -> Seq<
    SoldierIndex,
>
    decreases k,
{
    if k <= 0 {
        Seq::empty()
    } else if in_selection_square(state.soldiers[k - 1].world_point, point) {
        soldiers_at_point_upto(state, point, k - 1).push(SoldierIndex((k - 1) as usize))
    } else {
        soldiers_at_point_upto(state, point, k - 1)
    }
}

/// Those of the first `k` soldiers of a list that the state holds and that
/// are of the given side, in the order of the list.
pub open spec fn of_side_upto(
    state: BattleStateView,
    side: crate::game::Side,
    indexes: Seq<SoldierIndex>,
    k: int,
) -> Seq<SoldierIndex>
    decreases k,
{
    if k <= 0 {
        Seq::empty()
    } else if indexes[k - 1].0 < state.soldiers.len() && state.soldiers[indexes[k - 1].0 as int].side
        == side {
        of_side_upto(state, side, indexes, k - 1).push(indexes[k - 1])
    } else {
        of_side_upto(state, side, indexes, k - 1)
    }
}

/// The squads of the first `k` soldiers of a list, each once, in the order
/// in which they first come up. Soldiers that the state does not hold are
/// passed over.
pub open spec fn squads_upto(state: BattleStateView, indexes: Seq<SoldierIndex>, k: int) -> Seq<
    SquadUuid,
>
    decreases k,
{
    if k <= 0 {
        Seq::empty()
    } else {
        let before = squads_upto(state, indexes, k - 1);
        if indexes[k - 1].0 < state.soldiers.len() && !before.contains(
            state.soldiers[indexes[k - 1].0 as int].squad_uuid,
        ) {
            before.push(state.soldiers[indexes[k - 1].0 as int].squad_uuid)
        } else {
            before
        }
    }
}

/// No squad comes up twice.
pub proof fn lemma_squads_once(state: BattleStateView, indexes: Seq<SoldierIndex>, k: int)
    ensures
        squads_upto(state, indexes, k).no_duplicates(),
    decreases k,
{
    if k > 0 {
        lemma_squads_once(state, indexes, k - 1);
    }
}

impl Engine {
    /// Whether the squad and its leader are held by the replica.
    pub open spec fn holds_squad(&self, squad_id: SquadUuid) -> bool {
        &&& squad_id.0 < self.battle_state@.squads.len()
        &&& self.battle_state@.squads[squad_id.0 as int].leader.0 < self.battle_state@.soldiers.len()
    }

    /// The leader of a squad that the replica holds.
    pub open spec fn leader_of(&self, squad_id: SquadUuid) -> SoldierView {
        self.battle_state@.soldiers[self.battle_state@.squads[squad_id.0 as int].leader.0 as int]
    }

    /// The soldiers whose place is in the rectangle spanned by two corners.
    pub fn get_entities_in_area(&self, start: WorldPoint, end: WorldPoint) -> (soldier_indexes: Vec<
        SoldierIndex,
    >)
        ensures
            soldier_indexes@ == soldiers_in_area_upto(
                self.battle_state@,
                start,
                end,
                self.battle_state@.soldiers.len() as int,
            ),
    {
        let mut soldier_indexes: Vec<SoldierIndex> = Vec::new();
        let soldiers = self.battle_state.soldiers();
        let mut i: usize = 0;
        while i < soldiers.len()
            invariant
                i <= soldiers.len(),
                soldiers@.map_values(|s: Soldier| s@) == self.battle_state@.soldiers,
                soldier_indexes@ == soldiers_in_area_upto(self.battle_state@, start, end, i as int),
            decreases soldiers.len() - i,
        {
            let p = soldiers[i].world_point();
            assert(soldiers@[i as int]@ == self.battle_state@.soldiers[i as int]);
            let in_x = (start.x <= p.x && p.x <= end.x) || (end.x <= p.x && p.x <= start.x);
            let in_y = (start.y <= p.y && p.y <= end.y) || (end.y <= p.y && p.y <= start.y);
            if in_x && in_y {
                soldier_indexes.push(SoldierIndex(i));
            }
            i += 1;
        }
        soldier_indexes
    }

    /// The soldiers whose square of selection holds the point.
    pub fn get_entities_at_point(&self, point: WorldPoint) -> (soldier_indexes: Vec<SoldierIndex>)
        ensures
            soldier_indexes@ == soldiers_at_point_upto(
                self.battle_state@,
                point,
                self.battle_state@.soldiers.len() as int,
            ),
    {
        let mut soldier_indexes: Vec<SoldierIndex> = Vec::new();
        let soldiers = self.battle_state.soldiers();
        let mut i: usize = 0;
        while i < soldiers.len()
            invariant
                i <= soldiers.len(),
                soldiers@.map_values(|s: Soldier| s@) == self.battle_state@.soldiers,
                soldier_indexes@ == soldiers_at_point_upto(self.battle_state@, point, i as int),
            decreases soldiers.len() - i,
        {
            let p = soldiers[i].world_point();
            assert(soldiers@[i as int]@ == self.battle_state@.soldiers[i as int]);
            let reach: i64 = SELECTION_REACH as i64;
            if p.x as i64 - reach <= point.x as i64 && point.x as i64 <= p.x as i64 + reach && p.y as i64
                - reach <= point.y as i64 && point.y as i64 <= p.y as i64 + reach {
                soldier_indexes.push(SoldierIndex(i));
            }
            i += 1;
        }
        soldier_indexes
    }

    /// Those soldiers of a list that are of the observer's side.
    pub fn filter_entities_by_side(&self, soldier_indexes: Vec<SoldierIndex>) -> (filtered: Vec<
        SoldierIndex,
    >)
        ensures
            filtered@ == of_side_upto(
                self.battle_state@,
                self.gui_state@.side,
                soldier_indexes@,
                soldier_indexes@.len() as int,
            ),
    {
        let mut filtered_soldier_indexes: Vec<SoldierIndex> = Vec::new();
        let mut k: usize = 0;
        while k < soldier_indexes.len()
            invariant
                k <= soldier_indexes.len(),
                filtered_soldier_indexes@ == of_side_upto(
                    self.battle_state@,
                    self.gui_state@.side,
                    soldier_indexes@,
                    k as int,
                ),
            decreases soldier_indexes.len() - k,
        {
            let soldier_index = soldier_indexes[k];
            if soldier_index.0 < self.battle_state.soldiers.len() {
                let soldier = self.battle_state.soldier(soldier_index);
                if *soldier.side() == *self.gui_state.side() {
                    filtered_soldier_indexes.push(soldier_index);
                }
            }
            k += 1;
        }
        filtered_soldier_indexes
    }

    /// The opponents that the observer's side sees: those out of sight of
    /// all its soldiers are left out.
    pub fn visible_opponents(&self) -> (seen: Vec<SoldierIndex>)
        ensures
            seen@ == crate::runner::engage::visible_opponents_upto(
                self.battle_state@,
                self.config.visibility,
                self.gui_state@.side,
                self.battle_state@.soldiers.len() as int,
            ),
    {
        crate::runner::engage::visible_opponents(
            &self.battle_state,
            &self.config.visibility,
            self.gui_state.side(),
        )
    }

    /// The soldiers of a list that the observer can see: all of them.
    pub fn _filter_entities_by_visibility(&self, soldier_indexes: Vec<SoldierIndex>) -> (filtered: Vec<
        SoldierIndex,
    >)
        ensures
            filtered == soldier_indexes,
    {
        soldier_indexes
    }

    /// The squads of the soldiers of a list, each once, in the order in
    /// which they first come up.
    pub fn squad_ids_from_entities(&self, soldier_indexes: Vec<SoldierIndex>) -> (squads: Vec<SquadUuid>)
        ensures
            squads@ == squads_upto(
                self.battle_state@,
                soldier_indexes@,
                soldier_indexes@.len() as int,
            ),
            squads@.no_duplicates(),
    {
        let mut unique_squad_uuids: Vec<SquadUuid> = Vec::new();
        let mut k: usize = 0;
        while k < soldier_indexes.len()
            invariant
                k <= soldier_indexes.len(),
                unique_squad_uuids@ == squads_upto(self.battle_state@, soldier_indexes@, k as int),
            decreases soldier_indexes.len() - k,
        {
            let soldier_index = soldier_indexes[k];
            if soldier_index.0 < self.battle_state.soldiers.len() {
                let squad = self.battle_state.soldier(soldier_index).squad_uuid();
                let mut known: bool = false;
                let mut j: usize = 0;
                while j < unique_squad_uuids.len()
                    invariant
                        j <= unique_squad_uuids.len(),
                        known == exists|i: int| 0 <= i < j && unique_squad_uuids@[i] == squad,
                    decreases unique_squad_uuids.len() - j,
                {
                    if unique_squad_uuids[j] == squad {
                        known = true;
                    }
                    j += 1;
                }
                if !known {
                    unique_squad_uuids.push(squad);
                }
            }
            k += 1;
        }
        proof {
            lemma_squads_once(self.battle_state@, soldier_indexes@, soldier_indexes@.len() as int);
        }
        unique_squad_uuids
    }

    /// The tile that holds a world point.
    pub fn grid_point_from_world_point(&self, world_point: WorldPoint) -> (grid: GridPoint)
        ensures
            grid == self.battle_state@.map.grid_of(world_point),
    {
        self.battle_state.map.grid_point_from_world_point(world_point)
    }

    /// The middle of a tile.
    pub fn world_point_from_grid_point(&self, grid_point: GridPoint) -> (world: WorldPoint)
        ensures
            world == self.battle_state@.map.world_of(grid_point),
    {
        self.battle_state.map.world_point_from_grid_point(grid_point)
    }

    /// The route that the squad's leader is following, if it is on the move.
    pub fn current_squad_world_paths(&self, squad_id: SquadUuid) -> (paths: Option<&WorldPaths>)
        requires
            self.holds_squad(squad_id),
        ensures
            match paths {
                Some(p) => match self.leader_of(squad_id).behavior {
                    BehaviorView::MoveTo(route)
                    | BehaviorView::MoveFastTo(route)
                    | BehaviorView::SneakTo(route) => p@ == route,
                    _ => false,
                },
                None => !(self.leader_of(squad_id).behavior is MoveTo || self.leader_of(
                    squad_id,
                ).behavior is MoveFastTo || self.leader_of(squad_id).behavior is SneakTo),
            },
    {
        let squad = self.battle_state.squad(squad_id);
        let squad_leader = self.battle_state.soldier(squad.leader());
        match squad_leader.behavior() {
            crate::behavior::Behavior::MoveTo(world_paths)
            | crate::behavior::Behavior::MoveFastTo(world_paths)
            | crate::behavior::Behavior::SneakTo(world_paths) => Some(world_paths),
            _ => None,
        }
    }

    /// The direction from the squad's leader to the cursor.
    pub fn angle_from_cursor_and_squad(&self, squad_id: SquadUuid) -> (angle: Angle)
        requires
            self.holds_squad(squad_id),
        ensures
            angle.0 == direction(
                self.leader_of(squad_id).world_point,
                self.gui_state@.current_cursor_world_point(),
            ),
    {
        let squad = self.battle_state.squad(squad_id);
        let squad_leader = self.battle_state.soldier(squad.leader());
        let to_point = self.gui_state.get_current_cursor_world_point();
        let from_point = squad_leader.world_point();
        Angle::from_points(&to_point, &from_point)
    }
}

} // verus!
