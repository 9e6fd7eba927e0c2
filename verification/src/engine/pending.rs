//! Routes and icons of the order that the player prepares.

use vstd::prelude::*;
use crate::angle::direction;
use crate::behavior::{BehaviorMode, BehaviorView};
use crate::engine::message::display_paths_view;
use crate::engine::state::GuiStateView;
use crate::engine::Engine;
use crate::map::BattleMapView;
use crate::order::path::{paths_wf, WorldPath, WorldPaths};
use crate::order::pending::{PendingOrder, PendingOrderView};
use crate::physics::path::{find_path, is_route, route_cost};
use crate::state::battle::BattleStateView;
use crate::types::{Angle, GridPoint, Offset, OrderMarkerIndex, SquadUuid, WindowPoint, WorldPoint};

verus! {

/// The icons of an order under preparation, each with its place in the
/// window, its angle and its offset: for an order with a route, one at each
/// chosen waypoint and one at the cursor; for defending and hiding, one at
/// the leader, turned toward the cursor; else one at the cursor.
pub open spec fn pending_order_params(
    battle: BattleStateView,
    state: GuiStateView,
    pending: PendingOrderView,
    squad_id: SquadUuid,
    cached_points: Seq<WorldPoint>,
) -> Seq<(WindowPoint, Angle, Offset)> {
    let leader = battle.soldiers[battle.squads[squad_id.0 as int].leader.0 as int];
    let offset = pending.marker().spec_offset();
    match pending {
        PendingOrderView::Defend(_) | PendingOrderView::Hide(_) => seq![
            (
                state.window_point_from_world_point(leader.world_point),
                Angle(direction(leader.world_point, state.current_cursor_world_point()) as i32),
                offset,
            ),
        ],
        PendingOrderView::EngageOrFire(_) => seq![
            (state.current_cursor_window_point, Angle(0), offset),
        ],
        _ => Seq::new(
            cached_points.len(),
            |k: int| (state.window_point_from_world_point(cached_points[k]), Angle(0), offset),
        ).push((state.current_cursor_window_point, Angle(0), offset)),
    }
}

/// The route that a squad's leader follows on foot, if it is on the move.
pub open spec fn leader_route(battle: BattleStateView, squad_id: SquadUuid) -> Option<
    Seq<Seq<WorldPoint>>,
> {
    match battle.soldiers[battle.squads[squad_id.0 as int].leader.0 as int].behavior {
        BehaviorView::MoveTo(paths)
        | BehaviorView::MoveFastTo(paths)
        | BehaviorView::SneakTo(paths) => Some(paths),
        _ => None,
    }
}

/// The two ends, as tiles, of each part of the route to find.
///
/// When a marker is edited and the leader is on the move, there is a part
/// for each part of the leader's route: the edited part ends at the cursor
/// and the part after it starts there. Else the parts chain the leader,
/// every chosen waypoint in the order of the choice, and the cursor: with no
/// waypoint chosen yet, the one part from the leader to the cursor.
pub open spec fn path_bounds(
    battle: BattleStateView,
    state: GuiStateView,
    squad_id: SquadUuid,
    order_marker_index: Option<OrderMarkerIndex>,
    cached_points: Seq<WorldPoint>,
) -> Seq<(GridPoint, GridPoint)> {
    let leader = battle.soldiers[battle.squads[squad_id.0 as int].leader.0 as int];
    let soldier_grid = battle.map.grid_of(leader.world_point);
    let cursor = state.current_cursor_world_point();
    let cursor_grid = battle.map.grid_of(cursor);
    match (order_marker_index, leader_route(battle, squad_id)) {
        (Some(index), Some(paths)) => Seq::new(
            paths.len(),
            |k: int|
                (
                    battle.map.grid_of(
                        if k > 0 && index.0 == k - 1 {
                            cursor
                        } else {
                            paths[k][0]
                        },
                    ),
                    battle.map.grid_of(
                        if index.0 == k {
                            cursor
                        } else {
                            paths[k].last()
                        },
                    ),
                ),
        ),
        (Some(_), None) => seq![(soldier_grid, cursor_grid)],
        (None, _) => Seq::new(
            cached_points.len() + 1,
            |k: int|
                (
                    if k == 0 {
                        soldier_grid
                    } else {
                        battle.map.grid_of(cached_points[k - 1])
                    },
                    if k == cached_points.len() {
                        cursor_grid
                    } else {
                        battle.map.grid_of(cached_points[k])
                    },
                ),
        ),
    }
}

/// The part of the route between two ends: the middles of the two end tiles
/// alone when only the ends are wanted, else the middles of the tiles of the
/// way found, and nothing where there is no way.
pub open spec fn route_part(
    map: BattleMapView,
    bound: (GridPoint, GridPoint),
    found: Option<Seq<GridPoint>>,
    take_only_bounds: bool,
) -> Seq<Seq<WorldPoint>> {
    if take_only_bounds {
        seq![seq![map.world_of(bound.0), map.world_of(bound.1)]]
    } else {
        match found {
            Some(tiles) => if tiles.len() > 0 {
                seq![Seq::new(tiles.len(), |j: int| map.world_of(tiles[j]))]
            } else {
                Seq::empty()
            },
            None => Seq::empty(),
        }
    }
}

/// The route over the first `k` parts.
pub open spec fn route_upto(
    map: BattleMapView,
    bounds: Seq<(GridPoint, GridPoint)>,
    found: Seq<Option<Seq<GridPoint>>>,
    take_only_bounds: bool,
    k: int,
) -> Seq<Seq<WorldPoint>>
    decreases k,
{
    if k <= 0 {
        Seq::empty()
    } else {
        route_upto(map, bounds, found, take_only_bounds, k - 1) + route_part(
            map,
            bounds[k - 1],
            found[k - 1],
            take_only_bounds,
        )
    }
}

/// Whether `way` is what a search on foot gives between two tiles: a
/// cheapest way from the one to the other, or nothing where there is none.
pub open spec fn way_found(
    map: BattleMapView,
    bound: (GridPoint, GridPoint),
    way: Option<Seq<GridPoint>>,
) -> bool {
    match way {
        Some(tiles) => is_route(map, BehaviorMode::Ground, tiles, bound.0, bound.1) && forall|
            other: Seq<GridPoint>,
        | #[trigger]
            is_route(map, BehaviorMode::Ground, other, bound.0, bound.1) ==> route_cost(
                map,
                BehaviorMode::Ground,
                tiles,
            ) <= route_cost(map, BehaviorMode::Ground, other),
        None => forall|tiles: Seq<GridPoint>|
            !is_route(map, BehaviorMode::Ground, tiles, bound.0, bound.1),
    }
}

/// Whether `found` holds, for each part, what a search on foot gives for
/// it.
pub open spec fn ways_found(
    map: BattleMapView,
    bounds: Seq<(GridPoint, GridPoint)>,
    found: Seq<Option<Seq<GridPoint>>>,
) -> bool {
    &&& found.len() == bounds.len()
    &&& forall|k: int| 0 <= k < bounds.len() ==> way_found(map, bounds[k], #[trigger] found[k])
}

/// Whether `found` holds what a search on foot gives for each part of the
/// route to find for a squad.
pub open spec fn path_finding_ways(
    battle: BattleStateView,
    state: GuiStateView,
    squad_id: SquadUuid,
    order_marker_index: Option<OrderMarkerIndex>,
    cached_points: Seq<WorldPoint>,
    found: Seq<Option<Seq<GridPoint>>>,
) -> bool {
    ways_found(
        battle.map,
        path_bounds(battle, state, squad_id, order_marker_index, cached_points),
        found,
    )
}

/// The route for a squad, given the ways found for its parts.
pub open spec fn path_finding_route(
    battle: BattleStateView,
    state: GuiStateView,
    squad_id: SquadUuid,
    order_marker_index: Option<OrderMarkerIndex>,
    cached_points: Seq<WorldPoint>,
    take_only_bounds: bool,
    found: Seq<Option<Seq<GridPoint>>>,
) -> Seq<Seq<WorldPoint>> {
    let bounds = path_bounds(battle, state, squad_id, order_marker_index, cached_points);
    route_upto(battle.map, bounds, found, take_only_bounds, bounds.len() as int)
}

/// Whether `paths` is what a search gives for the route of a squad: the
/// route over the ways found for its parts, and nothing when it has no part.
pub open spec fn path_finding_ok(
    battle: BattleStateView,
    state: GuiStateView,
    squad_id: SquadUuid,
    order_marker_index: Option<OrderMarkerIndex>,
    cached_points: Seq<WorldPoint>,
    take_only_bounds: bool,
    paths: Option<Seq<Seq<WorldPoint>>>,
) -> bool {
    exists|found: Seq<Option<Seq<GridPoint>>>|
        {
            let route = path_finding_route(
                battle,
                state,
                squad_id,
                order_marker_index,
                cached_points,
                take_only_bounds,
                found,
            );
            &&& #[trigger] path_finding_ways(
                battle,
                state,
                squad_id,
                order_marker_index,
                cached_points,
                found,
            )
            &&& match paths {
                Some(p) => p == route && route.len() > 0,
                None => route.len() == 0,
            }
        }
}

/// Whether `paths` is the route of the order that is prepared for a squad:
/// for a squad on foot the route already shown for it, if one is; else what
/// a search gives, of which a squad with a driver takes the ends only.
pub open spec fn context_route_ok(
    battle: BattleStateView,
    state: GuiStateView,
    squad_id: SquadUuid,
    order_marker_index: Option<OrderMarkerIndex>,
    cached_points: Seq<WorldPoint>,
    paths: Option<Seq<Seq<WorldPoint>>>,
) -> bool {
    let leader = battle.squads[squad_id.0 as int].leader;
    let take_only_bounds = battle.soldier_behavior_mode(leader) == BehaviorMode::Vehicle;
    let shown = shown_route_from(state.display_paths, squad_id, 0);
    if !take_only_bounds && shown is Some {
        paths == shown
    } else {
        path_finding_ok(
            battle,
            state,
            squad_id,
            order_marker_index,
            cached_points,
            take_only_bounds,
            paths,
        )
    }
}

/// The mathematical value of a route that may be missing.
pub open spec fn route_view(paths: Option<WorldPaths>) -> Option<Seq<Seq<WorldPoint>>> {
    match paths {
        Some(p) => Some(p@),
        None => None,
    }
}

/// The route shown for a squad, if one is.
pub open spec fn shown_route_from(
    paths: Seq<(Seq<Seq<WorldPoint>>, SquadUuid)>,
    squad_id: SquadUuid,
    from: int,
) -> Option<Seq<Seq<WorldPoint>>>
    decreases paths.len() - from,
{
    if from < 0 || from >= paths.len() {
        None
    } else if paths[from].1 == squad_id {
        Some(paths[from].0)
    } else {
        shown_route_from(paths, squad_id, from + 1)
    }
}

/// The route over the first parts depends only on what was found for them.
proof fn lemma_route_upto_prefix(
    map: BattleMapView,
    bounds: Seq<(GridPoint, GridPoint)>,
    a: Seq<Option<Seq<GridPoint>>>,
    b: Seq<Option<Seq<GridPoint>>>,
    take_only_bounds: bool,
    k: int,
)
    requires
        0 <= k <= a.len(),
        k <= b.len(),
        forall|i: int| 0 <= i < k ==> a[i] == b[i],
    ensures
        route_upto(map, bounds, a, take_only_bounds, k) == route_upto(
            map,
            bounds,
            b,
            take_only_bounds,
            k,
        ),
    decreases k,
{
    if k > 0 {
        lemma_route_upto_prefix(map, bounds, a, b, take_only_bounds, k - 1);
    }
}

impl Engine {
    /// The icons of an order under preparation.
    pub fn get_pending_order_params(
        &self,
        pending_order: &PendingOrder,
        squad_id: SquadUuid,
        cached_points: &Vec<WorldPoint>,
    ) -> (params: Vec<(WindowPoint, Angle, Offset)>)
        requires
            self.holds_squad(squad_id),
        ensures
            params@ == pending_order_params(
                self.battle_state@,
                self.gui_state@,
                pending_order@,
                squad_id,
                cached_points@,
            ),
    {
        let squad = self.battle_state.squad(squad_id);
        let squad_leader = self.battle_state.soldier(squad.leader());
        let order_marker = pending_order.marker();
        let ghost expected = pending_order_params(
            self.battle_state@,
            self.gui_state@,
            pending_order@,
            squad_id,
            cached_points@,
        );
        match pending_order {
            PendingOrder::MoveTo(_, _, _)
            | PendingOrder::MoveFastTo(_, _, _)
            | PendingOrder::SneakTo(_, _, _) => {
                let mut params: Vec<(WindowPoint, Angle, Offset)> = Vec::new();
                let mut k: usize = 0;
                while k < cached_points.len()
                    invariant
                        k <= cached_points.len(),
                        expected.len() == cached_points.len() + 1,
                        params@.len() == k,
                        order_marker == pending_order@.marker(),
                        expected == pending_order_params(
                            self.battle_state@,
                            self.gui_state@,
                            pending_order@,
                            squad_id,
                            cached_points@,
                        ),
                        pending_order@ is MoveTo || pending_order@ is MoveFastTo || pending_order@
                            is SneakTo,
                        forall|j: int| 0 <= j < k ==> params@[j] == expected[j],
                    decreases cached_points.len() - k,
                {
                    params.push(
                        (
                            self.gui_state.window_point_from_world_point(cached_points[k]),
                            Angle(0),
                            order_marker.offset(),
                        ),
                    );
                    k += 1;
                }
                params.push(
                    (*self.gui_state.get_current_cursor_window_point(), Angle(0), order_marker.offset()),
                );
                assert(params@ =~= expected);
                params
            },
            PendingOrder::Defend(_) | PendingOrder::Hide(_) => {
                let to_point = self.gui_state.get_current_cursor_world_point();
                let from_point = squad_leader.world_point();
                let mut params: Vec<(WindowPoint, Angle, Offset)> = Vec::new();
                params.push(
                    (
                        self.gui_state.window_point_from_world_point(squad_leader.world_point()),
                        Angle::from_points(&to_point, &from_point),
                        order_marker.offset(),
                    ),
                );
                assert(params@ =~= expected);
                params
            },
            PendingOrder::EngageOrFire(_) => {
                let mut params: Vec<(WindowPoint, Angle, Offset)> = Vec::new();
                params.push(
                    (*self.gui_state.get_current_cursor_window_point(), Angle(0), order_marker.offset()),
                );
                assert(params@ =~= expected);
                params
            },
        }
    }

    /// The two ends, as tiles, of each part of the route to find.
    fn path_bounds(
        &self,
        squad_id: SquadUuid,
        order_marker_index: Option<OrderMarkerIndex>,
        cached_points: &Vec<WorldPoint>,
    ) -> (bounds: Vec<(GridPoint, GridPoint)>)
        requires
            self.wf(),
            self.holds_squad(squad_id),
        ensures
            bounds@ == path_bounds(
                self.battle_state@,
                self.gui_state@,
                squad_id,
                order_marker_index,
                cached_points@,
            ),
    {
        let ghost expected = path_bounds(
            self.battle_state@,
            self.gui_state@,
            squad_id,
            order_marker_index,
            cached_points@,
        );
        let squad = self.battle_state.squad(squad_id);
        let soldier = self.battle_state.soldier(squad.leader());
        let soldier_world_point = soldier.world_point();
        let soldier_grid_point = self.grid_point_from_world_point(soldier_world_point);
        let cursor_world_point = self.gui_state.get_current_cursor_world_point();
        let cursor_grid_point = self.grid_point_from_world_point(cursor_world_point);
        let mut bounds: Vec<(GridPoint, GridPoint)> = Vec::new();

        if let Some(order_marker_index_) = order_marker_index {
            // A marker is edited: the squad should be following a route, but
            // it may have finished it.
            if let Some(current_squad_world_paths) = self.current_squad_world_paths(squad_id) {
                let ghost route = current_squad_world_paths@;
                assert(leader_route(self.battle_state@, squad_id) == Some(route));
                assert(soldier@.wf());
                assert(paths_wf(route));
                let mut k: usize = 0;
                while k < current_squad_world_paths.paths.len()
                    invariant
                        k <= current_squad_world_paths.paths.len(),
                        route == current_squad_world_paths@,
                        paths_wf(route),
                        expected.len() == route.len(),
                        bounds@.len() == k,
                        cursor_world_point == self.gui_state@.current_cursor_world_point(),
                        leader_route(self.battle_state@, squad_id) == Some(route),
                        order_marker_index == Some(order_marker_index_),
                        expected == path_bounds(
                            self.battle_state@,
                            self.gui_state@,
                            squad_id,
                            order_marker_index,
                            cached_points@,
                        ),
                        forall|j: int| 0 <= j < k ==> bounds@[j] == expected[j],
                    decreases current_squad_world_paths.paths.len() - k,
                {
                    let world_path = &current_squad_world_paths.paths[k];
                    assert(world_path@ == route[k as int]);
                    assert(route[k as int].len() > 0);
                    // The part after the edited one starts at the cursor.
                    let world_start_point = if k > 0 && order_marker_index_.0 == k - 1 {
                        cursor_world_point
                    } else {
                        world_path.next_point().unwrap()
                    };
                    // The edited part ends at the cursor.
                    let world_end_point = if order_marker_index_.0 == k {
                        cursor_world_point
                    } else {
                        world_path.last_point().unwrap()
                    };
                    let start_grid_point = self.grid_point_from_world_point(world_start_point);
                    let end_grid_point = self.grid_point_from_world_point(world_end_point);
                    bounds.push((start_grid_point, end_grid_point));
                    k += 1;
                }
                assert(bounds@ =~= expected);
            } else {
                bounds.push((soldier_grid_point, cursor_grid_point));
                assert(leader_route(self.battle_state@, squad_id) is None);
                assert(bounds@ =~= expected);
            }
        } else {
            // The route goes through every waypoint chosen so far.
            let mut last = soldier_grid_point;
            let mut k: usize = 0;
            while k < cached_points.len()
                invariant
                    k <= cached_points.len(),
                    order_marker_index is None,
                    expected.len() == cached_points.len() + 1,
                    bounds@.len() == k,
                    soldier_grid_point == self.battle_state@.map.grid_of(
                        self.leader_of(squad_id).world_point,
                    ),
                    last == if k == 0 {
                        soldier_grid_point
                    } else {
                        self.battle_state@.map.grid_of(cached_points@[k - 1])
                    },
                    expected == path_bounds(
                        self.battle_state@,
                        self.gui_state@,
                        squad_id,
                        order_marker_index,
                        cached_points@,
                    ),
                    forall|j: int| 0 <= j < k ==> bounds@[j] == expected[j],
                decreases cached_points.len() - k,
            {
                let grid_cached_point = self.grid_point_from_world_point(cached_points[k]);
                bounds.push((last, grid_cached_point));
                last = grid_cached_point;
                k += 1;
            }
            bounds.push((last, cursor_grid_point));
            assert(bounds@ =~= expected);
        }
        bounds
    }

    /// The route from the squad's leader to the cursor by way of the chosen
    /// waypoints, or along the leader's route with one marker moved to the
    /// cursor. Each part is searched on foot over the map, unless only the
    /// ends are wanted; parts without a way are left out; no part at all
    /// gives no route.
    pub fn create_path_finding(
        &self,
        squad_id: SquadUuid,
        order_marker_index: Option<OrderMarkerIndex>,
        cached_points: &Vec<WorldPoint>,
        take_only_bounds: bool,
    ) -> (paths: Option<WorldPaths>)
        requires
            self.wf(),
            self.holds_squad(squad_id),
        ensures
            path_finding_ok(
                self.battle_state@,
                self.gui_state@,
                squad_id,
                order_marker_index,
                cached_points@,
                take_only_bounds,
                route_view(paths),
            ),
    {
        let ghost map = self.battle_state@.map;
        let bounds = self.path_bounds(squad_id, order_marker_index, cached_points);
        let ghost mut found: Seq<Option<Seq<GridPoint>>> = Seq::empty();

        // Find the way of each part.
        let mut world_paths: Vec<WorldPath> = Vec::new();
        let mut k: usize = 0;
        let ghost mut route: Seq<Seq<WorldPoint>> = Seq::empty();
        while k < bounds.len()
            invariant
                k <= bounds.len(),
                self.wf(),
                map == self.battle_state@.map,
                found.len() == k,
                forall|j: int| 0 <= j < k ==> way_found(map, bounds@[j], #[trigger] found[j]),
                route == route_upto(map, bounds@, found, take_only_bounds, k as int),
                world_paths@.map_values(|p: WorldPath| p@) == route,
            decreases bounds.len() - k,
        {
            let (bound_start, bound_end) = bounds[k];
            let ghost before = found;
            let ghost route_before = route;
            let way = find_path(
                &self.battle_state.map,
                &bound_start,
                &bound_end,
                BehaviorMode::Ground,
            );
            let ghost way_found: Option<Seq<GridPoint>> = match &way {
                Some(tiles) => Some(tiles@),
                None => None,
            };
            proof {
                found = found.push(way_found);
                lemma_route_upto_prefix(map, bounds@, before, found, take_only_bounds, k as int);
                route = route_before + route_part(
                    map,
                    bounds@[k as int],
                    found[k as int],
                    take_only_bounds,
                );
            }
            if !take_only_bounds {
                if let Some(grid_points_path) = way {
                    if grid_points_path.len() > 0 {
                        let mut world_point_path: Vec<WorldPoint> = Vec::new();
                        let mut j: usize = 0;
                        while j < grid_points_path.len()
                            invariant
                                j <= grid_points_path.len(),
                                map == self.battle_state@.map,
                                world_point_path@.len() == j,
                                forall|i: int|
                                    0 <= i < j ==> world_point_path@[i] == map.world_of(
                                        grid_points_path@[i],
                                    ),
                            decreases grid_points_path.len() - j,
                        {
                            world_point_path.push(
                                self.world_point_from_grid_point(grid_points_path[j]),
                            );
                            j += 1;
                        }
                        let world_path = WorldPath::new(world_point_path);
                        assert(world_path@ =~= Seq::new(
                            grid_points_path@.len(),
                            |i: int| map.world_of(grid_points_path@[i]),
                        ));
                        world_paths.push(world_path);
                    }
                }
            } else {
                let mut ends: Vec<WorldPoint> = Vec::new();
                ends.push(self.world_point_from_grid_point(bound_start));
                ends.push(self.world_point_from_grid_point(bound_end));
                let world_path = WorldPath::new(ends);
                assert(world_path@ =~= seq![map.world_of(bound_start), map.world_of(bound_end)]);
                world_paths.push(world_path);
            }
            assert(world_paths@.map_values(|p: WorldPath| p@) =~= route);
            k += 1;
        }
        proof {
            assert(ways_found(map, bounds@, found));
            assert(path_finding_ways(
                self.battle_state@,
                self.gui_state@,
                squad_id,
                order_marker_index,
                cached_points@,
                found,
            ));
        }
        if world_paths.len() > 0 {
            return Some(WorldPaths::new(world_paths));
        }
        None
    }

    /// The route shown for a squad, if one is.
    fn shown_route(&self, squad_id: SquadUuid) -> (paths: Option<WorldPaths>)
        ensures
            match paths {
                Some(p) => shown_route_from(self.gui_state@.display_paths, squad_id, 0) == Some(p@),
                None => shown_route_from(self.gui_state@.display_paths, squad_id, 0) is None,
            },
    {
        let shown = self.gui_state.get_display_paths();
        let mut k: usize = 0;
        while k < shown.len()
            invariant
                k <= shown.len(),
                display_paths_view(shown@) == self.gui_state@.display_paths,
                shown_route_from(self.gui_state@.display_paths, squad_id, 0) == shown_route_from(
                    self.gui_state@.display_paths,
                    squad_id,
                    k as int,
                ),
            decreases shown.len() - k,
        {
            assert(display_paths_view(shown@)[k as int] == (shown@[k as int].0@, shown@[k as int].1));
            if shown[k].1 == squad_id {
                return Some(shown[k].0.clone());
            }
            k += 1;
        }
        None
    }

    /// The route of the order under preparation: for a squad on foot the
    /// route already shown for it, if one is; else the route found from the
    /// leader to the cursor, of which a squad with a driver takes the ends
    /// only.
    pub fn create_world_paths_from_context(
        &self,
        squad_id: SquadUuid,
        order_marker_index: Option<OrderMarkerIndex>,
        cached_points: &Vec<WorldPoint>,
    ) -> (paths: Option<WorldPaths>)
        requires
            self.wf(),
            self.holds_squad(squad_id),
        ensures
            context_route_ok(
                self.battle_state@,
                self.gui_state@,
                squad_id,
                order_marker_index,
                cached_points@,
                route_view(paths),
            ),
    {
        let squad_leader_index = self.battle_state.squad(squad_id).leader();
        let squad_leader = self.battle_state.soldier(squad_leader_index);
        assert(squad_leader@.uuid == squad_leader_index);
        let behavior_mode = self.battle_state.soldier_behavior_mode(squad_leader);
        let take_only_bounds = behavior_mode == BehaviorMode::Vehicle;

        // A shown route serves only for moves on foot.
        if !take_only_bounds {
            if let Some(display_paths) = self.shown_route(squad_id) {
                return Some(display_paths);
            }
        }
        self.create_path_finding(squad_id, order_marker_index, cached_points, take_only_bounds)
    }
}

} // verus!
