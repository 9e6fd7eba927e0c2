//! Where the route that is searched for a squad lies.

use vstd::prelude::*;
use crate::engine::pending::{
    path_bounds, path_finding_ok, path_finding_route, path_finding_ways, route_part, route_upto,
    ways_found,
};
use crate::engine::state::GuiStateView;
use crate::map::BattleMapView;
use crate::physics::route::route_on_foot_is_walkable;
use crate::state::battle::BattleStateView;
use crate::types::{GridPoint, OrderMarkerIndex, SquadUuid, WorldPoint};

verus! {

/// Whether a point is the middle of a tile of the map that a pedestrian can
/// enter.
pub open spec fn is_walkable_middle(map: BattleMapView, point: WorldPoint) -> bool {
    exists|tile: GridPoint|
        map.contains(tile) && map.walkable(tile) && #[trigger] map.world_of(tile) == point
}

/// Whether every point of every part of a route is the middle of a tile of
/// the map that a pedestrian can enter.
pub open spec fn route_on_walkable_tiles(map: BattleMapView, paths: Seq<Seq<WorldPoint>>) -> bool {
    forall|p: int, j: int|
        0 <= p < paths.len() && 0 <= j < paths[p].len() ==> is_walkable_middle(
            map,
            #[trigger] paths[p][j],
        )
}

/// Whether every part starts on a tile of the map.
pub open spec fn parts_start_on_map(map: BattleMapView, bounds: Seq<(GridPoint, GridPoint)>) -> bool {
    forall|k: int| 0 <= k < bounds.len() ==> map.contains((#[trigger] bounds[k]).0)
}

proof fn lemma_route_upto_on_map(
    map: BattleMapView,
    bounds: Seq<(GridPoint, GridPoint)>,
    found: Seq<Option<Seq<GridPoint>>>,
    k: int,
)
    requires
        map.wf(),
        ways_found(map, bounds, found),
        parts_start_on_map(map, bounds),
        0 <= k <= bounds.len(),
    ensures
        route_on_walkable_tiles(map, route_upto(map, bounds, found, false, k)),
    decreases k,
{
    if k > 0 {
        lemma_route_upto_on_map(map, bounds, found, k - 1);
        let before = route_upto(map, bounds, found, false, k - 1);
        let part = route_part(map, bounds[k - 1], found[k - 1], false);
        let all = route_upto(map, bounds, found, false, k);
        assert(all == before + part);
        assert forall|p: int, j: int| 0 <= p < all.len() && 0 <= j < all[p].len() implies is_walkable_middle(
            map,
            #[trigger] all[p][j],
        ) by {
            if p < before.len() {
                assert(all[p] == before[p]);
                assert(is_walkable_middle(map, before[p][j]));
            } else {
                assert(all[p] == part[p - before.len()]);
                let tiles = found[k - 1]->Some_0;
                assert(map.contains(bounds[k - 1].0));
                route_on_foot_is_walkable(map, tiles, bounds[k - 1].0, bounds[k - 1].1);
                assert(map.contains(tiles[j]) && map.walkable(tiles[j]));
                assert(map.world_of(tiles[j]) == all[p][j]);
            }
        }
    }
}

/// The route that a search on foot gives for a squad puts every point on the
/// middle of a tile of the map that a pedestrian can enter, as long as each
/// part starts on a tile of the map.
pub proof fn traced_route_stays_on_map(
    battle: BattleStateView,
    state: GuiStateView,
    squad_id: SquadUuid,
    order_marker_index: Option<OrderMarkerIndex>,
    cached_points: Seq<WorldPoint>,
    paths: Seq<Seq<WorldPoint>>,
)
    requires
        battle.map.wf(),
        path_finding_ok(battle, state, squad_id, order_marker_index, cached_points, false, Some(paths)),
        parts_start_on_map(
            battle.map,
            path_bounds(battle, state, squad_id, order_marker_index, cached_points),
        ),
    ensures
        route_on_walkable_tiles(battle.map, paths),
{
    let bounds = path_bounds(battle, state, squad_id, order_marker_index, cached_points);
    let found = choose|found: Seq<Option<Seq<GridPoint>>>|
        {
            let route = path_finding_route(
                battle,
                state,
                squad_id,
                order_marker_index,
                cached_points,
                false,
                found,
            );
            &&& #[trigger] path_finding_ways(
                battle,
                state,
                squad_id,
                order_marker_index,
                cached_points,
                found,
            )
            &&& paths == route && route.len() > 0
        };
    lemma_route_upto_on_map(battle.map, bounds, found, bounds.len() as int);
}

} // verus!
