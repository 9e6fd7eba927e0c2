//! Where a route over the map lies.

use vstd::prelude::*;
use crate::behavior::BehaviorMode;
use crate::map::BattleMapView;
use crate::physics::path::{is_route, passable};
use crate::types::GridPoint;

verus! {

/// Every tile of a map whose tiles fill its grid can be walked on.
pub proof fn lemma_tile_of_map_is_walkable(map: BattleMapView, p: GridPoint)
    requires
        map.wf(),
        map.contains(p),
    ensures
        map.walkable(p),
{
    assert(p.y * map.width + p.x < map.width * map.height) by (nonlinear_arith)
        requires
            0 <= p.x < map.width,
            0 <= p.y < map.height,
    ;
}

/// A route that starts on the map stays on it, and every tile that it
/// enters is one that the moving class can enter. The tile that it starts
/// from is not entered: a route may leave a tile that blocks the class.
pub proof fn route_stays_on_map(
    map: BattleMapView,
    class: BehaviorMode,
    route: Seq<GridPoint>,
    from: GridPoint,
    to: GridPoint,
)
    requires
        is_route(map, class, route, from, to),
        map.contains(from),
    ensures
        forall|i: int| 0 <= i < route.len() ==> map.contains(#[trigger] route[i]),
        forall|i: int| 1 <= i < route.len() ==> passable(map, class, #[trigger] route[i]),
{
    assert forall|i: int| 1 <= i < route.len() implies passable(map, class, #[trigger] route[i]) by {
        assert(map.contains(route[i - 1]));
    }
    assert forall|i: int| 0 <= i < route.len() implies map.contains(#[trigger] route[i]) by {
        if i > 0 {
            assert(passable(map, class, route[i]));
        }
    }
}

/// On foot, every tile of a route that starts on a map whose tiles fill its
/// grid is a tile of the map that a pedestrian can enter, the first one too.
pub proof fn route_on_foot_is_walkable(
    map: BattleMapView,
    route: Seq<GridPoint>,
    from: GridPoint,
    to: GridPoint,
)
    requires
        map.wf(),
        is_route(map, BehaviorMode::Ground, route, from, to),
        map.contains(from),
    ensures
        forall|i: int|
            0 <= i < route.len() ==> map.contains(#[trigger] route[i]) && map.walkable(route[i]),
{
    route_stays_on_map(map, BehaviorMode::Ground, route, from, to);
    assert forall|i: int| 0 <= i < route.len() implies map.contains(#[trigger] route[i])
        && map.walkable(route[i]) by {
        lemma_tile_of_map_is_walkable(map, route[i]);
    }
}

} // verus!
