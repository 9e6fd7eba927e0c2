//! Finding a way over the map, from tile to neighbouring tile.

use vstd::prelude::*;
use crate::behavior::BehaviorMode;
use crate::map::{BattleMap, BattleMapView};
use crate::math::abs_diff;
use crate::types::GridPoint;

verus! {

/// Two tiles are neighbours when they differ and touch by a side or a corner.
pub open spec fn adjacent(a: GridPoint, b: GridPoint) -> bool {
    &&& a != b
    &&& abs_diff(a.x as int, b.x as int) <= 1
    &&& abs_diff(a.y as int, b.y as int) <= 1
}

/// Whether the moving class can enter a tile: a pedestrian enters every tile
/// of the map, a vehicle those that do not block vehicles.
pub open spec fn passable(map: BattleMapView, class: BehaviorMode, p: GridPoint) -> bool {
    match class {
        BehaviorMode::Ground => map.walkable(p),
        BehaviorMode::Vehicle => map.drivable(p),
    }
}

/// Whether `route` leads from `a` to `b`: it starts at `a`, ends at `b`, goes
/// from tile to neighbouring tile, leaves only tiles of the map and enters
/// only tiles that the moving class can enter.
pub open spec fn is_route(
    map: BattleMapView,
    class: BehaviorMode,
    route: Seq<GridPoint>,
    a: GridPoint,
    b: GridPoint,
) -> bool {
    &&& route.len() >= 1
    &&& route[0] == a
    &&& route.last() == b
    &&& forall|i: int|
        0 <= i < route.len() - 1 ==> map.contains(#[trigger] route[i]) && adjacent(
            route[i],
            route[i + 1],
        ) && passable(map, class, route[i + 1])
}

/// Position of a tile of the map in the list of tiles.
pub open spec fn tile_index(map: BattleMapView, p: GridPoint) -> int {
    p.y * map.width + p.x
}

/// Step that the direction of rank `k` makes, in the order north,
/// north-east, east, south-east, south, south-west, west, north-west, with
/// north toward smaller `y`.
pub open spec fn direction_step(k: int) -> (int, int) {
    if k == 0 {
        (0, -1)
    } else if k == 1 {
        (1, -1)
    } else if k == 2 {
        (1, 0)
    } else if k == 3 {
        (1, 1)
    } else if k == 4 {
        (0, 1)
    } else if k == 5 {
        (-1, 1)
    } else if k == 6 {
        (-1, 0)
    } else {
        (-1, -1)
    }
}

/// Cost of entering a tile: its pedestrian cost on foot, 1 for a vehicle.
pub open spec fn step_cost(map: BattleMapView, class: BehaviorMode, p: GridPoint) -> int {
    match class {
        BehaviorMode::Ground => match map.tile_at(p) {
            Some(tile) => tile.pedestrian_cost as int,
            None => 1,
        },
        BehaviorMode::Vehicle => 1,
    }
}

/// The least that a step can cost the moving class.
pub open spec fn least_cost(class: BehaviorMode) -> int {
    match class {
        BehaviorMode::Ground => 10,
        BehaviorMode::Vehicle => 1,
    }
}

/// Estimate of what is left to pay from a tile to the goal: the number of
/// moves of a king, each at the least cost of a step.
#[verifier::opaque]
pub open spec fn estimate_of(class: BehaviorMode, p: GridPoint, to: GridPoint) -> int {
    crate::types::chebyshev(p, to) * least_cost(class)
}

/// What a route costs: the cost of every tile that it enters.
pub open spec fn route_cost(map: BattleMapView, class: BehaviorMode, route: Seq<GridPoint>) -> int
    decreases route.len(),
{
    if route.len() <= 1 {
        0
    } else {
        route_cost(map, class, route.drop_last()) + step_cost(map, class, route.last())
    }
}

/// Whether a tile can be reached from `from` at the given cost.
pub open spec fn reachable_at(
    map: BattleMapView,
    class: BehaviorMode,
    from: GridPoint,
    p: GridPoint,
    cost: int,
) -> bool {
    exists|route: Seq<GridPoint>|
        #[trigger] is_route(map, class, route, from, p) && route_cost(map, class, route) == cost
}

/// A route can be carried on by a step to a neighbouring tile that the
/// moving class can enter, at the cost of that tile.
pub proof fn lemma_route_push(
    map: BattleMapView,
    class: BehaviorMode,
    route: Seq<GridPoint>,
    from: GridPoint,
    p: GridPoint,
    n: GridPoint,
)
    requires
        is_route(map, class, route, from, p),
        map.contains(p),
        adjacent(p, n),
        passable(map, class, n),
    ensures
        is_route(map, class, route.push(n), from, n),
        route_cost(map, class, route.push(n)) == route_cost(map, class, route) + step_cost(
            map,
            class,
            n,
        ),
{
    let longer = route.push(n);
    assert(longer.drop_last() =~= route);
    assert forall|i: int| 0 <= i < longer.len() - 1 implies map.contains(#[trigger] longer[i])
        && adjacent(longer[i], longer[i + 1]) && passable(map, class, longer[i + 1]) by {
        if i < route.len() - 1 {
            assert(map.contains(route[i]));
            assert(longer[i] == route[i]);
            assert(longer[i + 1] == route[i + 1]);
        } else {
            assert(longer[i] == route.last());
        }
    }
}

/// The part of a route up to one of its tiles is a route to that tile.
pub proof fn lemma_route_prefix(
    map: BattleMapView,
    class: BehaviorMode,
    route: Seq<GridPoint>,
    from: GridPoint,
    to: GridPoint,
    j: int,
)
    requires
        is_route(map, class, route, from, to),
        0 <= j < route.len(),
    ensures
        is_route(map, class, route.take(j + 1), from, route[j]),
{
    let part = route.take(j + 1);
    assert forall|i: int| 0 <= i < part.len() - 1 implies map.contains(#[trigger] part[i])
        && adjacent(part[i], part[i + 1]) && passable(map, class, part[i + 1]) by {
        assert(map.contains(route[i]));
        assert(part[i] == route[i]);
        assert(part[i + 1] == route[i + 1]);
    }
}

/// A step costs the moving class at least the least cost.
pub proof fn lemma_step_cost_least(map: BattleMapView, class: BehaviorMode, p: GridPoint)
    requires
        map.wf(),
        passable(map, class, p),
    ensures
        step_cost(map, class, p) >= least_cost(class),
        1 <= step_cost(map, class, p) <= 50,
{
    if class == BehaviorMode::Ground {
        lemma_tile_index_range(map, p);
        let tile = map.tiles[tile_index(map, p)];
        assert(tile.wf());
    }
}

/// The estimate never overrates a step: from a tile it is at most the cost
/// of a step to a neighbour plus the estimate from there.
pub proof fn lemma_estimate_consistent(
    map: BattleMapView,
    class: BehaviorMode,
    x: GridPoint,
    y: GridPoint,
    to: GridPoint,
)
    requires
        map.wf(),
        adjacent(x, y),
        passable(map, class, y),
    ensures
        estimate_of(class, x, to) <= step_cost(map, class, y) + estimate_of(class, y, to),
        estimate_of(class, to, to) == 0,
        estimate_of(class, x, to) >= 0,
{
    reveal(estimate_of);
    lemma_step_cost_least(map, class, y);
    let cx = crate::types::chebyshev(x, to);
    let cy = crate::types::chebyshev(y, to);
    assert(cx <= cy + 1);
    assert(cx >= 0);
    if class == BehaviorMode::Ground {
        assert(cx * 10 <= cy * 10 + 10);
    }
}

/// A route, taken as a whole: the steps are looked at one by one through
/// `lemma_sealed_step`.
#[verifier::opaque]
spec fn sealed_route(
    map: BattleMapView,
    class: BehaviorMode,
    route: Seq<GridPoint>,
    from: GridPoint,
    to: GridPoint,
) -> bool {
    is_route(map, class, route, from, to)
}

proof fn lemma_sealed_step(
    map: BattleMapView,
    class: BehaviorMode,
    route: Seq<GridPoint>,
    from: GridPoint,
    to: GridPoint,
    j: int,
)
    requires
        sealed_route(map, class, route, from, to),
        0 <= j < route.len() - 1,
    ensures
        map.contains(route[j]),
        adjacent(route[j], route[j + 1]),
        passable(map, class, route[j + 1]),
{
    reveal(sealed_route);
}

proof fn lemma_sealed_ends(
    map: BattleMapView,
    class: BehaviorMode,
    route: Seq<GridPoint>,
    from: GridPoint,
    to: GridPoint,
)
    requires
        sealed_route(map, class, route, from, to),
    ensures
        route.len() >= 1,
        route[0] == from,
        route[route.len() - 1] == to,
{
    reveal(sealed_route);
}

/// The cost of a route of at least two tiles is that of the route without
/// its last tile plus the cost of that tile.
proof fn lemma_cost_unfold(map: BattleMapView, class: BehaviorMode, route: Seq<GridPoint>)
    requires
        route.len() >= 2,
    ensures
        route_cost(map, class, route) == route_cost(map, class, route.drop_last()) + step_cost(
            map,
            class,
            route.last(),
        ),
{
}

/// What is left of a route from one of its tiles on costs at least the
/// estimate from that tile.
proof fn lemma_estimate_along_route(
    map: BattleMapView,
    class: BehaviorMode,
    route: Seq<GridPoint>,
    from: GridPoint,
    to: GridPoint,
    goal: GridPoint,
    j: int,
)
    requires
        map.wf(),
        sealed_route(map, class, route, from, to),
        0 <= j < route.len(),
    ensures
        route_cost(map, class, route.take(j + 1)) + estimate_of(class, route[j], goal)
            <= route_cost(map, class, route) + estimate_of(class, to, goal),
    decreases route.len() - j,
{
    lemma_sealed_ends(map, class, route, from, to);
    if j == route.len() - 1 {
        assert(route.take(j + 1) =~= route);
    } else {
        lemma_estimate_along_route(map, class, route, from, to, goal, j + 1);
        lemma_sealed_step(map, class, route, from, to, j);
        lemma_estimate_consistent(map, class, route[j], route[j + 1], goal);
        let longer = route.take(j + 2);
        assert(longer.drop_last() =~= route.take(j + 1));
        assert(longer.last() == route[j + 1]);
        lemma_cost_unfold(map, class, longer);
    }
}

/// Mark of a tile that the search has not come to.
pub const UNSEEN: u128 = 0xffff_ffff_ffff_ffff_ffff_ffff_ffff_ffff;

/// What a search holds: for each tile the cost of the best way found to it
/// and the tile before it on that way, the tiles that are settled, and the
/// tiles that wait to be settled, in the order in which they were found.
struct Search {
    g: Vec<u128>,
    parent: Vec<GridPoint>,
    closed: Vec<bool>,
    open: Vec<GridPoint>,
}

spec fn seen(s: &Search, map: BattleMapView, p: GridPoint) -> bool {
    s.g@[tile_index(map, p)] != UNSEEN
}

spec fn settled(s: &Search, map: BattleMapView, p: GridPoint) -> bool {
    s.closed@[tile_index(map, p)]
}

/// The tile before a seen tile is settled, next to it, and cheaper to reach.
spec fn parent_ok(s: &Search, map: BattleMapView, class: BehaviorMode, p: GridPoint) -> bool {
    let q = s.parent@[tile_index(map, p)];
    &&& map.contains(q)
    &&& settled(s, map, q)
    &&& seen(s, map, q)
    &&& adjacent(q, p)
    &&& passable(map, class, p)
    &&& s.g@[tile_index(map, q)] < s.g@[tile_index(map, p)]
}

/// Every tile that can be entered from a settled tile is seen; for the tile
/// `current`, which is being settled, so far only in the first `done`
/// directions.
spec fn frontier_ok(
    s: &Search,
    map: BattleMapView,
    class: BehaviorMode,
    current: Option<GridPoint>,
    done: int,
) -> bool {
    forall|c: GridPoint, k: int|
        #![trigger settled(s, map, c), direction_step(k)]
        map.contains(c) && settled(s, map, c) && 0 <= k < 8 && (current == Some(c) ==> k < done)
            ==> {
            let np = neighbour(c, k);
            np is Some && passable(map, class, np.unwrap()) ==> seen(s, map, np.unwrap())
        }
}

/// The neighbour of a tile in the direction of rank `k`, when its
/// coordinates can be written.
pub open spec fn neighbour(c: GridPoint, k: int) -> Option<GridPoint> {
    let (dx, dy) = direction_step(k);
    if i32::MIN <= c.x + dx <= i32::MAX && i32::MIN <= c.y + dy <= i32::MAX {
        Some(GridPoint { x: (c.x + dx) as i32, y: (c.y + dy) as i32 })
    } else {
        None
    }
}

spec fn search_inv(
    s: &Search,
    map: BattleMapView,
    class: BehaviorMode,
    from: GridPoint,
    to: GridPoint,
    steps: int,
    closed_set: Set<int>,
) -> bool {
    &&& map.wf()
    &&& map.contains(from)
    &&& from != to
    &&& s.g@.len() == map.tiles.len()
    &&& s.parent@.len() == map.tiles.len()
    &&& s.closed@.len() == map.tiles.len()
    &&& seen(s, map, from)
    &&& s.g@[tile_index(map, from)] == 0
    &&& 0 <= steps
    &&& forall|p: GridPoint|
        map.contains(p) && #[trigger] seen(s, map, p) ==> s.g@[tile_index(map, p)] <= 50 * steps
    &&& forall|p: GridPoint|
        map.contains(p) && #[trigger] seen(s, map, p) && p != from ==> parent_ok(s, map, class, p)
    &&& forall|p: GridPoint|
        map.contains(p) && #[trigger] settled(s, map, p) ==> seen(s, map, p) && p != to
    &&& forall|k: int|
        0 <= k < s.open@.len() ==> map.contains(#[trigger] s.open@[k]) && seen(s, map, s.open@[k])
            && !settled(s, map, s.open@[k])
    &&& forall|j: int, k: int|
        0 <= j < k < s.open@.len() ==> s.open@[j] != s.open@[k]
    &&& forall|p: GridPoint|
        map.contains(p) && #[trigger] seen(s, map, p) && !settled(s, map, p) ==> s.open@.contains(
            p,
        )
    &&& closed_set.finite()
    &&& closed_set.len() == steps
    &&& forall|i: int|
        #![trigger closed_set.contains(i)]
        #![trigger s.closed@[i]]
        closed_set.contains(i) <==> 0 <= i < s.closed@.len() && s.closed@[i]
}

/// Cost of the best way found to a tile.
spec fn g_of(s: &Search, map: BattleMapView, p: GridPoint) -> int {
    s.g@[tile_index(map, p)] as int
}

/// The sum of cost and estimate by which waiting tiles are ranked.
spec fn rank_of(s: &Search, map: BattleMapView, class: BehaviorMode, p: GridPoint, to: GridPoint) -> int {
    g_of(s, map, p) + estimate_of(class, p, to)
}

/// The cost found to a seen tile is that of the tile before it plus its own,
/// and it is the cost of a route to the tile.
spec fn costs_ok(s: &Search, map: BattleMapView, class: BehaviorMode, from: GridPoint) -> bool {
    &&& forall|p: GridPoint|
        map.contains(p) && #[trigger] seen(s, map, p) && p != from ==> g_of(s, map, p) == g_of(
            s,
            map,
            s.parent@[tile_index(map, p)],
        ) + step_cost(map, class, p)
    &&& forall|p: GridPoint|
        map.contains(p) && #[trigger] seen(s, map, p) ==> reachable_at(
            map,
            class,
            from,
            p,
            g_of(s, map, p),
        )
}

/// No route to a settled tile is cheaper than the way found to it.
spec fn settled_best(s: &Search, map: BattleMapView, class: BehaviorMode, from: GridPoint) -> bool {
    forall|c: GridPoint, route: Seq<GridPoint>|
        map.contains(c) && #[trigger] settled(s, map, c) && #[trigger] sealed_route(
            map,
            class,
            route,
            from,
            c,
        ) ==> g_of(s, map, c) <= route_cost(map, class, route)
}

/// Every tile that can be entered from a settled tile is seen, at no more
/// than the cost of the settled tile plus its own; for the tile `current`,
/// which is being settled, so far only in the first `done` directions.
spec fn relaxed_ok(
    s: &Search,
    map: BattleMapView,
    class: BehaviorMode,
    current: Option<GridPoint>,
    done: int,
) -> bool {
    forall|c: GridPoint, k: int|
        #![trigger settled(s, map, c), direction_step(k)]
        map.contains(c) && settled(s, map, c) && 0 <= k < 8 && (current == Some(c) ==> k < done)
            ==> {
            let np = neighbour(c, k);
            np is Some && passable(map, class, np.unwrap()) ==> seen(s, map, np.unwrap()) && g_of(
                s,
                map,
                np.unwrap(),
            ) <= g_of(s, map, c) + step_cost(map, class, np.unwrap())
        }
}

/// Whether a waiting tile ranks first.
spec fn ranks_first(
    s: &Search,
    map: BattleMapView,
    class: BehaviorMode,
    to: GridPoint,
    current: GridPoint,
) -> bool {
    forall|k: int|
        0 <= k < s.open@.len() ==> rank_of(s, map, class, current, to) <= rank_of(
            s,
            map,
            class,
            #[trigger] s.open@[k],
            to,
        )
}

/// On a route from the start whose first `j` tiles are settled, the tile of
/// rank `j` is seen at no more than the cost of the route up to it.
proof fn lemma_prefix_bound(
    s: &Search,
    map: BattleMapView,
    class: BehaviorMode,
    from: GridPoint,
    to: GridPoint,
    steps: int,
    closed_set: Set<int>,
    route: Seq<GridPoint>,
    end: GridPoint,
    j: int,
)
    requires
        search_inv(s, map, class, from, to, steps, closed_set),
        settled_best(s, map, class, from),
        relaxed_ok(s, map, class, None, 0),
        sealed_route(map, class, route, from, end),
        0 <= j < route.len(),
        forall|i: int| 0 <= i < j ==> map.contains(#[trigger] route[i]) && settled(s, map, route[i]),
    ensures
        map.contains(route[j]) || j == route.len() - 1,
        j > 0 ==> map.contains(route[j]),
        (j > 0 || map.contains(route[j])) ==> seen(s, map, route[j]) && g_of(s, map, route[j])
            <= route_cost(map, class, route.take(j + 1)),
{
    lemma_sealed_ends(map, class, route, from, end);
    if j == 0 {
        assert(route.take(1).len() == 1);
        if route.len() > 1 {
            lemma_sealed_step(map, class, route, from, end, 0);
        }
    } else {
        let c = route[j - 1];
        let n = route[j];
        lemma_sealed_step(map, class, route, from, end, j - 1);
        assert(map.contains(c) && settled(s, map, c));
        lemma_adjacent_direction(c, n);
        let k = choose|k: int| 0 <= k < 8 && #[trigger] neighbour(c, k) == Some(n);
        lemma_passable_in_map(map, class, n);
        let (dx, dy) = direction_step(k);
        assert(seen(s, map, n) && g_of(s, map, n) <= g_of(s, map, c) + step_cost(map, class, n));
        // The way found to the settled tile before is no dearer than the route to it.
        let before = route.take(j);
        assert(is_route(map, class, before, from, c)) by {
            reveal(sealed_route);
            lemma_route_prefix(map, class, route, from, end, j - 1);
        }
        assert(sealed_route(map, class, before, from, c)) by {
            reveal(sealed_route);
        }
        assert(g_of(s, map, c) <= route_cost(map, class, before));
        let upto = route.take(j + 1);
        assert(upto.drop_last() =~= before);
        assert(upto.last() == n);
        lemma_cost_unfold(map, class, upto);
    }
}

/// The way found to the waiting tile that ranks first is no dearer than any
/// route to it.
proof fn lemma_selected_best(
    s: &Search,
    map: BattleMapView,
    class: BehaviorMode,
    from: GridPoint,
    to: GridPoint,
    steps: int,
    closed_set: Set<int>,
    current: GridPoint,
    route: Seq<GridPoint>,
    j: int,
)
    requires
        search_inv(s, map, class, from, to, steps, closed_set),
        settled_best(s, map, class, from),
        relaxed_ok(s, map, class, None, 0),
        map.contains(current),
        seen(s, map, current),
        !settled(s, map, current),
        ranks_first(s, map, class, to, current),
        sealed_route(map, class, route, from, current),
        0 <= j < route.len(),
        forall|i: int| 0 <= i < j ==> map.contains(#[trigger] route[i]) && settled(s, map, route[i]),
    ensures
        g_of(s, map, current) <= route_cost(map, class, route),
    decreases route.len() - j,
{
    lemma_sealed_ends(map, class, route, from, current);
    lemma_prefix_bound(s, map, class, from, to, steps, closed_set, route, current, j);
    let p = route[j];
    if j == 0 {
        assert(p == from);
        assert(map.contains(p));
    }
    if settled(s, map, p) {
        assert(j < route.len() - 1);
        assert forall|i: int| 0 <= i < j + 1 implies map.contains(#[trigger] route[i]) && settled(
            s,
            map,
            route[i],
        ) by {}
        lemma_selected_best(s, map, class, from, to, steps, closed_set, current, route, j + 1);
    } else {
        // The first tile of the route that is not settled waits, at no more
        // than the cost of the route up to it.
        assert(s.open@.contains(p));
        let k = choose|k: int| 0 <= k < s.open@.len() && s.open@[k] == p;
        assert(rank_of(s, map, class, current, to) <= rank_of(s, map, class, s.open@[k], to));
        lemma_estimate_along_route(map, class, route, from, current, to, j);
    }
}

/// A tile of the map has its place in the list of tiles.
proof fn lemma_tile_index_range(map: BattleMapView, p: GridPoint)
    requires
        map.wf(),
        map.contains(p),
    ensures
        0 <= tile_index(map, p) < map.tiles.len(),
        map.tile_at(p) == Some(map.tiles[tile_index(map, p)]),
{
    assert(p.y * map.width + p.x < map.width * map.height) by (nonlinear_arith)
        requires
            0 <= p.x < map.width,
            0 <= p.y < map.height,
    ;
    assert(0 <= p.y * map.width) by (nonlinear_arith)
        requires
            0 <= p.y,
            0 <= map.width,
    ;
}

/// Two tiles of the map at the same place in the list are the same tile.
proof fn lemma_tile_index_injective(map: BattleMapView, p: GridPoint, q: GridPoint)
    requires
        map.contains(p),
        map.contains(q),
        tile_index(map, p) == tile_index(map, q),
    ensures
        p == q,
{
    assert(p.y == q.y && p.x == q.x) by (nonlinear_arith)
        requires
            0 <= p.x < map.width,
            0 <= q.x < map.width,
            0 <= p.y,
            0 <= q.y,
            p.y * map.width + p.x == q.y * map.width + q.x,
    ;
}

/// A neighbouring tile lies in one of the eight directions.
proof fn lemma_adjacent_direction(c: GridPoint, p: GridPoint)
    requires
        adjacent(c, p),
    ensures
        exists|k: int| 0 <= k < 8 && #[trigger] neighbour(c, k) == Some(p),
{
    let dx = p.x - c.x;
    let dy = p.y - c.y;
    let k: int = if dx == 0 && dy == -1 {
        0
    } else if dx == 1 && dy == -1 {
        1
    } else if dx == 1 && dy == 0 {
        2
    } else if dx == 1 && dy == 1 {
        3
    } else if dx == 0 && dy == 1 {
        4
    } else if dx == -1 && dy == 1 {
        5
    } else if dx == -1 && dy == 0 {
        6
    } else {
        7
    };
    assert(neighbour(c, k) == Some(p));
}

fn tile_index_of(map: &BattleMap, p: &GridPoint) -> (i: usize)
    requires
        map.wf(),
        map@.contains(*p),
    ensures
        i == tile_index(map@, *p),
        i < map@.tiles.len(),
{
    proof {
        lemma_tile_index_range(map@, *p);
        assert(0 <= p.y * map.width <= 0x7fff_ffff * 0xffff_ffff) by (nonlinear_arith)
            requires
                0 <= p.y <= 0x7fff_ffff,
                0 <= map.width <= 0xffff_ffff,
        ;
    }
    let n: usize = map.tiles.len();
    ((p.y as u64) * (map.width as u64) + (p.x as u64)) as usize
}

fn passable_of(map: &BattleMap, class: BehaviorMode, p: &GridPoint) -> (free: bool)
    ensures
        free == passable(map@, class, *p),
{
    match class {
        BehaviorMode::Ground => map.tile_at(p).is_some(),
        BehaviorMode::Vehicle => map.drivable(p),
    }
}

fn step_cost_of(map: &BattleMap, class: BehaviorMode, p: &GridPoint) -> (cost: u128)
    requires
        map.wf(),
    ensures
        cost == step_cost(map@, class, *p),
        1 <= cost <= 50,
{
    match class {
        BehaviorMode::Ground => match map.tile_at(p) {
            Some(tile) => {
                proof {
                    lemma_tile_index_range(map@, *p);
                }
                let c: i32 = tile.pedestrian_cost;
                c as u128
            },
            None => 1,
        },
        BehaviorMode::Vehicle => 1,
    }
}

fn neighbour_of(c: &GridPoint, k: usize) -> (np: Option<GridPoint>)
    requires
        k < 8,
    ensures
        np == neighbour(*c, k as int),
{
    let (dx, dy): (i64, i64) = if k == 0 {
        (0, -1)
    } else if k == 1 {
        (1, -1)
    } else if k == 2 {
        (1, 0)
    } else if k == 3 {
        (1, 1)
    } else if k == 4 {
        (0, 1)
    } else if k == 5 {
        (-1, 1)
    } else if k == 6 {
        (-1, 0)
    } else {
        (-1, -1)
    };
    let x: i64 = c.x as i64 + dx;
    let y: i64 = c.y as i64 + dy;
    if x < i32::MIN as i64 || x > i32::MAX as i64 || y < i32::MIN as i64 || y > i32::MAX as i64 {
        None
    } else {
        Some(GridPoint { x: x as i32, y: y as i32 })
    }
}

/// Estimate of what is left to pay from a tile to the goal.
fn estimate(class: BehaviorMode, p: &GridPoint, to: &GridPoint) -> (h: u128)
    ensures
        h == estimate_of(class, *p, *to),
        h <= 0xffff_ffff * 10,
{
    reveal(estimate_of);
    let least: u128 = match class {
        BehaviorMode::Ground => 10,
        BehaviorMode::Vehicle => 1,
    };
    let d: u64 = p.chebyshev_to(to);
    assert(d * least <= 0xffff_ffff * 10) by (nonlinear_arith)
        requires
            0 <= d <= 0xffff_ffff,
            0 <= least <= 10,
    ;
    (d as u128) * least
}

/// Position, among the waiting tiles, of the one to settle next: the least
/// sum of cost and estimate, then the least estimate, then the one found
/// first.
fn pick_next(s: &Search, map: &BattleMap, class: BehaviorMode, to: &GridPoint, Ghost(steps): Ghost<int>) -> (best:
    usize)
    requires
        s.open@.len() > 0,
        map.wf(),
        s.g@.len() == map@.tiles.len(),
        0 <= steps <= usize::MAX,
        forall|k: int|
            0 <= k < s.open@.len() ==> map@.contains(#[trigger] s.open@[k]) && s.g@[tile_index(
                map@,
                s.open@[k],
            )] <= 50 * steps,
    ensures
        best < s.open@.len(),
        ranks_first(s, map@, class, *to, s.open@[best as int]),
{
    let mut best: usize = 0;
    let first = &s.open[0];
    let mut best_h: u128 = estimate(class, first, to);
    let mut best_f: u128 = s.g[tile_index_of(map, first)] + best_h;
    let mut k: usize = 1;
    while k < s.open.len()
        invariant
            1 <= k <= s.open@.len(),
            best < s.open@.len(),
            map.wf(),
            s.g@.len() == map@.tiles.len(),
            0 <= steps <= usize::MAX,
            best_f == rank_of(s, map@, class, s.open@[best as int], *to),
            forall|j: int|
                0 <= j < k ==> best_f <= rank_of(s, map@, class, #[trigger] s.open@[j], *to),
            forall|j: int|
                0 <= j < s.open@.len() ==> map@.contains(#[trigger] s.open@[j]) && s.g@[tile_index(
                    map@,
                    s.open@[j],
                )] <= 50 * steps,
        decreases s.open.len() - k,
    {
        let p = &s.open[k];
        let h: u128 = estimate(class, p, to);
        let f: u128 = s.g[tile_index_of(map, p)] + h;
        if f < best_f || (f == best_f && h < best_h) {
            best = k;
            best_f = f;
            best_h = h;
        }
        k += 1;
    }
    best
}

/// A neighbour in one of the eight directions is a neighbouring tile.
proof fn lemma_neighbour_adjacent(c: GridPoint, k: int)
    requires
        0 <= k < 8,
        neighbour(c, k) is Some,
    ensures
        adjacent(c, neighbour(c, k).unwrap()),
{
}

/// A tile that the moving class can enter is a tile of the map.
proof fn lemma_passable_in_map(map: BattleMapView, class: BehaviorMode, p: GridPoint)
    requires
        passable(map, class, p),
    ensures
        map.contains(p),
{
}

/// While a tile is being settled: the search is in order, the tile is
/// settled and was reached at a cost that leaves room for one more step, and
/// its first `done` directions have been looked at.
spec fn settling_inv(
    s: &Search,
    map: BattleMapView,
    class: BehaviorMode,
    from: GridPoint,
    to: GridPoint,
    steps: int,
    closed_set: Set<int>,
    current: GridPoint,
    done: int,
) -> bool {
    &&& settling_base(s, map, class, from, to, steps, closed_set, current, done)
    &&& costs_ok(s, map, class, from)
    &&& settled_best(s, map, class, from)
    &&& relaxed_ok(s, map, class, Some(current), done)
}

/// The part of `settling_inv` that does not speak of costs.
spec fn settling_base(
    s: &Search,
    map: BattleMapView,
    class: BehaviorMode,
    from: GridPoint,
    to: GridPoint,
    steps: int,
    closed_set: Set<int>,
    current: GridPoint,
    done: int,
) -> bool {
    &&& search_inv(s, map, class, from, to, steps, closed_set)
    &&& frontier_ok(s, map, class, Some(current), done)
    &&& map.contains(current)
    &&& settled(s, map, current)
    &&& s.g@[tile_index(map, current)] <= 50 * (steps - 1)
}

/// Looks from the tile being settled in the direction of rank `k`: a tile
/// found there for the first time waits to be settled, and a waiting tile
/// that is cheaper to reach this way is reached this way from now on.
fn visit_neighbour(
    s: &mut Search,
    map: &BattleMap,
    class: BehaviorMode,
    from: &GridPoint,
    to: &GridPoint,
    current: &GridPoint,
    k: usize,
    Ghost(steps): Ghost<int>,
    Ghost(closed_set): Ghost<Set<int>>,
)
    requires
        k < 8,
        steps <= usize::MAX,
        settling_inv(old(s), map@, class, *from, *to, steps, closed_set, *current, k as int),
    ensures
        settling_inv(final(s), map@, class, *from, *to, steps, closed_set, *current, k + 1),
{
    let ghost m = map@;
    let ghost before = *s;
    match neighbour_of(current, k) {
        None => {},
        Some(np) => {
            if passable_of(map, class, &np) {
                proof {
                    lemma_passable_in_map(m, class, np);
                    lemma_neighbour_adjacent(*current, k as int);
                    lemma_tile_index_range(m, np);
                    lemma_tile_index_range(m, *current);
                }
                let ni: usize = tile_index_of(map, &np);
                let ci: usize = tile_index_of(map, current);
                if s.closed[ni] {
                    assert(settled(s, m, np));
                    assert(seen(s, m, np));
                    proof {
                        lemma_settled_neighbour(s, m, class, *from, *current, np);
                    }
                } else {
                    let cost: u128 = step_cost_of(map, class, &np);
                    assert(50 * (steps - 1) + 50 <= 50 * 0xffff_ffff_ffff_ffff);
                    let tentative: u128 = s.g[ci] + cost;
                    let known: u128 = s.g[ni];
                    if known == UNSEEN || tentative < known {
                        proof {
                            if np == *from {
                                assert(known == 0);
                            }
                            if ni == ci {
                                lemma_tile_index_injective(m, np, *current);
                            }
                        }
                        s.g[ni] = tentative;
                        s.parent[ni] = *current;
                        if known == UNSEEN {
                            s.open.push(np);
                        }
                        proof {
                            lemma_relaxed(&before, s, m, class, *from, *to, steps, closed_set, *current, k as int, np);
                            lemma_relaxed_costs(&before, s, m, class, *from, *to, steps, closed_set, *current, k as int, np);
                        }
                    } else {
                        assert(seen(s, m, np));
                        assert(g_of(s, m, np) <= g_of(s, m, *current) + step_cost(m, class, np));
                    }
                }
            }
        },
    }
    proof {
        lemma_direction_done(&before, s, m, class, *current, k as int);
        lemma_direction_relaxed(s, m, class, *current, k as int);
    }
}

/// What a relaxation does to the search keeps it in order.
proof fn lemma_relaxed(
    before: &Search,
    after: &Search,
    map: BattleMapView,
    class: BehaviorMode,
    from: GridPoint,
    to: GridPoint,
    steps: int,
    closed_set: Set<int>,
    current: GridPoint,
    k: int,
    np: GridPoint,
)
    requires
        0 <= k < 8,
        steps <= usize::MAX,
        settling_base(before, map, class, from, to, steps, closed_set, current, k),
        neighbour(current, k) == Some(np),
        passable(map, class, np),
        map.contains(np),
        np != from,
        !settled(before, map, np),
        ({
            let ni = tile_index(map, np);
            let ci = tile_index(map, current);
            let tentative = before.g@[ci] + step_cost(map, class, np);
            let known = before.g@[ni];
            &&& 1 <= step_cost(map, class, np) <= 50
            &&& (known == UNSEEN || tentative < known)
            &&& after.g@ == before.g@.update(ni, tentative as u128)
            &&& after.parent@ == before.parent@.update(ni, current)
            &&& after.closed@ == before.closed@
            &&& after.open@ == if known == UNSEEN {
                before.open@.push(np)
            } else {
                before.open@
            }
        }),
    ensures
        search_inv(after, map, class, from, to, steps, closed_set),
        map.contains(current),
        settled(after, map, current),
        after.g@[tile_index(map, current)] <= 50 * (steps - 1),
        seen(after, map, np),
        forall|p: GridPoint| map.contains(p) && seen(before, map, p) ==> seen(after, map, p),
        forall|p: GridPoint| map.contains(p) ==> settled(after, map, p) == settled(before, map, p),
{
    let ni = tile_index(map, np);
    let ci = tile_index(map, current);
    lemma_tile_index_range(map, np);
    lemma_tile_index_range(map, current);
    lemma_tile_index_range(map, from);
    lemma_neighbour_adjacent(current, k);
    if ni == ci {
        lemma_tile_index_injective(map, np, current);
    }
    if ni == tile_index(map, from) {
        lemma_tile_index_injective(map, np, from);
    }
    let known = before.g@[ni];
    let tentative = before.g@[ci] + step_cost(map, class, np);
    assert(tentative != UNSEEN);
    assert forall|p: GridPoint| map.contains(p) implies (p != np ==> after.g@[tile_index(map, p)]
        == before.g@[tile_index(map, p)] && after.parent@[tile_index(map, p)]
        == before.parent@[tile_index(map, p)]) && 0 <= tile_index(map, p) < map.tiles.len() by {
        lemma_tile_index_range(map, p);
        if tile_index(map, p) == ni {
            lemma_tile_index_injective(map, p, np);
        }
    }
    assert forall|p: GridPoint| map.contains(p) && seen(before, map, p) implies seen(
        after,
        map,
        p,
    ) by {}
    assert forall|p: GridPoint| map.contains(p) && #[trigger] seen(after, map, p) implies after.g@[tile_index(
        map,
        p,
    )] <= 50 * steps by {
        if p != np {
            assert(seen(before, map, p));
        }
    }
    assert forall|p: GridPoint|
        map.contains(p) && #[trigger] seen(after, map, p) && p != from implies parent_ok(
        after,
        map,
        class,
        p,
    ) by {
        if p == np {
            assert(settled(before, map, current));
            assert(seen(before, map, current));
        } else {
            assert(seen(before, map, p));
            assert(parent_ok(before, map, class, p));
            let q = before.parent@[tile_index(map, p)];
            assert(settled(before, map, q));
            assert(q != np);
        }
    }
    assert forall|p: GridPoint| map.contains(p) && #[trigger] settled(after, map, p) implies seen(
        after,
        map,
        p,
    ) && p != to by {
        assert(settled(before, map, p));
    }
    assert forall|j: int| 0 <= j < after.open@.len() implies map.contains(
        #[trigger] after.open@[j],
    ) && seen(after, map, after.open@[j]) && !settled(after, map, after.open@[j]) by {
        if j < before.open@.len() {
            assert(after.open@[j] == before.open@[j]);
            assert(seen(before, map, before.open@[j]));
        }
    }
    assert forall|i: int, j: int| 0 <= i < j < after.open@.len() implies after.open@[i]
        != after.open@[j] by {
        if j == before.open@.len() {
            assert(before.open@[i] == after.open@[i]);
            assert(seen(before, map, before.open@[i]));
        }
    }
    assert forall|p: GridPoint|
        map.contains(p) && #[trigger] seen(after, map, p) && !settled(
            after,
            map,
            p,
        ) implies after.open@.contains(p) by {
        if p == np {
            if known == UNSEEN {
                assert(after.open@[before.open@.len() as int] == np);
            } else {
                assert(seen(before, map, np));
                assert(before.open@.contains(np));
                let j = choose|j: int| 0 <= j < before.open@.len() && before.open@[j] == np;
                assert(after.open@[j] == np);
            }
        } else {
            assert(seen(before, map, p));
            assert(before.open@.contains(p));
            let j = choose|j: int| 0 <= j < before.open@.len() && before.open@[j] == p;
            assert(after.open@[j] == p);
        }
    }
}

/// A settled neighbour of a seen tile was found at no more than the cost of
/// that tile plus its own.
proof fn lemma_settled_neighbour(
    s: &Search,
    map: BattleMapView,
    class: BehaviorMode,
    from: GridPoint,
    current: GridPoint,
    np: GridPoint,
)
    requires
        costs_ok(s, map, class, from),
        settled_best(s, map, class, from),
        map.contains(current),
        seen(s, map, current),
        map.contains(np),
        settled(s, map, np),
        adjacent(current, np),
        passable(map, class, np),
    ensures
        g_of(s, map, np) <= g_of(s, map, current) + step_cost(map, class, np),
{
    assert(reachable_at(map, class, from, current, g_of(s, map, current)));
    let way = choose|route: Seq<GridPoint>|
        #[trigger] is_route(map, class, route, from, current) && route_cost(map, class, route)
            == g_of(s, map, current);
    lemma_route_push(map, class, way, from, current, np);
    assert(sealed_route(map, class, way.push(np), from, np)) by {
        reveal(sealed_route);
    }
}

/// What a relaxation does to the search keeps the costs in order.
proof fn lemma_relaxed_costs(
    before: &Search,
    after: &Search,
    map: BattleMapView,
    class: BehaviorMode,
    from: GridPoint,
    to: GridPoint,
    steps: int,
    closed_set: Set<int>,
    current: GridPoint,
    k: int,
    np: GridPoint,
)
    requires
        0 <= k < 8,
        steps <= usize::MAX,
        settling_inv(before, map, class, from, to, steps, closed_set, current, k),
        neighbour(current, k) == Some(np),
        passable(map, class, np),
        map.contains(np),
        np != from,
        !settled(before, map, np),
        ({
            let ni = tile_index(map, np);
            let ci = tile_index(map, current);
            let tentative = before.g@[ci] + step_cost(map, class, np);
            let known = before.g@[ni];
            &&& 1 <= step_cost(map, class, np) <= 50
            &&& (known == UNSEEN || tentative < known)
            &&& after.g@ == before.g@.update(ni, tentative as u128)
            &&& after.parent@ == before.parent@.update(ni, current)
            &&& after.closed@ == before.closed@
        }),
    ensures
        costs_ok(after, map, class, from),
        settled_best(after, map, class, from),
        relaxed_ok(after, map, class, Some(current), k),
        g_of(after, map, np) <= g_of(after, map, current) + step_cost(map, class, np),
{
    let ni = tile_index(map, np);
    let ci = tile_index(map, current);
    lemma_tile_index_range(map, np);
    lemma_tile_index_range(map, current);
    lemma_neighbour_adjacent(current, k);
    if ni == ci {
        lemma_tile_index_injective(map, np, current);
    }
    let tentative = before.g@[ci] + step_cost(map, class, np);
    assert forall|p: GridPoint| map.contains(p) && p != np implies #[trigger] g_of(after, map, p)
        == g_of(before, map, p) by {
        lemma_tile_index_range(map, p);
        if tile_index(map, p) == ni {
            lemma_tile_index_injective(map, p, np);
        }
    }
    assert forall|p: GridPoint| map.contains(p) && p != np implies #[trigger] seen(after, map, p)
        == seen(before, map, p) && after.parent@[tile_index(map, p)]
        == before.parent@[tile_index(map, p)] by {
        lemma_tile_index_range(map, p);
        if tile_index(map, p) == ni {
            lemma_tile_index_injective(map, p, np);
        }
    }
    assert forall|p: GridPoint| map.contains(p) implies #[trigger] settled(after, map, p)
        == settled(before, map, p) by {
        lemma_tile_index_range(map, p);
    }
    assert(g_of(after, map, np) == tentative);
    assert(g_of(after, map, current) == g_of(before, map, current));
    assert forall|p: GridPoint|
        map.contains(p) && #[trigger] seen(after, map, p) && p != from implies g_of(after, map, p)
        == g_of(after, map, after.parent@[tile_index(map, p)]) + step_cost(map, class, p) by {
        lemma_tile_index_range(map, p);
        if p != np {
            assert(seen(before, map, p));
            assert(parent_ok(before, map, class, p));
            let q = before.parent@[tile_index(map, p)];
            assert(settled(before, map, q));
            assert(q != np);
            assert(g_of(after, map, q) == g_of(before, map, q));
        }
    }
    assert forall|p: GridPoint| map.contains(p) && #[trigger] seen(after, map, p) implies reachable_at(
        map,
        class,
        from,
        p,
        g_of(after, map, p),
    ) by {
        if p == np {
            assert(seen(before, map, current));
            assert(reachable_at(map, class, from, current, g_of(before, map, current)));
            let way = choose|route: Seq<GridPoint>|
                #[trigger] is_route(map, class, route, from, current) && route_cost(
                    map,
                    class,
                    route,
                ) == g_of(before, map, current);
            lemma_route_push(map, class, way, from, current, np);
            assert(is_route(map, class, way.push(np), from, np));
        } else {
            assert(seen(before, map, p));
            assert(reachable_at(map, class, from, p, g_of(before, map, p)));
        }
    }
    assert forall|c: GridPoint, route: Seq<GridPoint>|
        map.contains(c) && #[trigger] settled(after, map, c) && #[trigger] sealed_route(
            map,
            class,
            route,
            from,
            c,
        ) implies g_of(after, map, c) <= route_cost(map, class, route) by {
        assert(settled(before, map, c));
        assert(c != np);
    }
    assert forall|c: GridPoint, d: int|
        #![trigger settled(after, map, c), direction_step(d)]
        map.contains(c) && settled(after, map, c) && 0 <= d < 8 && (Some(current) == Some(c) ==> d
            < k) implies ({
        let n = neighbour(c, d);
        n is Some && passable(map, class, n.unwrap()) ==> seen(after, map, n.unwrap()) && g_of(
            after,
            map,
            n.unwrap(),
        ) <= g_of(after, map, c) + step_cost(map, class, n.unwrap())
    }) by {
        let n = neighbour(c, d);
        if n is Some && passable(map, class, n.unwrap()) {
            lemma_passable_in_map(map, class, n.unwrap());
            assert(settled(before, map, c));
            assert(c != np);
            assert(seen(before, map, n.unwrap()) && g_of(before, map, n.unwrap()) <= g_of(
                before,
                map,
                c,
            ) + step_cost(map, class, n.unwrap()));
            if n.unwrap() == np {
                assert(before.g@[ni] != UNSEEN);
                assert(g_of(after, map, np) < g_of(before, map, np));
            }
        }
    }
}

/// Once a direction has been looked at, with the tile found there seen at
/// no more than the cost of the current tile plus its own, the costs are in
/// order for that direction too.
proof fn lemma_direction_relaxed(
    s: &Search,
    map: BattleMapView,
    class: BehaviorMode,
    current: GridPoint,
    k: int,
)
    requires
        0 <= k < 8,
        relaxed_ok(s, map, class, Some(current), k),
        neighbour(current, k) matches Some(np) ==> passable(map, class, np) ==> seen(s, map, np)
            && g_of(s, map, np) <= g_of(s, map, current) + step_cost(map, class, np),
    ensures
        relaxed_ok(s, map, class, Some(current), k + 1),
{
    assert forall|c: GridPoint, d: int|
        #![trigger settled(s, map, c), direction_step(d)]
        map.contains(c) && settled(s, map, c) && 0 <= d < 8 && (Some(current) == Some(c) ==> d < k
            + 1) implies ({
        let n = neighbour(c, d);
        n is Some && passable(map, class, n.unwrap()) ==> seen(s, map, n.unwrap()) && g_of(
            s,
            map,
            n.unwrap(),
        ) <= g_of(s, map, c) + step_cost(map, class, n.unwrap())
    }) by {
        if c == current && d == k {
        } else {
            let (dx, dy) = direction_step(d);
        }
    }
}

/// Settling the waiting tile that ranks first keeps the costs in order.
proof fn lemma_settle_costs(
    before: &Search,
    after: &Search,
    map: BattleMapView,
    class: BehaviorMode,
    from: GridPoint,
    to: GridPoint,
    steps: int,
    closed_set: Set<int>,
    current: GridPoint,
    best: int,
)
    requires
        search_inv(before, map, class, from, to, steps, closed_set),
        costs_ok(before, map, class, from),
        settled_best(before, map, class, from),
        relaxed_ok(before, map, class, None, 0),
        0 <= best < before.open@.len(),
        current == before.open@[best],
        ranks_first(before, map, class, to, current),
        after.g@ == before.g@,
        after.parent@ == before.parent@,
        after.closed@ == before.closed@.update(tile_index(map, current), true),
    ensures
        costs_ok(after, map, class, from),
        settled_best(after, map, class, from),
        relaxed_ok(after, map, class, Some(current), 0),
{
    let ci = tile_index(map, current);
    lemma_tile_index_range(map, current);
    assert forall|p: GridPoint| map.contains(p) implies #[trigger] settled(after, map, p) == (
    settled(before, map, p) || p == current) by {
        lemma_tile_index_range(map, p);
        if tile_index(map, p) == ci {
            lemma_tile_index_injective(map, p, current);
        }
    }
    assert forall|p: GridPoint| map.contains(p) implies #[trigger] g_of(after, map, p) == g_of(
        before,
        map,
        p,
    ) by {}
    assert forall|p: GridPoint| map.contains(p) implies #[trigger] seen(after, map, p) == seen(
        before,
        map,
        p,
    ) by {}
    assert forall|p: GridPoint|
        map.contains(p) && #[trigger] seen(after, map, p) && p != from implies g_of(after, map, p)
        == g_of(after, map, after.parent@[tile_index(map, p)]) + step_cost(map, class, p) by {
        assert(seen(before, map, p));
        assert(parent_ok(before, map, class, p));
    }
    assert forall|p: GridPoint| map.contains(p) && #[trigger] seen(after, map, p) implies reachable_at(
        map,
        class,
        from,
        p,
        g_of(after, map, p),
    ) by {
        assert(seen(before, map, p));
    }
    assert forall|c: GridPoint, route: Seq<GridPoint>|
        map.contains(c) && #[trigger] settled(after, map, c) && #[trigger] sealed_route(
            map,
            class,
            route,
            from,
            c,
        ) implies g_of(after, map, c) <= route_cost(map, class, route) by {
        if c == current {
            lemma_sealed_ends(map, class, route, from, current);
            lemma_selected_best(before, map, class, from, to, steps, closed_set, current, route, 0);
        } else {
            assert(settled(before, map, c));
        }
    }
    assert forall|c: GridPoint, d: int|
        #![trigger settled(after, map, c), direction_step(d)]
        map.contains(c) && settled(after, map, c) && 0 <= d < 8 && (Some(current) == Some(c) ==> d
            < 0) implies ({
        let n = neighbour(c, d);
        n is Some && passable(map, class, n.unwrap()) ==> seen(after, map, n.unwrap()) && g_of(
            after,
            map,
            n.unwrap(),
        ) <= g_of(after, map, c) + step_cost(map, class, n.unwrap())
    }) by {
        let n = neighbour(c, d);
        if n is Some && passable(map, class, n.unwrap()) {
            lemma_passable_in_map(map, class, n.unwrap());
            assert(settled(before, map, c));
            let (dx, dy) = direction_step(d);
        }
    }
}

/// Once a direction has been looked at, the frontier holds for it.
proof fn lemma_direction_done(
    before: &Search,
    after: &Search,
    map: BattleMapView,
    class: BehaviorMode,
    current: GridPoint,
    k: int,
)
    requires
        0 <= k < 8,
        frontier_ok(before, map, class, Some(current), k),
        forall|p: GridPoint| map.contains(p) && seen(before, map, p) ==> seen(after, map, p),
        forall|p: GridPoint| map.contains(p) ==> settled(after, map, p) == settled(before, map, p),
        neighbour(current, k) matches Some(np) ==> passable(map, class, np) ==> seen(after, map, np),
    ensures
        frontier_ok(after, map, class, Some(current), k + 1),
{
    assert forall|c: GridPoint, d: int|
        #![trigger settled(after, map, c), direction_step(d)]
        map.contains(c) && settled(after, map, c) && 0 <= d < 8 && (Some(current) == Some(c) ==> d
            < k + 1) implies ({
        let np = neighbour(c, d);
        np is Some && passable(map, class, np.unwrap()) ==> seen(after, map, np.unwrap())
    }) by {
        let np = neighbour(c, d);
        if np is Some && passable(map, class, np.unwrap()) {
            lemma_passable_in_map(map, class, np.unwrap());
            if c == current && d == k {
            } else {
                assert(settled(before, map, c));
                assert(seen(before, map, np.unwrap()));
            }
        }
    }
}

/// When no tile waits to be settled, every tile of a route from the start
/// is settled; the goal is never settled, so there is no route to it.
proof fn lemma_no_route(
    s: &Search,
    map: BattleMapView,
    class: BehaviorMode,
    from: GridPoint,
    to: GridPoint,
    steps: int,
    closed_set: Set<int>,
    route: Seq<GridPoint>,
)
    requires
        search_inv(s, map, class, from, to, steps, closed_set),
        frontier_ok(s, map, class, None, 0),
        s.open@.len() == 0,
    ensures
        !is_route(map, class, route, from, to),
{
    if is_route(map, class, route, from, to) {
        lemma_route_settled(s, map, class, from, to, steps, closed_set, route, route.len() - 1);
        assert(settled(s, map, route.last()));
    }
}

proof fn lemma_route_settled(
    s: &Search,
    map: BattleMapView,
    class: BehaviorMode,
    from: GridPoint,
    to: GridPoint,
    steps: int,
    closed_set: Set<int>,
    route: Seq<GridPoint>,
    i: int,
)
    requires
        search_inv(s, map, class, from, to, steps, closed_set),
        frontier_ok(s, map, class, None, 0),
        s.open@.len() == 0,
        is_route(map, class, route, from, to),
        0 <= i < route.len(),
    ensures
        map.contains(route[i]),
        settled(s, map, route[i]),
    decreases i,
{
    if i == 0 {
        assert(seen(s, map, from));
        if !settled(s, map, from) {
            assert(s.open@.contains(from));
        }
    } else {
        lemma_route_settled(s, map, class, from, to, steps, closed_set, route, i - 1);
        let c = route[i - 1];
        let p = route[i];
        assert(map.contains(c) && adjacent(c, route[i - 1 + 1]) && passable(
            map,
            class,
            route[i - 1 + 1],
        ));
        lemma_adjacent_direction(c, p);
        let k = choose|k: int| 0 <= k < 8 && #[trigger] neighbour(c, k) == Some(p);
        lemma_passable_in_map(map, class, p);
        assert(settled(s, map, c));
        let (dx, dy) = direction_step(k);
        assert(seen(s, map, p));
        if !settled(s, map, p) {
            assert(s.open@.contains(p));
        }
    }
}

/// Cost of entering the tiles of rank `k` to the last but one of a way read
/// backward: what it costs to walk the way from its last tile to its tile of
/// rank `k`.
spec fn back_cost(map: BattleMapView, class: BehaviorMode, back: Seq<GridPoint>, k: int) -> int
    decreases back.len() - k,
{
    if k < 0 || k >= back.len() - 1 {
        0
    } else {
        step_cost(map, class, back[k]) + back_cost(map, class, back, k + 1)
    }
}

/// Reading one tile further back adds the cost of the tile that was last.
proof fn lemma_back_cost_push(
    map: BattleMapView,
    class: BehaviorMode,
    back: Seq<GridPoint>,
    q: GridPoint,
    k: int,
)
    requires
        back.len() >= 1,
        0 <= k <= back.len() - 1,
    ensures
        back_cost(map, class, back.push(q), k) == back_cost(map, class, back, k) + step_cost(
            map,
            class,
            back.last(),
        ),
    decreases back.len() - k,
{
    let longer = back.push(q);
    if k < back.len() - 1 {
        lemma_back_cost_push(map, class, back, q, k + 1);
        assert(longer[k] == back[k]);
    } else {
        assert(longer[k] == back.last());
        assert(back_cost(map, class, longer, k + 1) == 0);
    }
}

/// A route costs nothing less than nothing.
pub proof fn lemma_route_cost_not_negative(
    map: BattleMapView,
    class: BehaviorMode,
    route: Seq<GridPoint>,
    from: GridPoint,
    to: GridPoint,
)
    requires
        map.wf(),
        is_route(map, class, route, from, to),
    ensures
        route_cost(map, class, route) >= 0,
    decreases route.len(),
{
    if route.len() > 1 {
        assert(map.contains(route[route.len() - 2]) && adjacent(
            route[route.len() - 2],
            route[route.len() - 2 + 1],
        ) && passable(map, class, route[route.len() - 2 + 1]));
        lemma_route_prefix(map, class, route, from, to, route.len() - 2);
        assert(route.take(route.len() - 1) =~= route.drop_last());
        lemma_route_cost_not_negative(
            map,
            class,
            route.drop_last(),
            from,
            route[route.len() - 2],
        );
        lemma_step_cost_least(map, class, route.last());
    }
}

/// A list of `n` copies of a value.
fn filled_u128(n: usize, value: u128) -> (v: Vec<u128>)
    ensures
        v@.len() == n,
        forall|i: int| 0 <= i < n ==> v@[i] == value,
{
    let mut v: Vec<u128> = Vec::new();
    let mut i: usize = 0;
    while i < n
        invariant
            i <= n,
            v@.len() == i,
            forall|j: int| 0 <= j < i ==> v@[j] == value,
        decreases n - i,
    {
        v.push(value);
        i += 1;
    }
    v
}

fn filled_bool(n: usize, value: bool) -> (v: Vec<bool>)
    ensures
        v@.len() == n,
        forall|i: int| 0 <= i < n ==> v@[i] == value,
{
    let mut v: Vec<bool> = Vec::new();
    let mut i: usize = 0;
    while i < n
        invariant
            i <= n,
            v@.len() == i,
            forall|j: int| 0 <= j < i ==> v@[j] == value,
        decreases n - i,
    {
        v.push(value);
        i += 1;
    }
    v
}

fn filled_points(n: usize, value: GridPoint) -> (v: Vec<GridPoint>)
    ensures
        v@.len() == n,
        forall|i: int| 0 <= i < n ==> v@[i] == value,
{
    let mut v: Vec<GridPoint> = Vec::new();
    let mut i: usize = 0;
    while i < n
        invariant
            i <= n,
            v@.len() == i,
            forall|j: int| 0 <= j < i ==> v@[j] == value,
        decreases n - i,
    {
        v.push(value);
        i += 1;
    }
    v
}

/// A cheapest route from `from` to `to` for the moving class, if there is
/// one.
///
/// The search settles tiles best first: by the cost of the way found to a
/// tile plus the least that the rest of the way can cost, then by the latter,
/// then in the order in which tiles were found, the neighbours of a tile
/// being looked at from north clockwise. A tile's own route is the tile
/// alone, wherever it lies.
pub fn find_path(map: &BattleMap, from: &GridPoint, to: &GridPoint, class: BehaviorMode) -> (path: Option<
    Vec<GridPoint>,
>)
    requires
        map.wf(),
    ensures
        match path {
            Some(route) => is_route(map@, class, route@, *from, *to) && forall|other: Seq<GridPoint>|
                #[trigger] is_route(map@, class, other, *from, *to) ==> route_cost(
                    map@,
                    class,
                    route@,
                ) <= route_cost(map@, class, other),
            None => forall|route: Seq<GridPoint>| !is_route(map@, class, route, *from, *to),
        },
        *from == *to ==> (path matches Some(route) && route@ == seq![*from]),
{
    let ghost m = map@;
    if *from == *to {
        let mut route: Vec<GridPoint> = Vec::new();
        route.push(*from);
        assert(route@ =~= seq![*from]);
        proof {
            assert forall|other: Seq<GridPoint>| #[trigger]
                is_route(m, class, other, *from, *to) implies route_cost(m, class, route@)
                <= route_cost(m, class, other) by {
                lemma_route_cost_not_negative(m, class, other, *from, *to);
            }
        }
        return Some(route);
    }
    if !map.contains(from) {
        assert forall|route: Seq<GridPoint>| !is_route(m, class, route, *from, *to) by {
            if is_route(m, class, route, *from, *to) {
                assert(route.len() >= 2);
                assert(m.contains(route[0]));
            }
        }
        return None;
    }
    let n: usize = map.tiles.len();
    let start: usize = tile_index_of(map, from);
    let mut s = Search {
        g: filled_u128(n, UNSEEN),
        parent: filled_points(n, *from),
        closed: filled_bool(n, false),
        open: Vec::new(),
    };
    s.g[start] = 0;
    s.open.push(*from);
    let ghost mut steps: int = 0;
    let ghost mut closed_set: Set<int> = Set::empty();
    proof {
        assert forall|p: GridPoint| m.contains(p) && #[trigger] seen(&s, m, p) implies p
            == *from by {
            lemma_tile_index_range(m, p);
            if tile_index(m, p) == start {
                lemma_tile_index_injective(m, p, *from);
            }
        }
        assert forall|p: GridPoint| m.contains(p) implies !#[trigger] settled(&s, m, p) by {
            lemma_tile_index_range(m, p);
        }
        assert(s.open@[0] == *from);
        assert(search_inv(&s, m, class, *from, *to, steps, closed_set));
        assert(frontier_ok(&s, m, class, None, 0));
        assert(is_route(m, class, seq![*from], *from, *from));
        assert(route_cost(m, class, seq![*from]) == 0);
        assert(reachable_at(m, class, *from, *from, 0));
        assert(costs_ok(&s, m, class, *from));
        assert(settled_best(&s, m, class, *from));
        assert(relaxed_ok(&s, m, class, None, 0));
    }
    while s.open.len() > 0
        invariant
            m == map@,
            n == m.tiles.len(),
            search_inv(&s, m, class, *from, *to, steps, closed_set),
            frontier_ok(&s, m, class, None, 0),
            costs_ok(&s, m, class, *from),
            settled_best(&s, m, class, *from),
            relaxed_ok(&s, m, class, None, 0),
            steps <= n,
        decreases n - steps,
    {
        let best: usize = pick_next(&s, map, class, to, Ghost(steps));
        let ghost before = s;
        let current: GridPoint = s.open.remove(best);
        assert(current == before.open@[best as int]);
        assert(m.contains(current) && seen(&before, m, current) && !settled(&before, m, current));
        if current == *to {
            proof {
                assert(search_inv(&before, m, class, *from, *to, steps, closed_set));
            }
            let route = reconstruct_from(&s, Ghost(&before), map, class, from, to, Ghost(steps), Ghost(closed_set));
            proof {
                assert forall|other: Seq<GridPoint>| #[trigger]
                    is_route(m, class, other, *from, *to) implies route_cost(m, class, route@)
                    <= route_cost(m, class, other) by {
                    assert(sealed_route(m, class, other, *from, current)) by {
                        reveal(sealed_route);
                    }
                    lemma_selected_best(
                        &before,
                        m,
                        class,
                        *from,
                        *to,
                        steps,
                        closed_set,
                        current,
                        other,
                        0,
                    );
                }
            }
            return Some(route);
        }
        let ci: usize = tile_index_of(map, &current);
        s.closed[ci] = true;
        proof {
            lemma_settle(&before, &s, m, class, *from, *to, steps, closed_set, current, best as int);
            lemma_settle_costs(
                &before,
                &s,
                m,
                class,
                *from,
                *to,
                steps,
                closed_set,
                current,
                best as int,
            );
            closed_set = closed_set.insert(ci as int);
            steps = steps + 1;
        }
        let mut k: usize = 0;
        while k < 8
            invariant
                k <= 8,
                m == map@,
                n == m.tiles.len(),
                steps <= n,
                settling_inv(&s, m, class, *from, *to, steps, closed_set, current, k as int),
            decreases 8 - k,
        {
            visit_neighbour(&mut s, map, class, from, to, &current, k, Ghost(steps), Ghost(closed_set));
            k += 1;
        }
        proof {
            assert(frontier_ok(&s, m, class, None, 0));
            assert(relaxed_ok(&s, m, class, None, 0));
        }
    }
    proof {
        assert forall|route: Seq<GridPoint>| !is_route(m, class, route, *from, *to) by {
            lemma_no_route(&s, m, class, *from, *to, steps, closed_set, route);
        }
    }
    None
}

/// Reads the route back once the goal has been taken out of the waiting
/// tiles: nothing but the waiting list differs from the search in order.
fn reconstruct_from(
    s: &Search,
    Ghost(before): Ghost<&Search>,
    map: &BattleMap,
    class: BehaviorMode,
    from: &GridPoint,
    to: &GridPoint,
    Ghost(steps): Ghost<int>,
    Ghost(closed_set): Ghost<Set<int>>,
) -> (route: Vec<GridPoint>)
    requires
        search_inv(before, map@, class, *from, *to, steps, closed_set),
        costs_ok(before, map@, class, *from),
        s.g@ == before.g@,
        s.parent@ == before.parent@,
        s.closed@ == before.closed@,
        map@.contains(*to),
        seen(before, map@, *to),
    ensures
        is_route(map@, class, route@, *from, *to),
        route_cost(map@, class, route@) == g_of(before, map@, *to),
{
    let ghost m = map@;
    let mut back: Vec<GridPoint> = Vec::new();
    back.push(*to);
    let mut node: GridPoint = *to;
    assert(back_cost(m, class, back@, 0) == 0);
    while node != *from
        invariant
            search_inv(before, m, class, *from, *to, steps, closed_set),
            costs_ok(before, m, class, *from),
            s.g@ == before.g@,
            s.parent@ == before.parent@,
            m == map@,
            m.contains(node),
            seen(before, m, node),
            back@.len() >= 1,
            back@[0] == *to,
            back@.last() == node,
            g_of(before, m, *to) == g_of(before, m, node) + back_cost(m, class, back@, 0),
            forall|j: int|
                0 <= j < back@.len() - 1 ==> m.contains(#[trigger] back@[j + 1]) && adjacent(
                    back@[j + 1],
                    back@[j],
                ) && passable(m, class, back@[j]),
        decreases before.g@[tile_index(m, node)],
    {
        assert(parent_ok(before, m, class, node));
        let ghost old_back = back@;
        let i: usize = tile_index_of(map, &node);
        let q: GridPoint = s.parent[i];
        back.push(q);
        proof {
            lemma_back_cost_push(m, class, old_back, q, 0);
            assert(g_of(before, m, node) == g_of(before, m, q) + step_cost(m, class, node));
            assert forall|j: int| 0 <= j < back@.len() - 1 implies m.contains(
                #[trigger] back@[j + 1],
            ) && adjacent(back@[j + 1], back@[j]) && passable(m, class, back@[j]) by {
                if j < old_back.len() - 1 {
                    assert(back@[j + 1] == old_back[j + 1]);
                    assert(back@[j] == old_back[j]);
                } else {
                    assert(back@[j] == node);
                    assert(back@[j + 1] == q);
                }
            }
        }
        node = q;
    }
    let mut route: Vec<GridPoint> = Vec::new();
    let n: usize = back.len();
    let mut k: usize = n;
    while k > 0
        invariant
            k <= n,
            n == back@.len(),
            route@.len() == n - k,
            forall|j: int| 0 <= j < route@.len() ==> route@[j] == back@[n - 1 - j],
            route_cost(m, class, route@) == back_cost(m, class, back@, k as int),
        decreases k,
    {
        k -= 1;
        let ghost shorter = route@;
        route.push(back[k]);
        proof {
            assert(route@.drop_last() =~= shorter);
            if shorter.len() >= 1 {
                lemma_cost_unfold(m, class, route@);
            }
        }
    }
    proof {
        assert(g_of(before, m, *from) == 0);
        assert(route@[0] == back@[n - 1]);
        assert(route@.last() == back@[0]);
        assert forall|i: int| 0 <= i < route@.len() - 1 implies m.contains(#[trigger] route@[i])
            && adjacent(route@[i], route@[i + 1]) && passable(m, class, route@[i + 1]) by {
            let j = n - 2 - i;
            assert(route@[i] == back@[j + 1]);
            assert(route@[i + 1] == back@[j]);
        }
    }
    route
}

/// Settling the tile taken out of the waiting tiles keeps the search in
/// order, with one more tile settled and none of its directions looked at.
proof fn lemma_settle(
    before: &Search,
    after: &Search,
    map: BattleMapView,
    class: BehaviorMode,
    from: GridPoint,
    to: GridPoint,
    steps: int,
    closed_set: Set<int>,
    current: GridPoint,
    best: int,
)
    requires
        search_inv(before, map, class, from, to, steps, closed_set),
        frontier_ok(before, map, class, None, 0),
        0 <= best < before.open@.len(),
        current == before.open@[best],
        current != to,
        after.g@ == before.g@,
        after.parent@ == before.parent@,
        after.open@ == before.open@.remove(best),
        after.closed@ == before.closed@.update(tile_index(map, current), true),
    ensures
        settling_base(
            after,
            map,
            class,
            from,
            to,
            steps + 1,
            closed_set.insert(tile_index(map, current)),
            current,
            0,
        ),
        steps + 1 <= map.tiles.len(),
{
    let ci = tile_index(map, current);
    lemma_tile_index_range(map, current);
    assert forall|p: GridPoint| map.contains(p) implies #[trigger] settled(after, map, p) == (
    settled(before, map, p) || p == current) by {
        lemma_tile_index_range(map, p);
        if tile_index(map, p) == ci {
            lemma_tile_index_injective(map, p, current);
        }
    }
    assert forall|p: GridPoint| map.contains(p) implies #[trigger] seen(after, map, p) == seen(
        before,
        map,
        p,
    ) by {}
    assert forall|p: GridPoint|
        map.contains(p) && #[trigger] seen(after, map, p) && p != from implies parent_ok(
        after,
        map,
        class,
        p,
    ) by {
        assert(seen(before, map, p));
        assert(parent_ok(before, map, class, p));
        let q = before.parent@[tile_index(map, p)];
        assert(map.contains(q));
        assert(settled(before, map, q));
        assert(settled(after, map, q));
        assert(seen(before, map, q));
        assert(seen(after, map, q));
    }
    assert forall|p: GridPoint| map.contains(p) && #[trigger] settled(after, map, p) implies seen(
        after,
        map,
        p,
    ) && p != to by {
        if p != current {
            assert(settled(before, map, p));
        }
    }
    assert forall|k: int| 0 <= k < after.open@.len() implies map.contains(
        #[trigger] after.open@[k],
    ) && seen(after, map, after.open@[k]) && !settled(after, map, after.open@[k]) by {
        let j = if k < best {
            k
        } else {
            k + 1
        };
        assert(after.open@[k] == before.open@[j]);
        assert(before.open@[j] != before.open@[best]);
        assert(seen(before, map, before.open@[j]));
    }
    assert forall|i: int, j: int| 0 <= i < j < after.open@.len() implies after.open@[i]
        != after.open@[j] by {
        let a = if i < best {
            i
        } else {
            i + 1
        };
        let b = if j < best {
            j
        } else {
            j + 1
        };
        assert(after.open@[i] == before.open@[a]);
        assert(after.open@[j] == before.open@[b]);
    }
    assert forall|p: GridPoint|
        map.contains(p) && #[trigger] seen(after, map, p) && !settled(
            after,
            map,
            p,
        ) implies after.open@.contains(p) by {
        assert(seen(before, map, p));
        assert(p != current);
        assert(!settled(before, map, p));
        assert(before.open@.contains(p));
        let j = choose|j: int| 0 <= j < before.open@.len() && before.open@[j] == p;
        if j < best {
            assert(after.open@[j] == p);
        } else {
            assert(after.open@[j - 1] == p);
        }
    }
    let new_set = closed_set.insert(ci);
    assert(!closed_set.contains(ci)) by {
        assert(!settled(before, map, current));
    }
    assert forall|i: int|
        #![trigger new_set.contains(i)]
        #![trigger after.closed@[i]]
        new_set.contains(i) <==> 0 <= i < after.closed@.len() && after.closed@[i] by {}
    vstd::set_lib::lemma_int_range(0, map.tiles.len() as int);
    let all = vstd::set_lib::set_int_range(0, map.tiles.len() as int);
    assert(new_set.subset_of(all)) by {
        assert forall|i: int| new_set.contains(i) implies all.contains(i) by {}
    }
    vstd::set_lib::lemma_len_subset(new_set, all);
    assert forall|p: GridPoint|
        map.contains(p) && #[trigger] seen(after, map, p) implies after.g@[tile_index(map, p)]
        <= 50 * (steps + 1) by {
        assert(seen(before, map, p));
    }
    assert(seen(before, map, current));
    assert forall|c: GridPoint, d: int|
        #![trigger settled(after, map, c), direction_step(d)]
        map.contains(c) && settled(after, map, c) && 0 <= d < 8 && (Some(current) == Some(c) ==> d
            < 0) implies ({
        let np = neighbour(c, d);
        np is Some && passable(map, class, np.unwrap()) ==> seen(after, map, np.unwrap())
    }) by {
        let np = neighbour(c, d);
        if np is Some && passable(map, class, np.unwrap()) {
            lemma_passable_in_map(map, class, np.unwrap());
            assert(settled(before, map, c));
            assert(seen(before, map, np.unwrap()));
        }
    }
}

} // verus!
