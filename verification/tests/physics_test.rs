use open_combat::behavior::BehaviorMode;
use open_combat::config::VisibilityConfig;
use open_combat::map::terrain::TerrainTile;
use open_combat::map::BattleMap;
use open_combat::physics::path::find_path;
use open_combat::physics::visibility::{is_visible, visibility};
use open_combat::types::{GridPoint, WorldPoint};

fn g(x: i32, y: i32) -> GridPoint {
    GridPoint::new(x, y)
}

fn p(x: i32, y: i32) -> WorldPoint {
    WorldPoint::new(x, y)
}

fn map_from(rows: &[&str]) -> BattleMap {
    let height = rows.len() as u32;
    let width = rows[0].len() as u32;
    let mut tiles = Vec::new();
    for (y, row) in rows.iter().enumerate() {
        for (x, c) in row.chars().enumerate() {
            let id = match c {
                '.' => "ShortGrass",
                'm' => "Mud",
                'W' => "BrickWall",
                'w' => "Water",
                'h' => "Hedge",
                'H' => "HighGrass",
                'u' => "Underbrush",
                _ => panic!("unknown tile"),
            };
            tiles.push(TerrainTile::from_str_id(id, 1000, 1000, x as u32, y as u32, 0, 0).unwrap());
        }
    }
    BattleMap::new(width, height, 1000, 1000, tiles).unwrap()
}

fn adjacent(a: &GridPoint, b: &GridPoint) -> bool {
    a != b && (a.x - b.x).abs() <= 1 && (a.y - b.y).abs() <= 1
}

fn check_route(map: &BattleMap, route: &[GridPoint], from: GridPoint, to: GridPoint, class: BehaviorMode) {
    assert_eq!(route[0], from);
    assert_eq!(*route.last().unwrap(), to);
    for pair in route.windows(2) {
        assert!(adjacent(&pair[0], &pair[1]));
        assert!(map.contains(&pair[0]));
        match class {
            BehaviorMode::Ground => assert!(map.tile_at(&pair[1]).is_some()),
            BehaviorMode::Vehicle => assert!(map.drivable(&pair[1])),
        }
    }
}

fn cost(map: &BattleMap, route: &[GridPoint]) -> i32 {
    route[1..].iter().map(|t| map.pedestrian_cost(t).unwrap()).sum()
}

#[test]
fn the_path_from_a_tile_to_itself_is_the_tile() {
    let map = map_from(&["...", ".W.", "..."]);
    for class in [BehaviorMode::Ground, BehaviorMode::Vehicle] {
        assert_eq!(find_path(&map, &g(0, 0), &g(0, 0), class), Some(vec![g(0, 0)]));
        // Also on a blocking tile and outside the map.
        assert_eq!(find_path(&map, &g(1, 1), &g(1, 1), class), Some(vec![g(1, 1)]));
        assert_eq!(find_path(&map, &g(-5, 9), &g(-5, 9), class), Some(vec![g(-5, 9)]));
    }
}

#[test]
fn a_path_on_open_ground_takes_as_few_steps_as_a_king() {
    let map = map_from(&[".....", ".....", "....."]);
    let route = find_path(&map, &g(0, 1), &g(4, 1), BehaviorMode::Ground).unwrap();
    check_route(&map, &route, g(0, 1), g(4, 1), BehaviorMode::Ground);
    assert_eq!(route.len(), 5);
    let route = find_path(&map, &g(0, 0), &g(2, 2), BehaviorMode::Ground).unwrap();
    assert_eq!(route, vec![g(0, 0), g(1, 1), g(2, 2)]);
    let route = find_path(&map, &g(4, 2), &g(0, 2), BehaviorMode::Vehicle).unwrap();
    assert_eq!(route.len(), 5);
}

#[test]
fn among_equally_good_tiles_the_one_found_first_is_settled_first() {
    // From (0, 1) the tiles (1, 0), (1, 1) and (1, 2) are equally good; the
    // neighbours are looked at from north clockwise, so (1, 0) comes first.
    let map = map_from(&[".....", ".....", "....."]);
    let route = find_path(&map, &g(0, 1), &g(4, 1), BehaviorMode::Ground).unwrap();
    assert_eq!(route, vec![g(0, 1), g(1, 0), g(2, 0), g(3, 0), g(4, 1)]);
    // The search gives the same route every time.
    for _ in 0..3 {
        assert_eq!(find_path(&map, &g(0, 1), &g(4, 1), BehaviorMode::Ground).unwrap(), route);
    }
}

#[test]
fn a_path_starts_and_ends_where_asked_and_steps_between_neighbours() {
    let map = map_from(&[
        "........",
        ".WWWWWW.",
        ".W....W.",
        ".W.WW.W.",
        ".W..W...",
        ".WWWW.W.",
        "......W.",
    ]);
    for class in [BehaviorMode::Ground, BehaviorMode::Vehicle] {
        for (from, to) in [(g(0, 0), g(7, 6)), (g(2, 2), g(0, 6)), (g(3, 4), g(7, 0))] {
            let route = find_path(&map, &from, &to, class).unwrap();
            check_route(&map, &route, from, to, class);
        }
    }
}

#[test]
fn a_vehicle_goes_round_what_blocks_it_and_a_pedestrian_goes_through() {
    let map = map_from(&[".w.", ".w.", "..."]);
    let on_foot = find_path(&map, &g(0, 0), &g(2, 0), BehaviorMode::Ground).unwrap();
    assert_eq!(on_foot, vec![g(0, 0), g(1, 0), g(2, 0)]);
    let driven = find_path(&map, &g(0, 0), &g(2, 0), BehaviorMode::Vehicle).unwrap();
    check_route(&map, &driven, g(0, 0), g(2, 0), BehaviorMode::Vehicle);
    assert!(driven.contains(&g(1, 2)));
    assert_eq!(driven.len(), 5);
}

#[test]
fn no_path_where_there_is_none() {
    let map = map_from(&[".w.", ".w.", ".w."]);
    assert_eq!(find_path(&map, &g(0, 0), &g(2, 1), BehaviorMode::Vehicle), None);
    // A blocked goal cannot be entered.
    assert_eq!(find_path(&map, &g(0, 0), &g(1, 1), BehaviorMode::Vehicle), None);
    // Outside the map there is no tile to enter or to leave.
    assert_eq!(find_path(&map, &g(0, 0), &g(3, 0), BehaviorMode::Ground), None);
    assert_eq!(find_path(&map, &g(0, 0), &g(0, -1), BehaviorMode::Ground), None);
    assert_eq!(find_path(&map, &g(-1, 0), &g(0, 0), BehaviorMode::Ground), None);
}

#[test]
fn a_vehicle_may_start_from_a_tile_that_blocks_it() {
    let map = map_from(&["w.."]);
    assert_eq!(
        find_path(&map, &g(0, 0), &g(2, 0), BehaviorMode::Vehicle),
        Some(vec![g(0, 0), g(1, 0), g(2, 0)])
    );
}

#[test]
fn a_pedestrian_prefers_cheap_ground() {
    // Straight through the hedge costs 20 + 20 + 10; round it costs four steps of 10.
    let map = map_from(&[".....", ".hhh.", "....."]);
    let route = find_path(&map, &g(0, 1), &g(4, 1), BehaviorMode::Ground).unwrap();
    check_route(&map, &route, g(0, 1), g(4, 1), BehaviorMode::Ground);
    assert_eq!(cost(&map, &route), 40);
    assert!(!route.contains(&g(2, 1)));
}

#[test]
fn path_on_a_single_tile_map() {
    let map = map_from(&["."]);
    assert_eq!(find_path(&map, &g(0, 0), &g(0, 0), BehaviorMode::Ground), Some(vec![g(0, 0)]));
    assert_eq!(find_path(&map, &g(0, 0), &g(1, 0), BehaviorMode::Ground), None);
}

fn sight() -> VisibilityConfig {
    VisibilityConfig { step: 1000, threshold: 500000, decay: 500000 }
}

#[test]
fn open_ground_hides_nothing() {
    let map = map_from(&["..........", ".........."]);
    let seen = visibility(&sight(), p(500, 500), p(9500, 500), &map);
    assert!(seen.visible);
    assert_eq!(seen.path_final_opacity, 0);
    assert_eq!(seen.opacity_segments.len(), 9);
    assert_eq!(seen.opacity_segments[0], (p(1500, 500), 0));
    assert_eq!(seen.opacity_segments[8], (p(9500, 500), 0));
    assert_eq!(seen.from, p(500, 500));
    assert_eq!(seen.to, p(9500, 500));
    assert!(is_visible(&sight(), p(500, 500), p(9500, 500), &map));
}

#[test]
fn a_wall_hides_what_is_behind_it() {
    let map = map_from(&["....W.....", ".........."]);
    let seen = visibility(&sight(), p(500, 500), p(9500, 500), &map);
    assert!(!seen.visible);
    assert_eq!(seen.path_final_opacity, 1000000);
    // The opacity is gathered sample by sample.
    assert_eq!(seen.opacity_segments[2], (p(3500, 500), 0));
    assert_eq!(seen.opacity_segments[3], (p(4500, 500), 1000000));
    assert_eq!(seen.opacity_segments[8], (p(9500, 500), 1000000));
    assert!(!is_visible(&sight(), p(500, 500), p(9500, 500), &map));
    // Along the other row the way is clear.
    assert!(is_visible(&sight(), p(500, 1500), p(9500, 1500), &map));
}

#[test]
fn opacity_adds_up_along_the_line() {
    // Three tiles of underbrush at 0.1 each stay under a threshold of 0.5, six do not.
    let map = map_from(&[".uuu......", ".uuuuuu..."]);
    let seen = visibility(&sight(), p(500, 500), p(9500, 500), &map);
    assert_eq!(seen.path_final_opacity, 300000);
    assert!(seen.visible);
    let seen = visibility(&sight(), p(500, 1500), p(9500, 1500), &map);
    assert_eq!(seen.path_final_opacity, 600000);
    assert!(!seen.visible);
}

#[test]
fn the_observers_own_tile_counts_for_a_share() {
    // The observer stands in a hedge (0.2): samples on its own tile count half.
    let map = map_from(&["h........."]);
    let config = VisibilityConfig { step: 250, threshold: 500000, decay: 500000 };
    let seen = visibility(&config, p(100, 500), p(1100, 500), &map);
    // Samples at 350, 600, 850 on the hedge, each 0.1; the last at 1100 is off it.
    assert_eq!(seen.opacity_segments.len(), 4);
    assert_eq!(seen.path_final_opacity, 300000);
    let whole = VisibilityConfig { step: 250, threshold: 500000, decay: 2000000 };
    assert_eq!(visibility(&whole, p(100, 500), p(1100, 500), &map).path_final_opacity, 600000);
}

#[test]
fn a_target_nearer_than_a_step_is_seen() {
    let map = map_from(&["WW"]);
    let seen = visibility(&sight(), p(500, 500), p(1400, 500), &map);
    assert!(seen.visible);
    assert!(seen.opacity_segments.is_empty());
    assert_eq!(seen.path_final_opacity, 0);
}

#[test]
fn without_a_step_nothing_is_sampled() {
    let map = map_from(&["WW"]);
    let config = VisibilityConfig { step: 0, threshold: 1, decay: 0 };
    assert!(visibility(&config, p(500, 500), p(1900, 500), &map).visible);
    let blind = VisibilityConfig { step: 0, threshold: 0, decay: 0 };
    assert!(!visibility(&blind, p(500, 500), p(1900, 500), &map).visible);
    assert!(!is_visible(&blind, p(500, 500), p(1900, 500), &map));
}

#[test]
fn sight_goes_both_ways_over_the_same_ground_outside_own_tiles() {
    let map = map_from(&["..u..H..h.", ".........."]);
    let a = p(500, 500);
    let b = p(9500, 1500);
    assert_eq!(is_visible(&sight(), a, b, &map), is_visible(&sight(), b, a, &map));
}

/// The cost of the cheapest route by trying every route without loops.
fn cheapest(map: &BattleMap, from: GridPoint, to: GridPoint, class: BehaviorMode) -> Option<i32> {
    fn walk(
        map: &BattleMap,
        at: GridPoint,
        to: GridPoint,
        class: BehaviorMode,
        seen: &mut Vec<GridPoint>,
        cost: i32,
        best: &mut Option<i32>,
    ) {
        if at == to {
            if best.map(|b| cost < b).unwrap_or(true) {
                *best = Some(cost);
            }
            return;
        }
        if let Some(b) = best {
            if cost >= *b {
                return;
            }
        }
        for (dx, dy) in [(0, -1), (1, -1), (1, 0), (1, 1), (0, 1), (-1, 1), (-1, 0), (-1, -1)] {
            let next = GridPoint::new(at.x + dx, at.y + dy);
            let free = match class {
                BehaviorMode::Ground => map.tile_at(&next).is_some(),
                BehaviorMode::Vehicle => map.drivable(&next),
            };
            if free && !seen.contains(&next) {
                let step = match class {
                    BehaviorMode::Ground => map.pedestrian_cost(&next).unwrap(),
                    BehaviorMode::Vehicle => 1,
                };
                seen.push(next);
                walk(map, next, to, class, seen, cost + step, best);
                seen.pop();
            }
        }
    }
    let mut best = None;
    if map.contains(&from) || from == to {
        walk(map, from, to, class, &mut vec![from], 0, &mut best);
    }
    best
}

#[test]
fn the_path_found_is_a_cheapest_one() {
    let map = map_from(&["..h.", "m.hw", ".uh.", "...."]);
    for class in [BehaviorMode::Ground, BehaviorMode::Vehicle] {
        for fx in 0..4 {
            for fy in 0..4 {
                for (tx, ty) in [(3, 0), (0, 3), (2, 1), (3, 3)] {
                    let from = g(fx, fy);
                    let to = g(tx, ty);
                    let found = find_path(&map, &from, &to, class);
                    let least = cheapest(&map, from, to, class);
                    match (found, least) {
                        (Some(route), Some(least)) => {
                            check_route(&map, &route, from, to, class);
                            let paid = match class {
                                BehaviorMode::Ground => cost(&map, &route),
                                BehaviorMode::Vehicle => route.len() as i32 - 1,
                            };
                            assert_eq!(paid, least, "{:?} to {:?} for {:?}", from, to, class);
                        }
                        (None, None) => {}
                        (found, least) => {
                            panic!("{:?} to {:?}: found {:?}, least {:?}", from, to, found, least)
                        }
                    }
                }
            }
        }
    }
}
