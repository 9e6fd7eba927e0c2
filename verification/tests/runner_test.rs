use open_combat::behavior::{Behavior, Body};
use open_combat::config::{ExplosiveProfile, FireConfig, ServerConfig, VisibilityConfig};
use open_combat::entity::soldier::{Status, UnderFire};
use open_combat::entity::vehicle::OnBoardPlace;
use open_combat::game::{ExplosiveType, Side, Sound};
use open_combat::map::terrain::TerrainTile;
use open_combat::map::BattleMap;
use open_combat::message::{InputMessage, OutputMessage};
use open_combat::order::path::{WorldPath, WorldPaths};
use open_combat::order::Order;
use open_combat::physics::event::{Explosion, Projectile};
use open_combat::runner::formation::{formation_offset_of, offset_paths_of, offset_point_of};
use open_combat::runner::message::{ClientStateMessage, RunnerMessage};
use open_combat::runner::movement::{reached_of, step_toward_of};
use open_combat::runner::physics::explosion::{blast_effect_of, within_chance_of, BlastEffect, BlastRolls};
use open_combat::runner::physics::fire::{is_hit_of, FireRolls};
use open_combat::runner::{Runner, RunnerError};
use open_combat::state::battle::BattleState;
use open_combat::state::message::{BattleStateMessage, SoldierMessage};
use open_combat::types::{Angle, Distance, SoldierIndex, SquadUuid, WorldPoint};

fn p(x: i32, y: i32) -> WorldPoint {
    WorldPoint::new(x, y)
}

fn route(parts: Vec<Vec<WorldPoint>>) -> WorldPaths {
    WorldPaths::new(parts.into_iter().map(WorldPath::new).collect())
}

fn map_of(width: u32, height: u32, walls: &[(u32, u32)]) -> BattleMap {
    let mut tiles = Vec::new();
    for y in 0..height {
        for x in 0..width {
            let id = if walls.contains(&(x, y)) { "BrickWall" } else { "ShortGrass" };
            tiles.push(TerrainTile::from_str_id(id, 5000, 5000, x, y, 0, 0).unwrap());
        }
    }
    BattleMap::new(width, height, 5000, 5000, tiles).unwrap()
}

fn config() -> ServerConfig {
    ServerConfig {
        move_velocity: 50,
        move_fast_velocity: 100,
        move_hide_velocity: 20,
        drive_velocity: 200,
        formation_spacing: 2000,
        grenade: Some(ExplosiveProfile {
            direct_death: Distance::from_millimeters(1500),
            regressive_death: Distance::from_millimeters(6000),
            regressive_injured: Distance::from_millimeters(12000),
        }),
        mortar_shell: None,
        artillery_shell: None,
        visibility: VisibilityConfig { step: 1000, threshold: 500000, decay: 500000 },
        fire: FireConfig {
            interval: 0,
            bullet_frames: 3,
            hit_chance: 500000,
            kill_chance: 250000,
            under_fire: 30,
            suppress_radius: 5000,
        },
    }
}

/// Soldiers 0, 1, 2 of side A in squad 0, out of sight of soldiers 3, 4 of side B in
/// squad 1 behind a wall.
fn separated() -> Runner {
    let walls: Vec<(u32, u32)> = (0..20).map(|y| (10, y)).collect();
    let mut state = BattleState::empty(map_of(20, 20, &walls));
    let a = state.push_squad();
    let b = state.push_squad();
    state.push_soldier(Side::A, a, p(12000, 12000)).unwrap();
    state.push_soldier(Side::A, a, p(14000, 12000)).unwrap();
    state.push_soldier(Side::A, a, p(16000, 12000)).unwrap();
    state.push_soldier(Side::B, b, p(82000, 12000)).unwrap();
    state.push_soldier(Side::B, b, p(84000, 12000)).unwrap();
    Runner::new(config(), state)
}

/// The same line-up on open ground: everybody sees everybody.
fn in_sight() -> Runner {
    let mut state = BattleState::empty(map_of(20, 20, &[]));
    let a = state.push_squad();
    let b = state.push_squad();
    state.push_soldier(Side::A, a, p(12000, 12000)).unwrap();
    state.push_soldier(Side::A, a, p(14000, 12000)).unwrap();
    state.push_soldier(Side::A, a, p(16000, 12000)).unwrap();
    state.push_soldier(Side::B, b, p(82000, 12000)).unwrap();
    state.push_soldier(Side::B, b, p(84000, 12000)).unwrap();
    Runner::new(config(), state)
}

fn to(i: usize, m: SoldierMessage) -> RunnerMessage {
    RunnerMessage::BattleState(BattleStateMessage::Soldier(SoldierIndex(i), m))
}

fn is_set_behavior(m: &RunnerMessage, i: usize, b: &Behavior) -> bool {
    match m {
        RunnerMessage::BattleState(BattleStateMessage::Soldier(
            j,
            SoldierMessage::SetBehavior(got),
        )) => j.0 == i && got.same_as(b),
        _ => false,
    }
}

fn is_set_order(m: &RunnerMessage, i: usize, o: &Order) -> bool {
    match m {
        RunnerMessage::BattleState(BattleStateMessage::Soldier(j, SoldierMessage::SetOrder(got))) => {
            j.0 == i && got.same_as(o)
        }
        _ => false,
    }
}

fn soldier_behavior(runner: &Runner, i: usize) -> Vec<RunnerMessage> {
    runner.soldier_behavior(runner.battle_state.soldier(SoldierIndex(i)))
}

#[test]
fn sleep_duration_fills_the_cycle() {
    assert_eq!(Runner::sleep_duration(0), 16666);
    assert_eq!(Runner::sleep_duration(10000), 6666);
    assert_eq!(Runner::sleep_duration(16666), 0);
    assert_eq!(Runner::sleep_duration(16667), 0);
    assert_eq!(Runner::sleep_duration(u64::MAX), 0);
}

#[test]
fn runner_error_texts() {
    assert_eq!(RunnerError::InputChannelClosed.message(), "Input channel closed");
    assert_eq!(RunnerError::OutputChannelClosed.message(), "Output channel closed");
}

#[test]
fn idle_soldier_without_fire_or_opponent_stays_idle() {
    let runner = separated();
    assert!(soldier_behavior(&runner, 1).is_empty());
    assert!(runner
        .idle_behavior(runner.battle_state.soldier(SoldierIndex(1)))
        .same_as(&Behavior::Idle(Body::StandUp)));
}

#[test]
fn idle_soldier_under_fire_hides_facing_where_it_faces() {
    // Soldier 1 faces 0 and comes under fire through a blast at tick 10.
    let mut runner = separated();
    runner.battle_state.frame_i = 10;
    runner.react(&vec![to(1, SoldierMessage::IncreaseUnderFire(150))]);
    runner.react(&vec![RunnerMessage::BattleState(BattleStateMessage::IncrementFrameI)]);
    // Tick 11: the computed behavior is to hide, and it is set.
    let messages = soldier_behavior(&runner, 1);
    assert_eq!(messages.len(), 1);
    assert!(is_set_behavior(&messages[0], 1, &Behavior::Hide(Angle(0))));
    runner.react(&messages);
    runner.react(&runner.soldier_update(SoldierIndex(1)));
    assert_eq!(*runner.battle_state.soldier(SoldierIndex(1)).under_fire(), UnderFire(149));
    // Tick 12: less under fire, still hiding, nothing to change.
    assert!(soldier_behavior(&runner, 1).is_empty());
    assert!(runner
        .battle_state
        .soldier(SoldierIndex(1))
        .behavior()
        .same_as(&Behavior::Hide(Angle(0))));
}

#[test]
fn hiding_faces_the_direction_of_the_soldier() {
    let mut runner = separated();
    runner.react(&vec![
        to(1, SoldierMessage::SetOrientation(Angle(135000))),
        to(1, SoldierMessage::IncreaseUnderFire(1)),
    ]);
    let messages = soldier_behavior(&runner, 1);
    assert!(is_set_behavior(&messages[0], 1, &Behavior::Hide(Angle(135000))));
}

#[test]
fn idle_soldier_engages_the_nearest_opponent_in_sight() {
    let runner = in_sight();
    let s = runner.battle_state.soldier(SoldierIndex(2));
    assert_eq!(runner.get_soldier_opponent(s, None), Some(SoldierIndex(3)));
    let messages = soldier_behavior(&runner, 2);
    assert_eq!(messages.len(), 1);
    assert!(is_set_behavior(&messages[0], 2, &Behavior::EngageSoldier(SoldierIndex(3))));
    // From the other side the nearest is soldier 2.
    let e = runner.battle_state.soldier(SoldierIndex(4));
    assert_eq!(runner.get_soldier_opponent(e, None), Some(SoldierIndex(2)));
}

#[test]
fn opponents_behind_a_wall_are_not_engaged() {
    let runner = separated();
    let s = runner.battle_state.soldier(SoldierIndex(0));
    assert_eq!(runner.get_soldier_opponent(s, None), None);
    assert!(runner.visible_opponents(&Side::A).is_empty());
    assert!(runner.visible_opponents(&Side::B).is_empty());
}

#[test]
fn visible_opponents_are_those_in_sight_of_the_side() {
    let runner = in_sight();
    assert_eq!(runner.visible_opponents(&Side::A), vec![SoldierIndex(3), SoldierIndex(4)]);
    assert_eq!(
        runner.visible_opponents(&Side::B),
        vec![SoldierIndex(0), SoldierIndex(1), SoldierIndex(2)]
    );
}

#[test]
fn dead_opponents_are_not_engaged_and_equally_near_ones_go_by_rank() {
    let mut runner = in_sight();
    runner.react(&vec![to(3, SoldierMessage::SetAlive(false))]);
    let s = runner.battle_state.soldier(SoldierIndex(2));
    assert_eq!(runner.get_soldier_opponent(s, None), Some(SoldierIndex(4)));
    runner.react(&vec![to(4, SoldierMessage::SetAlive(false))]);
    let s = runner.battle_state.soldier(SoldierIndex(2));
    assert_eq!(runner.get_soldier_opponent(s, None), None);

    let mut runner = in_sight();
    runner.react(&vec![
        to(3, SoldierMessage::SetWorldPosition(p(30000, 12000))),
        to(4, SoldierMessage::SetWorldPosition(p(2000, 12000))),
    ]);
    // Soldiers 3 and 4 are both 14 m from soldier 2: the earlier wins.
    let s = runner.battle_state.soldier(SoldierIndex(2));
    assert_eq!(runner.get_soldier_opponent(s, None), Some(SoldierIndex(3)));
}

#[test]
fn engage_order_looks_only_at_the_given_squad() {
    let runner = in_sight();
    let s = runner.battle_state.soldier(SoldierIndex(0));
    assert_eq!(runner.get_soldier_opponent(s, Some(&SquadUuid(1))), Some(SoldierIndex(3)));
    assert_eq!(runner.get_soldier_opponent(s, Some(&SquadUuid(0))), None);
    assert!(runner
        .engage_behavior(s, &SquadUuid(1))
        .same_as(&Behavior::EngageSoldier(SoldierIndex(3))));
    assert!(runner.engage_behavior(s, &SquadUuid(7)).same_as(&Behavior::Idle(Body::StandUp)));
}

#[test]
fn move_order_walks_sneaks_from_warning_on() {
    let mut runner = separated();
    let paths = route(vec![vec![p(20000, 12000), p(30000, 12000)]]);
    let s = runner.battle_state.soldier(SoldierIndex(1));
    assert!(runner.move_behavior(s, &paths).same_as(&Behavior::MoveTo(paths.clone())));
    runner.react(&vec![to(1, SoldierMessage::IncreaseUnderFire(99))]);
    let s = runner.battle_state.soldier(SoldierIndex(1));
    assert!(runner.move_behavior(s, &paths).same_as(&Behavior::MoveTo(paths.clone())));
    runner.react(&vec![to(1, SoldierMessage::IncreaseUnderFire(1))]);
    let s = runner.battle_state.soldier(SoldierIndex(1));
    assert!(runner.move_behavior(s, &paths).same_as(&Behavior::SneakTo(paths.clone())));
    runner.react(&vec![to(1, SoldierMessage::IncreaseUnderFire(100))]);
    let s = runner.battle_state.soldier(SoldierIndex(1));
    assert!(runner.move_behavior(s, &paths).same_as(&Behavior::SneakTo(paths)));
}

#[test]
fn move_fast_order_runs_and_sneaks_from_danger_on() {
    let mut runner = separated();
    let paths = route(vec![vec![p(20000, 12000)]]);
    runner.react(&vec![to(1, SoldierMessage::IncreaseUnderFire(149))]);
    let s = runner.battle_state.soldier(SoldierIndex(1));
    assert!(runner.move_fast_behavior(s, &paths).same_as(&Behavior::MoveFastTo(paths.clone())));
    runner.react(&vec![to(1, SoldierMessage::IncreaseUnderFire(1))]);
    let s = runner.battle_state.soldier(SoldierIndex(1));
    assert!(runner.move_fast_behavior(s, &paths).same_as(&Behavior::SneakTo(paths)));
}

#[test]
fn other_orders_map_to_their_behavior() {
    let runner = separated();
    let s = runner.battle_state.soldier(SoldierIndex(1));
    let paths = route(vec![vec![p(20000, 12000)]]);
    assert!(runner.sneak_to_behavior(s, &paths).same_as(&Behavior::SneakTo(paths)));
    assert!(runner.defend_behavior(s, &Angle(3)).same_as(&Behavior::Defend(Angle(3))));
    assert!(runner.hide_behavior(s, &Angle(4)).same_as(&Behavior::Hide(Angle(4))));
    assert!(runner.suppress_fire_behavior(s, &p(1, 2)).same_as(&Behavior::SuppressFire(p(1, 2))));
}

#[test]
fn leader_on_the_move_who_spots_an_opponent_engages_and_passes_it_on() {
    // The leader has an order to move; an opponent is in sight.
    let mut runner = in_sight();
    let paths = route(vec![vec![p(20000, 12000), p(30000, 12000)]]);
    runner.react(&vec![to(0, SoldierMessage::SetOrder(Order::MoveTo(paths, None)))]);
    let leader = runner.battle_state.soldier(SoldierIndex(0));
    assert!(runner
        .move_behavior(leader, &route(vec![vec![p(20000, 12000), p(30000, 12000)]]))
        .same_as(&Behavior::EngageSoldier(SoldierIndex(3))));
    let messages = soldier_behavior(&runner, 0);
    // Each subordinate is to engage the opponent's squad, then the behavior is set.
    assert_eq!(messages.len(), 3);
    assert!(is_set_order(&messages[0], 1, &Order::EngageSquad(SquadUuid(1))));
    assert!(is_set_order(&messages[1], 2, &Order::EngageSquad(SquadUuid(1))));
    assert!(is_set_behavior(&messages[2], 0, &Behavior::EngageSoldier(SoldierIndex(3))));
    runner.react(&messages);
    // Next tick the engagement lasts: it is passed on again, but only to
    // those whose order differs.
    runner.react(&vec![to(2, SoldierMessage::SetOrder(Order::Idle))]);
    let messages = soldier_behavior(&runner, 0);
    assert_eq!(messages.len(), 1);
    assert!(is_set_order(&messages[0], 2, &Order::EngageSquad(SquadUuid(1))));
}

#[test]
fn leader_passes_a_move_on_in_formation_when_it_takes_it_up() {
    let mut runner = separated();
    let paths = route(vec![vec![p(20000, 12000), p(30000, 15000)]]);
    runner.react(&vec![to(0, SoldierMessage::SetOrder(Order::MoveTo(paths.clone(), None)))]);
    let messages = soldier_behavior(&runner, 0);
    assert_eq!(messages.len(), 3);
    let right = route(vec![vec![p(22000, 12000), p(32000, 15000)]]);
    let left = route(vec![vec![p(18000, 12000), p(28000, 15000)]]);
    assert!(is_set_order(&messages[0], 1, &Order::MoveTo(right, None)));
    assert!(is_set_order(&messages[1], 2, &Order::MoveTo(left, None)));
    assert!(is_set_behavior(&messages[2], 0, &Behavior::MoveTo(paths)));
    runner.react(&messages);
    // Once taken up, the move is not passed on again.
    assert!(soldier_behavior(&runner, 0).is_empty());
}

#[test]
fn leader_who_defends_passes_it_on_with_debug_points() {
    let mut runner = separated();
    runner.react(&vec![to(0, SoldierMessage::SetOrder(Order::Defend(Angle(90000))))]);
    let messages = soldier_behavior(&runner, 0);
    assert_eq!(messages.len(), 5);
    assert!(is_set_order(&messages[0], 1, &Order::Defend(Angle(90000))));
    assert!(is_set_order(&messages[1], 2, &Order::Defend(Angle(90000))));
    for (m, place) in [(&messages[2], p(14000, 12000)), (&messages[3], p(16000, 12000))] {
        match m {
            RunnerMessage::ClientsState(ClientStateMessage::PushDebugPoint(point)) => {
                assert_eq!(point.point, place);
                assert_eq!(point.frame_i, 0);
            }
            _ => panic!("a debug point was expected"),
        }
    }
    assert!(is_set_behavior(&messages[4], 0, &Behavior::Defend(Angle(90000))));
}

#[test]
fn subordinates_do_not_pass_anything_on() {
    let mut runner = separated();
    runner.react(&vec![to(1, SoldierMessage::SetOrder(Order::Defend(Angle(90000))))]);
    let messages = soldier_behavior(&runner, 1);
    assert_eq!(messages.len(), 1);
    assert!(is_set_behavior(&messages[0], 1, &Behavior::Defend(Angle(90000))));
}

#[test]
fn soldiers_who_cannot_act_have_no_behavior_messages() {
    let mut runner = in_sight();
    runner.react(&vec![to(0, SoldierMessage::SetUnconscious(true))]);
    assert!(soldier_behavior(&runner, 0).is_empty());
    runner.react(&vec![to(1, SoldierMessage::SetAlive(false))]);
    assert!(soldier_behavior(&runner, 1).is_empty());
}

#[test]
fn driver_with_a_move_order_drives() {
    let mut runner = separated();
    let v = runner.battle_state.push_vehicle(p(12000, 12000), vec![]);
    assert!(runner.battle_state.board(SoldierIndex(0), v, OnBoardPlace::Driver));
    let paths = route(vec![vec![p(20000, 12000), p(30000, 12000), p(40000, 12000)]]);
    runner.react(&vec![to(0, SoldierMessage::SetOrder(Order::MoveTo(paths.clone(), None)))]);
    let messages = soldier_behavior(&runner, 0);
    // A leader who drives passes nothing on.
    assert_eq!(messages.len(), 1);
    assert!(is_set_behavior(&messages[0], 0, &Behavior::DriveTo(paths)));
}

#[test]
fn formation_places() {
    assert_eq!(formation_offset_of(2000, 0), 2000);
    assert_eq!(formation_offset_of(2000, 1), -2000);
    assert_eq!(formation_offset_of(2000, 2), 4000);
    assert_eq!(formation_offset_of(2000, 3), -4000);
    assert_eq!(formation_offset_of(u32::MAX, 0), i32::MAX);
    assert_eq!(formation_offset_of(u32::MAX, 1), i32::MIN);
    assert_eq!(formation_offset_of(1, usize::MAX), i32::MIN);
    assert_eq!(offset_point_of(p(5, 7), -10), p(-5, 7));
    assert_eq!(offset_point_of(p(i32::MAX, 7), 10), p(i32::MAX, 7));
    let moved = offset_paths_of(&route(vec![vec![p(1, 1)], vec![p(2, 2), p(3, 3)]]), 100);
    assert!(moved.same_as(&route(vec![vec![p(101, 1)], vec![p(102, 2), p(103, 3)]])));
}

#[test]
fn step_toward_shares_the_speed_between_the_axes() {
    assert_eq!(step_toward_of(p(0, 0), p(3000, 4000), 500), p(300, 400));
    assert_eq!(step_toward_of(p(0, 0), p(-3000, 4000), 500), p(-300, 400));
    assert_eq!(step_toward_of(p(1000, 1000), p(1000, -9000), 50), p(1000, 950));
    // Too slow to cover a millimetre on either axis: one on the longer one.
    assert_eq!(step_toward_of(p(0, 0), p(5, 5), 1), p(1, 0));
    assert_eq!(step_toward_of(p(0, 0), p(3, 9), 1), p(0, 1));
    assert_eq!(step_toward_of(p(0, 0), p(5, 5), 0), p(1, 0));
}

#[test]
fn a_point_is_reached_within_the_speed() {
    assert!(reached_of(p(0, 0), p(300, 400), 500));
    assert!(!reached_of(p(0, 0), p(300, 401), 500));
    assert!(reached_of(p(7, 7), p(7, 7), 0));
    assert!(!reached_of(p(7, 7), p(7, 8), 0));
}

#[test]
fn every_step_brings_the_soldier_nearer() {
    let next = p(-7000, 12345);
    for v in [1u32, 2, 3, 50, 333] {
        let mut at = p(400, -900);
        let mut steps = 0;
        while !reached_of(at, next, v) {
            let after = step_toward_of(at, next, v);
            assert!(after.sq_dist_to(&next) < at.sq_dist_to(&next));
            at = after;
            steps += 1;
            assert!(steps < 100000);
        }
    }
}

#[test]
fn movement_updates_move_or_tell_the_step() {
    let mut runner = separated();
    let paths = route(vec![vec![p(14000, 13000), p(20000, 12000)]]);
    runner.react(&vec![to(1, SoldierMessage::SetBehavior(Behavior::MoveTo(paths.clone())))]);
    let messages = runner.movement_updates(SoldierIndex(1), &paths);
    assert_eq!(messages.len(), 1);
    match &messages[0] {
        RunnerMessage::BattleState(BattleStateMessage::Soldier(
            SoldierIndex(1),
            SoldierMessage::SetWorldPosition(point),
        )) => assert_eq!(*point, p(14000, 12050)),
        _ => panic!("a new position was expected"),
    }
    runner.react(&vec![to(1, SoldierMessage::SetWorldPosition(p(14000, 12960)))]);
    let messages = runner.movement_updates(SoldierIndex(1), &paths);
    assert_eq!(messages.len(), 1);
    assert!(matches!(
        messages[0],
        RunnerMessage::BattleState(BattleStateMessage::Soldier(
            SoldierIndex(1),
            SoldierMessage::ReachBehaviorStep
        ))
    ));
}

#[test]
fn soldier_update_turns_moves_and_calms_down() {
    let mut runner = separated();
    let paths = route(vec![vec![p(14000, 20000)]]);
    runner.react(&vec![
        to(1, SoldierMessage::SetBehavior(Behavior::SneakTo(paths))),
        to(1, SoldierMessage::IncreaseUnderFire(5)),
    ]);
    let messages = runner.soldier_update(SoldierIndex(1));
    assert_eq!(messages.len(), 3);
    assert!(matches!(
        messages[0],
        RunnerMessage::BattleState(BattleStateMessage::Soldier(
            SoldierIndex(1),
            SoldierMessage::SetOrientation(Angle(90000))
        ))
    ));
    match &messages[1] {
        RunnerMessage::BattleState(BattleStateMessage::Soldier(
            SoldierIndex(1),
            SoldierMessage::SetWorldPosition(point),
        )) => assert_eq!(*point, p(14000, 12020)),
        _ => panic!("a new position was expected"),
    }
    assert!(matches!(
        messages[2],
        RunnerMessage::BattleState(BattleStateMessage::Soldier(
            SoldierIndex(1),
            SoldierMessage::DecreaseUnderFire
        ))
    ));
    // An idle soldier at ease has nothing to update.
    assert!(runner.soldier_update(SoldierIndex(2)).is_empty());
}

#[test]
fn a_walk_to_the_end_of_the_route_ends_idle() {
    let mut runner = separated();
    let paths = route(vec![vec![p(14000, 12100), p(14100, 12100)]]);
    runner.react(&vec![to(1, SoldierMessage::SetOrder(Order::MoveTo(paths, None)))]);
    let mut ticks = 0;
    loop {
        let mut messages = soldier_behavior(&runner, 1);
        messages.extend(runner.soldier_update(SoldierIndex(1)));
        runner.react(&messages);
        ticks += 1;
        if runner.battle_state.soldier(SoldierIndex(1)).order().same_as(&Order::Idle) {
            break;
        }
        assert!(ticks < 100);
    }
    let s = runner.battle_state.soldier(SoldierIndex(1));
    assert!(s.behavior().same_as(&Behavior::Idle(Body::StandUp)));
    // The soldier stopped within a step of the end.
    assert!(reached_of(s.world_point(), p(14100, 12100), 50));
    assert!(runner.battle_state.is_wf());
}

#[test]
fn chance_is_the_share_of_the_radius_left() {
    let r = Distance::from_millimeters(6000);
    let d = Distance::from_millimeters(4000);
    // 1 - 4/6 = 0.333...
    assert!(within_chance_of(0, d, r));
    assert!(within_chance_of(333333, d, r));
    assert!(!within_chance_of(333334, d, r));
    // Beyond the radius and for no radius there is no chance.
    assert!(!within_chance_of(0, Distance::from_millimeters(6001), r));
    assert!(!within_chance_of(0, d, Distance::from_millimeters(0)));
    assert!(within_chance_of(999999, Distance::from_millimeters(0), r));
}

#[test]
fn blast_kills_near_rolls_in_between_and_is_felt_farther() {
    let profile = ExplosiveProfile {
        direct_death: Distance::from_millimeters(1500),
        regressive_death: Distance::from_millimeters(6000),
        regressive_injured: Distance::from_millimeters(12000),
    };
    let at = |mm: u64| Distance::from_millimeters(mm);
    // At 1 m death is sure, whatever the rolls.
    assert_eq!(blast_effect_of(&profile, at(1000), 999999, 999999), BlastEffect::Kill);
    // At 4 m: death with chance 1 - 4/6, else stunning with chance 1 - 4/12.
    assert_eq!(blast_effect_of(&profile, at(4000), 333333, 0), BlastEffect::Kill);
    assert_eq!(blast_effect_of(&profile, at(4000), 333334, 666666), BlastEffect::Stun);
    assert_eq!(blast_effect_of(&profile, at(4000), 333334, 666667), BlastEffect::Proximity);
    // At 10 m death is out of reach; stunning has chance 1 - 10/12.
    assert_eq!(blast_effect_of(&profile, at(10000), 0, 166666), BlastEffect::Stun);
    assert_eq!(blast_effect_of(&profile, at(10000), 0, 166667), BlastEffect::Proximity);
    // Beyond the radii the blast is felt up to 100 m.
    assert_eq!(blast_effect_of(&profile, at(12001), 0, 0), BlastEffect::Proximity);
    assert_eq!(blast_effect_of(&profile, at(99999), 0, 0), BlastEffect::Proximity);
    assert_eq!(blast_effect_of(&profile, at(100000), 0, 0), BlastEffect::Untouched);
    // On the radius of direct death the rolls decide.
    assert_eq!(blast_effect_of(&profile, at(1500), 750000, 0), BlastEffect::Kill);
    assert_eq!(blast_effect_of(&profile, at(1500), 750001, 0), BlastEffect::Stun);
}

fn blast_runner() -> (Runner, Explosion) {
    // Soldiers at 1 m, 4 m and 10 m from the blast.
    let mut state = BattleState::empty(map_of(20, 20, &[]));
    let a = state.push_squad();
    state.push_soldier(Side::A, a, p(51000, 50000)).unwrap();
    state.push_soldier(Side::A, a, p(50000, 54000)).unwrap();
    state.push_soldier(Side::A, a, p(40000, 50000)).unwrap();
    let explosion = Explosion::new(p(50000, 50000), ExplosiveType::Grenade, 0, 2);
    (Runner::new(config(), state), explosion)
}

#[test]
fn blast_effects_on_three_soldiers_for_given_rolls() {
    let (runner, explosion) = blast_runner();
    let rolls = BlastRolls { kill: 500000, stun: 500000, scream: Sound::MaleDie3 };
    // First soldier: killed, and it cries.
    let messages = runner.soldier_blast_effects(&explosion, SoldierIndex(0), &rolls);
    assert_eq!(messages.len(), 2);
    assert!(matches!(
        messages[0],
        RunnerMessage::BattleState(BattleStateMessage::Soldier(
            SoldierIndex(0),
            SoldierMessage::SetAlive(false)
        ))
    ));
    assert!(matches!(
        messages[1],
        RunnerMessage::ClientsState(ClientStateMessage::PlayBattleSound(Sound::MaleDie3))
    ));
    // Second soldier: the roll of 0.5 misses death (chance 0.333) and hits
    // stunning (chance 0.667).
    let messages = runner.soldier_blast_effects(&explosion, SoldierIndex(1), &rolls);
    assert_eq!(messages.len(), 1);
    assert!(matches!(
        messages[0],
        RunnerMessage::BattleState(BattleStateMessage::Soldier(
            SoldierIndex(1),
            SoldierMessage::SetUnconscious(true)
        ))
    ));
    // Third soldier: the roll of 0.5 misses stunning (chance 0.167).
    let messages = runner.soldier_blast_effects(&explosion, SoldierIndex(2), &rolls);
    assert_eq!(messages.len(), 1);
    assert!(matches!(
        messages[0],
        RunnerMessage::BattleState(BattleStateMessage::Soldier(
            SoldierIndex(2),
            SoldierMessage::IncreaseUnderFire(150)
        ))
    ));
    let lucky = BlastRolls { kill: 0, stun: 100000, scream: Sound::MaleDie3 };
    let messages = runner.soldier_blast_effects(&explosion, SoldierIndex(2), &lucky);
    assert!(matches!(
        messages[0],
        RunnerMessage::BattleState(BattleStateMessage::Soldier(
            SoldierIndex(2),
            SoldierMessage::SetUnconscious(true)
        ))
    ));
}

#[test]
fn blast_spares_the_dead_those_aboard_and_unknown_explosives() {
    let (mut runner, explosion) = blast_runner();
    let rolls = BlastRolls { kill: 0, stun: 0, scream: Sound::MaleDie3 };
    let unknown = Explosion::new(p(50000, 50000), ExplosiveType::MortarShell, 0, 2);
    assert!(runner.soldier_blast_effects(&unknown, SoldierIndex(0), &rolls).is_empty());
    let v = runner.battle_state.push_vehicle(p(0, 0), vec![]);
    runner.battle_state.board(SoldierIndex(1), v, OnBoardPlace::Passenger);
    assert!(runner.soldier_blast_effects(&explosion, SoldierIndex(1), &rolls).is_empty());
    runner.react(&vec![to(0, SoldierMessage::SetAlive(false))]);
    assert!(runner.soldier_blast_effects(&explosion, SoldierIndex(0), &rolls).is_empty());
    // A stunned soldier dies without a cry.
    runner.react(&vec![to(2, SoldierMessage::SetUnconscious(true))]);
    let near = Explosion::new(p(40000, 50000), ExplosiveType::Grenade, 0, 2);
    assert_eq!(runner.soldier_blast_effects(&near, SoldierIndex(2), &rolls).len(), 1);
}

#[test]
fn explosion_effects_draw_their_own_chance() {
    let (runner, explosion) = blast_runner();
    for _ in 0..50 {
        let messages = runner.explosion_effects(&explosion);
        // The first soldier always dies, with one of the cries.
        assert!(matches!(
            messages[0],
            RunnerMessage::BattleState(BattleStateMessage::Soldier(
                SoldierIndex(0),
                SoldierMessage::SetAlive(false)
            ))
        ));
        match &messages[1] {
            RunnerMessage::ClientsState(ClientStateMessage::PlayBattleSound(sound)) => {
                assert!(!matches!(sound, Sound::MetalHit1 | Sound::Bip1));
            }
            _ => panic!("a cry was expected"),
        }
        // The two others get one message each, or two when they die.
        assert!(messages.len() >= 4 && messages.len() <= 6);
    }
}

#[test]
fn a_drawn_roll_is_below_its_bound() {
    // At 1 mm from a blast whose radius of possible death is 1 km, death has
    // chance 0.999999: every roll below the bound kills, the bound itself
    // would not.
    let mut config = config();
    config.grenade = Some(ExplosiveProfile {
        direct_death: Distance::from_millimeters(0),
        regressive_death: Distance::from_millimeters(1000000),
        regressive_injured: Distance::from_millimeters(0),
    });
    let mut state = BattleState::empty(map_of(4, 4, &[]));
    let a = state.push_squad();
    state.push_soldier(Side::A, a, p(1001, 1000)).unwrap();
    let runner = Runner::new(config, state);
    let explosion = Explosion::new(p(1000, 1000), ExplosiveType::Grenade, 0, 2);
    assert!(!within_chance_of(
        1000000,
        Distance::from_millimeters(1),
        Distance::from_millimeters(1000000)
    ));
    for _ in 0..200 {
        let messages = runner.explosion_effects(&explosion);
        assert!(matches!(
            messages[0],
            RunnerMessage::BattleState(BattleStateMessage::Soldier(
                SoldierIndex(0),
                SoldierMessage::SetAlive(false)
            ))
        ));
    }
}

#[test]
fn a_shell_in_a_chassis_sounds_like_metal() {
    let (mut runner, explosion) = blast_runner();
    runner.battle_state.push_vehicle(
        p(50000, 50000),
        vec![p(49000, 49000), p(51000, 49000), p(51000, 51000), p(49000, 51000)],
    );
    runner.battle_state.push_vehicle(
        p(0, 0),
        vec![p(0, 0), p(1000, 0), p(1000, 1000), p(0, 1000)],
    );
    let messages = runner.explosion_effects(&explosion);
    let hits: Vec<&RunnerMessage> = messages
        .iter()
        .filter(|m| {
            matches!(
                m,
                RunnerMessage::ClientsState(ClientStateMessage::PlayBattleSound(Sound::MetalHit1))
            )
        })
        .collect();
    assert_eq!(hits.len(), 1);
    assert!(matches!(
        messages.last().unwrap(),
        RunnerMessage::ClientsState(ClientStateMessage::PlayBattleSound(Sound::MetalHit1))
    ));
}

#[test]
fn tick_explosions_acts_only_while_an_explosion_is_in_effect() {
    let (mut runner, explosion) = blast_runner();
    runner.react(&vec![RunnerMessage::BattleState(BattleStateMessage::PushExplosion(explosion))]);
    assert!(!runner.tick_explosions().is_empty());
    runner.battle_state.frame_i = 3;
    assert!(runner.tick_explosions().is_empty());
    let finished = runner.tick_finished();
    assert_eq!(finished.len(), 1);
    assert!(matches!(
        finished[0],
        RunnerMessage::BattleState(BattleStateMessage::RemoveExplosion(_))
    ));
}

#[test]
fn tick_finished_takes_away_what_is_over() {
    let mut runner = separated();
    let shot = Projectile { from: p(0, 0), to: p(9, 9), side: Side::A, start: 0, end: 1 };
    let later = Projectile { from: p(0, 0), to: p(9, 9), side: Side::A, start: 0, end: 9 };
    runner.react(&vec![
        RunnerMessage::BattleState(BattleStateMessage::PushProjectile(shot)),
        RunnerMessage::BattleState(BattleStateMessage::PushProjectile(later)),
    ]);
    assert!(runner.tick_finished().is_empty());
    runner.battle_state.frame_i = 2;
    let finished = runner.tick_finished();
    assert_eq!(finished.len(), 1);
    match &finished[0] {
        RunnerMessage::BattleState(BattleStateMessage::RemoveProjectile(gone)) => {
            assert_eq!(*gone, shot)
        }
        _ => panic!("the removal of the projectile was expected"),
    }
}

#[test]
fn react_applies_side_effects_after_the_whole_batch() {
    let mut runner = separated();
    let paths = route(vec![vec![p(14000, 12000)]]);
    runner.react(&vec![
        to(1, SoldierMessage::SetOrder(Order::MoveTo(paths.clone(), None))),
        to(1, SoldierMessage::SetBehavior(Behavior::MoveTo(paths))),
    ]);
    // The step finishes the behavior; the order that comes after it in the
    // batch is replaced when the finish is carried out.
    runner.react(&vec![
        to(1, SoldierMessage::ReachBehaviorStep),
        to(1, SoldierMessage::SetOrder(Order::Defend(Angle(5)))),
    ]);
    let s = runner.battle_state.soldier(SoldierIndex(1));
    assert!(s.order().same_as(&Order::Idle));
    assert!(s.behavior().same_as(&Behavior::Idle(Body::StandUp)));
}

#[test]
fn react_ignores_notices() {
    let mut runner = separated();
    let before = runner.battle_state.clone();
    runner.react(&vec![
        RunnerMessage::ClientsState(ClientStateMessage::PlayBattleSound(Sound::Bip1)),
        RunnerMessage::ClientState(3, ClientStateMessage::PlayBattleSound(Sound::Bip1)),
    ]);
    assert_eq!(runner.battle_state.frame_i, before.frame_i);
    assert_eq!(runner.battle_state.soldiers.len(), before.soldiers.len());
}

#[test]
fn tick_takes_inputs_steps_the_frame_and_forwards_the_changes() {
    let mut runner = separated();
    let inputs = vec![InputMessage::BattleState(BattleStateMessage::Soldier(
        SoldierIndex(1),
        SoldierMessage::SetOrder(Order::Hide(Angle(45000))),
    ))];
    let outputs = runner.tick(&inputs);
    assert_eq!(*runner.battle_state.frame_i(), 1);
    // The order came in; the behavior follows at the next tick.
    assert!(runner.battle_state.soldier(SoldierIndex(1)).order().same_as(&Order::Hide(Angle(45000))));
    assert_eq!(outputs.len(), 2);
    assert!(matches!(
        outputs[0],
        OutputMessage::BattleState(BattleStateMessage::Soldier(
            SoldierIndex(1),
            SoldierMessage::SetOrder(_)
        ))
    ));
    assert!(matches!(outputs[1], OutputMessage::BattleState(BattleStateMessage::IncrementFrameI)));
    let outputs = runner.tick(&vec![]);
    assert_eq!(*runner.battle_state.frame_i(), 2);
    assert!(runner.battle_state.soldier(SoldierIndex(1)).behavior().same_as(&Behavior::Hide(Angle(45000))));
    assert_eq!(outputs.len(), 2);
    assert!(runner.battle_state.is_wf());
}

#[test]
fn tick_answers_a_sync_request_with_the_whole_battle() {
    let mut runner = separated();
    let outputs = runner.tick(&vec![InputMessage::RequireCompleteSync]);
    match outputs.last().unwrap() {
        OutputMessage::LoadFromCopy(copy) => {
            assert_eq!(copy.state.frame_i, 1);
            assert_eq!(copy.state.soldiers.len(), 5);
        }
        _ => panic!("the whole battle was expected last"),
    }
    let outputs = runner.tick(&vec![]);
    assert!(!outputs.iter().any(|m| matches!(m, OutputMessage::LoadFromCopy(_))));
}

#[test]
fn a_blast_in_a_tick_kills_and_the_squad_gets_a_new_leader() {
    let (mut runner, explosion) = blast_runner();
    runner.tick(&vec![InputMessage::BattleState(BattleStateMessage::PushExplosion(explosion))]);
    // The explosion was taken in at the end of the first tick; it acts in the second.
    assert_eq!(runner.battle_state.soldier(SoldierIndex(0)).status(), Status::Alive);
    runner.tick(&vec![]);
    assert_eq!(runner.battle_state.soldier(SoldierIndex(0)).status(), Status::Dead);
    assert!(runner.battle_state.is_wf());
    let leader = runner.battle_state.squad(SquadUuid(0)).leader();
    let any_alive = runner.battle_state.soldiers().iter().any(|s| s.alive());
    if any_alive {
        assert!(runner.battle_state.soldier(leader).alive());
    }
}

fn firing(mut runner: Runner) -> Runner {
    runner.config.fire.interval = 2;
    runner
}

#[test]
fn a_hit_is_the_less_likely_the_less_clear_the_line() {
    // On a clear line the chance is the configured one.
    assert!(is_hit_of(499999, 0, 500000, 500000));
    assert!(!is_hit_of(500000, 0, 500000, 500000));
    // Half way to the threshold of sight the chance is halved.
    assert!(is_hit_of(249999, 250000, 500000, 500000));
    assert!(!is_hit_of(250000, 250000, 500000, 500000));
    // At the threshold there is none.
    assert!(!is_hit_of(0, 500000, 500000, 500000));
    assert!(!is_hit_of(0, 0, 0, 500000));
}

#[test]
fn an_engaging_soldier_fires_a_bullet_and_may_wound() {
    let mut runner = firing(in_sight());
    runner.react(&vec![to(2, SoldierMessage::SetBehavior(Behavior::EngageSoldier(SoldierIndex(3))))]);
    // A miss: the bullet flies and the target feels under fire.
    let miss = FireRolls { hit: 500000, kill: 0 };
    let messages = runner.soldier_fire_effects(SoldierIndex(2), &miss);
    assert_eq!(messages.len(), 2);
    match &messages[0] {
        RunnerMessage::BattleState(BattleStateMessage::PushProjectile(shot)) => {
            assert_eq!(
                *shot,
                Projectile { from: p(16000, 12000), to: p(82000, 12000), side: Side::A, start: 0, end: 3 }
            );
        }
        _ => panic!("a bullet was expected"),
    }
    assert!(matches!(
        messages[1],
        RunnerMessage::BattleState(BattleStateMessage::Soldier(
            SoldierIndex(3),
            SoldierMessage::IncreaseUnderFire(30)
        ))
    ));
    // A hit that kills, and a hit that stuns.
    let kill = FireRolls { hit: 499999, kill: 249999 };
    let messages = runner.soldier_fire_effects(SoldierIndex(2), &kill);
    assert_eq!(messages.len(), 3);
    assert!(matches!(
        messages[2],
        RunnerMessage::BattleState(BattleStateMessage::Soldier(
            SoldierIndex(3),
            SoldierMessage::SetAlive(false)
        ))
    ));
    let stun = FireRolls { hit: 0, kill: 250000 };
    let messages = runner.soldier_fire_effects(SoldierIndex(2), &stun);
    assert!(matches!(
        messages[2],
        RunnerMessage::BattleState(BattleStateMessage::Soldier(
            SoldierIndex(3),
            SoldierMessage::SetUnconscious(true)
        ))
    ));
}

#[test]
fn nobody_fires_between_the_frames_of_fire_or_at_what_it_cannot_see() {
    let rolls = FireRolls { hit: 0, kill: 0 };
    let mut runner = firing(in_sight());
    runner.react(&vec![to(2, SoldierMessage::SetBehavior(Behavior::EngageSoldier(SoldierIndex(3))))]);
    runner.battle_state.frame_i = 1;
    assert!(runner.soldier_fire_effects(SoldierIndex(2), &rolls).is_empty());
    runner.battle_state.frame_i = 2;
    assert_eq!(runner.soldier_fire_effects(SoldierIndex(2), &rolls).len(), 3);
    // The dead are not fired at, and a soldier who does not engage does not fire.
    runner.react(&vec![to(3, SoldierMessage::SetAlive(false))]);
    assert!(runner.soldier_fire_effects(SoldierIndex(2), &rolls).is_empty());
    assert!(runner.soldier_fire_effects(SoldierIndex(1), &rolls).is_empty());
    // Behind a wall the target is out of sight.
    let mut runner = firing(separated());
    runner.react(&vec![to(2, SoldierMessage::SetBehavior(Behavior::EngageSoldier(SoldierIndex(3))))]);
    assert!(runner.soldier_fire_effects(SoldierIndex(2), &rolls).is_empty());
    // Without an interval all fire is stopped.
    let mut runner = in_sight();
    runner.react(&vec![to(2, SoldierMessage::SetBehavior(Behavior::EngageSoldier(SoldierIndex(3))))]);
    assert!(runner.soldier_fire_effects(SoldierIndex(2), &rolls).is_empty());
    assert!(runner.tick_fires().is_empty());
}

#[test]
fn suppressing_fire_pins_down_the_opponents_near_the_point() {
    let mut runner = firing(separated());
    runner.react(&vec![to(0, SoldierMessage::SetBehavior(Behavior::SuppressFire(p(80000, 12000))))]);
    let messages = runner.soldier_fire_effects(SoldierIndex(0), &FireRolls { hit: 0, kill: 0 });
    // Soldier 3 is 2 m from the point, soldier 4 is 4 m from it.
    assert_eq!(messages.len(), 3);
    assert!(matches!(messages[0], RunnerMessage::BattleState(BattleStateMessage::PushProjectile(_))));
    assert!(matches!(
        messages[1],
        RunnerMessage::BattleState(BattleStateMessage::Soldier(
            SoldierIndex(3),
            SoldierMessage::IncreaseUnderFire(30)
        ))
    ));
    assert!(matches!(
        messages[2],
        RunnerMessage::BattleState(BattleStateMessage::Soldier(
            SoldierIndex(4),
            SoldierMessage::IncreaseUnderFire(30)
        ))
    ));
    // On its own side nobody is pinned down.
    runner.react(&vec![to(0, SoldierMessage::SetBehavior(Behavior::SuppressFire(p(14000, 12000))))]);
    let messages = runner.soldier_fire_effects(SoldierIndex(0), &FireRolls { hit: 0, kill: 0 });
    assert_eq!(messages.len(), 1);
}

#[test]
fn the_fire_of_a_tick_draws_its_own_chance() {
    let mut runner = firing(in_sight());
    runner.config.fire.hit_chance = 0;
    runner.react(&vec![
        to(2, SoldierMessage::SetBehavior(Behavior::EngageSoldier(SoldierIndex(3)))),
        to(4, SoldierMessage::SetBehavior(Behavior::EngageSoldier(SoldierIndex(0)))),
    ]);
    for _ in 0..20 {
        // Without a chance of a hit every shot is a miss.
        assert_eq!(runner.tick_fires().len(), 4);
    }
    runner.config.fire.hit_chance = 1000000;
    runner.config.fire.kill_chance = 1000000;
    for _ in 0..20 {
        // With every chance every shot on a clear line kills.
        let messages = runner.tick_fires();
        assert_eq!(messages.len(), 6);
        assert!(matches!(
            messages[2],
            RunnerMessage::BattleState(BattleStateMessage::Soldier(
                SoldierIndex(3),
                SoldierMessage::SetAlive(false)
            ))
        ));
    }
}

#[test]
fn engagement_ends_in_a_tick_when_the_target_is_killed() {
    let mut runner = firing(in_sight());
    runner.config.fire.hit_chance = 1000000;
    runner.config.fire.kill_chance = 1000000;
    // First tick: everybody takes up the engagement of the nearest opponent.
    runner.tick(&vec![]);
    assert!(runner
        .battle_state
        .soldier(SoldierIndex(2))
        .behavior()
        .same_as(&Behavior::EngageSoldier(SoldierIndex(3))));
    // Frame 1 is no frame of fire; at frame 2 the shots fall.
    runner.tick(&vec![]);
    assert_eq!(runner.battle_state.soldier(SoldierIndex(3)).status(), Status::Alive);
    let outputs = runner.tick(&vec![]);
    assert_eq!(runner.battle_state.soldier(SoldierIndex(3)).status(), Status::Dead);
    assert!(outputs
        .iter()
        .any(|m| matches!(m, OutputMessage::BattleState(BattleStateMessage::PushProjectile(_)))));
    assert!(runner.battle_state.is_wf());
    assert!(!runner.battle_state.projectiles().is_empty());
    // The bullets are taken away once they are over.
    for _ in 0..6 {
        runner.config.fire.interval = 0;
        runner.tick(&vec![]);
    }
    assert!(runner.battle_state.projectiles().is_empty());
}

#[test]
fn neighbours_for_different_squads_change_places_in_a_batch() {
    let walk = route(vec![vec![p(20000, 12000)]]);
    let batch = |swapped: bool| -> Vec<RunnerMessage> {
        let first = to(0, SoldierMessage::SetAlive(false));
        let second = to(3, SoldierMessage::SetBehavior(Behavior::MoveTo(walk.clone())));
        let mut messages = vec![
            to(3, SoldierMessage::SetOrder(Order::MoveTo(walk.clone(), None))),
            to(1, SoldierMessage::IncreaseUnderFire(40)),
        ];
        if swapped {
            messages.push(second);
            messages.push(first);
        } else {
            messages.push(first);
            messages.push(second);
        }
        messages.push(to(3, SoldierMessage::ReachBehaviorStep));
        messages.push(to(2, SoldierMessage::SetUnconscious(true)));
        messages
    };
    let mut one = separated();
    let mut other = separated();
    one.react(&batch(false));
    other.react(&batch(true));
    assert_eq!(one.battle_state.soldiers().len(), other.battle_state.soldiers().len());
    for (a, b) in one.battle_state.soldiers().iter().zip(other.battle_state.soldiers().iter()) {
        assert_eq!(a.world_point, b.world_point);
        assert_eq!(a.status, b.status);
        assert_eq!(a.under_fire, b.under_fire);
        assert!(a.order.same_as(&b.order));
        assert!(a.behavior.same_as(&b.behavior));
    }
    assert_eq!(one.battle_state.squad(SquadUuid(0)).leader, SoldierIndex(1));
    assert_eq!(other.battle_state.squad(SquadUuid(0)).leader, SoldierIndex(1));
    assert!(one.battle_state.soldier(SoldierIndex(0)).behavior.same_as(&Behavior::Dead));
    assert!(one.battle_state.soldier(SoldierIndex(3)).behavior.same_as(&Behavior::Idle(Body::StandUp)));
}

#[test]
fn explosion_effects_for_the_rolls_of_every_soldier() {
    let (runner, explosion) = blast_runner();
    let soldiers = runner.battle_state.soldiers().len();
    let mut rolls = vec![BlastRolls { kill: 999999, stun: 999999, scream: Sound::MaleDie1 }; soldiers];
    rolls[0] = BlastRolls { kill: 0, stun: 0, scream: Sound::MaleDie3 };
    rolls[1] = BlastRolls { kill: 300000, stun: 0, scream: Sound::MaleScreaming2 };
    rolls[2] = BlastRolls { kill: 500000, stun: 100000, scream: Sound::MaleDie1 };
    let messages = runner.explosion_effects_with(&explosion, &rolls);
    // The first is killed whatever it rolls; the second rolls under its chance of dying;
    // the third rolls over its chance of dying and under its chance of being stunned.
    let expected: Vec<RunnerMessage> = vec![
        to(0, SoldierMessage::SetAlive(false)),
        RunnerMessage::ClientsState(ClientStateMessage::PlayBattleSound(Sound::MaleDie3)),
        to(1, SoldierMessage::SetAlive(false)),
        RunnerMessage::ClientsState(ClientStateMessage::PlayBattleSound(Sound::MaleScreaming2)),
        to(2, SoldierMessage::SetUnconscious(true)),
    ];
    assert_eq!(messages.len(), expected.len());
    for (got, want) in messages.iter().zip(expected.iter()) {
        match (got, want) {
            (
                RunnerMessage::BattleState(BattleStateMessage::Soldier(i, SoldierMessage::SetAlive(a))),
                RunnerMessage::BattleState(BattleStateMessage::Soldier(j, SoldierMessage::SetAlive(b))),
            ) => assert!(i == j && a == b),
            (
                RunnerMessage::BattleState(BattleStateMessage::Soldier(i, SoldierMessage::SetUnconscious(a))),
                RunnerMessage::BattleState(BattleStateMessage::Soldier(j, SoldierMessage::SetUnconscious(b))),
            ) => assert!(i == j && a == b),
            (
                RunnerMessage::ClientsState(ClientStateMessage::PlayBattleSound(a)),
                RunnerMessage::ClientsState(ClientStateMessage::PlayBattleSound(b)),
            ) => assert_eq!(a, b),
            _ => panic!("another message than the rolls give"),
        }
    }
    // The same rolls give the same messages again.
    assert_eq!(runner.explosion_effects_with(&explosion, &rolls).len(), messages.len());
}

fn same_battle(one: &Runner, other: &Runner) -> bool {
    let a = one.battle_state.soldiers();
    let b = other.battle_state.soldiers();
    a.len() == b.len()
        && a.iter().zip(b.iter()).all(|(x, y)| {
            x.world_point == y.world_point
                && x.looking_direction == y.looking_direction
                && x.status == y.status
                && x.under_fire == y.under_fire
                && x.order.same_as(&y.order)
                && x.behavior.same_as(&y.behavior)
        })
        && one.battle_state.squads().iter().zip(other.battle_state.squads().iter()).all(|(x, y)| {
            x.leader == y.leader && x.members == y.members
        })
}

#[test]
fn two_senders_for_different_squads_can_be_mixed_in_any_way() {
    let walk = route(vec![vec![p(20000, 12000)]]);
    // The first sender speaks to squad 0, the second to squad 1.
    let first = |k: usize| -> RunnerMessage {
        match k {
            0 => to(0, SoldierMessage::SetAlive(false)),
            1 => to(1, SoldierMessage::IncreaseUnderFire(40)),
            _ => to(1, SoldierMessage::SetAlive(false)),
        }
    };
    let second = |k: usize| -> RunnerMessage {
        match k {
            0 => to(3, SoldierMessage::SetOrder(Order::MoveTo(walk.clone(), None))),
            1 => to(3, SoldierMessage::SetBehavior(Behavior::MoveTo(walk.clone()))),
            _ => to(3, SoldierMessage::ReachBehaviorStep),
        }
    };
    // Each mix keeps the order of each sender: `true` takes the next of the first.
    let mixes: Vec<Vec<bool>> = vec![
        vec![true, true, true, false, false, false],
        vec![false, false, false, true, true, true],
        vec![true, false, true, false, true, false],
        vec![false, true, true, false, false, true],
        vec![false, false, true, true, false, true],
    ];
    let mut results: Vec<Runner> = Vec::new();
    for mix in mixes {
        let (mut i, mut j) = (0, 0);
        let mut batch = Vec::new();
        for from_first in mix {
            if from_first {
                batch.push(first(i));
                i += 1;
            } else {
                batch.push(second(j));
                j += 1;
            }
        }
        let mut runner = separated();
        runner.react(&batch);
        results.push(runner);
    }
    for other in &results[1..] {
        assert!(same_battle(&results[0], other));
    }
    assert_eq!(results[0].battle_state.squad(SquadUuid(0)).leader, SoldierIndex(2));
    assert!(results[0].battle_state.soldier(SoldierIndex(3)).order.same_as(&Order::Idle));
}

#[test]
fn the_leader_who_dies_among_other_messages_is_followed_by_the_first_living_member() {
    let mut runner = separated();
    runner.react(&vec![
        to(2, SoldierMessage::IncreaseUnderFire(10)),
        to(1, SoldierMessage::SetAlive(false)),
        to(3, SoldierMessage::SetUnconscious(true)),
        to(0, SoldierMessage::SetAlive(false)),
        to(4, SoldierMessage::SetWorldPosition(p(84000, 13000))),
    ]);
    // Soldier 1 died before the leader: the lead skips it.
    assert_eq!(runner.battle_state.squad(SquadUuid(0)).leader, SoldierIndex(2));
    assert_eq!(runner.battle_state.squad(SquadUuid(1)).leader, SoldierIndex(3));
    // The next leader to die is followed in turn; the last one stays.
    runner.react(&vec![to(2, SoldierMessage::SetAlive(false)), to(3, SoldierMessage::SetAlive(false))]);
    assert_eq!(runner.battle_state.squad(SquadUuid(0)).leader, SoldierIndex(2));
    assert_eq!(runner.battle_state.squad(SquadUuid(1)).leader, SoldierIndex(4));
}

#[test]
fn an_update_takes_one_step_off_the_fire_felt_down_to_nothing() {
    let mut runner = separated();
    runner.react(&vec![to(1, SoldierMessage::IncreaseUnderFire(2))]);
    for expected in [1, 0, 0] {
        let update = runner.soldier_update(SoldierIndex(1));
        runner.react(&update);
        assert_eq!(*runner.battle_state.soldier(SoldierIndex(1)).under_fire(), UnderFire(expected));
    }
    // Two steps down in one batch.
    runner.react(&vec![to(1, SoldierMessage::IncreaseUnderFire(5))]);
    runner.react(&vec![
        to(1, SoldierMessage::DecreaseUnderFire),
        to(0, SoldierMessage::DecreaseUnderFire),
        to(1, SoldierMessage::DecreaseUnderFire),
    ]);
    assert_eq!(*runner.battle_state.soldier(SoldierIndex(1)).under_fire(), UnderFire(3));
}

#[test]
fn a_tick_of_behavior_sets_one_behavior_at_most_and_only_its_own() {
    let mut runner = in_sight();
    runner.react(&vec![to(0, SoldierMessage::SetOrder(Order::MoveTo(route(vec![vec![p(20000, 12000)]]), None)))]);
    for i in 0..5 {
        let messages = soldier_behavior(&runner, i);
        let set: Vec<usize> = messages
            .iter()
            .enumerate()
            .filter(|(_, m)| {
                matches!(
                    m,
                    RunnerMessage::BattleState(BattleStateMessage::Soldier(_, SoldierMessage::SetBehavior(_)))
                )
            })
            .map(|(k, _)| k)
            .collect();
        assert!(set.len() <= 1);
        if let Some(k) = set.first() {
            assert_eq!(*k, messages.len() - 1);
            match &messages[*k] {
                RunnerMessage::BattleState(BattleStateMessage::Soldier(j, _)) => assert_eq!(j.0, i),
                _ => unreachable!(),
            }
        }
    }
    // A soldier who cannot act is given nothing.
    runner.react(&vec![to(1, SoldierMessage::SetUnconscious(true))]);
    assert!(soldier_behavior(&runner, 1).is_empty());
}
