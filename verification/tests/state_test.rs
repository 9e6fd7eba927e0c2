use open_combat::behavior::{Behavior, BehaviorMode, Body};
use open_combat::entity::soldier::{Soldier, Status, UnderFire};
use open_combat::entity::vehicle::OnBoardPlace;
use open_combat::game::{ExplosiveType, Phase, Side};
use open_combat::map::terrain::TerrainTile;
use open_combat::map::BattleMap;
use open_combat::order::path::{WorldPath, WorldPaths};
use open_combat::order::Order;
use open_combat::physics::event::{Explosion, Projectile};
use open_combat::state::battle::BattleState;
use open_combat::state::message::{BattleStateMessage, SideEffect, SoldierMessage};
use open_combat::sync::BattleStateCopy;
use open_combat::types::{Angle, SoldierIndex, SquadUuid, VehicleIndex, WorldPoint};

fn p(x: i32, y: i32) -> WorldPoint {
    WorldPoint::new(x, y)
}

fn route(parts: Vec<Vec<WorldPoint>>) -> WorldPaths {
    WorldPaths::new(parts.into_iter().map(WorldPath::new).collect())
}

fn grass_map(width: u32, height: u32) -> BattleMap {
    let mut tiles = Vec::new();
    for y in 0..height {
        for x in 0..width {
            tiles.push(TerrainTile::from_str_id("ShortGrass", 5000, 5000, x, y, 0, 0).unwrap());
        }
    }
    BattleMap::new(width, height, 5000, 5000, tiles).unwrap()
}

/// Two squads: soldiers 0, 1, 2 of side A in squad 0, soldiers 3, 4 of side B in squad 1.
fn battle() -> BattleState {
    let mut state = BattleState::empty(grass_map(10, 10));
    let a = state.push_squad();
    let b = state.push_squad();
    state.push_soldier(Side::A, a, p(1000, 1000)).unwrap();
    state.push_soldier(Side::A, a, p(2000, 1000)).unwrap();
    state.push_soldier(Side::A, a, p(3000, 1000)).unwrap();
    state.push_soldier(Side::B, b, p(40000, 40000)).unwrap();
    state.push_soldier(Side::B, b, p(41000, 40000)).unwrap();
    state
}

fn to(i: usize, m: SoldierMessage) -> BattleStateMessage {
    BattleStateMessage::Soldier(SoldierIndex(i), m)
}

fn same_soldier(a: &Soldier, b: &Soldier) -> bool {
    a.uuid == b.uuid
        && a.side == b.side
        && a.squad_uuid == b.squad_uuid
        && a.world_point == b.world_point
        && a.looking_direction == b.looking_direction
        && a.order.same_as(&b.order)
        && a.behavior.same_as(&b.behavior)
        && a.status == b.status
        && a.under_fire == b.under_fire
}

fn same_state(a: &BattleState, b: &BattleState) -> bool {
    a.frame_i == b.frame_i
        && a.phase == b.phase
        && a.soldiers.len() == b.soldiers.len()
        && a.soldiers.iter().zip(b.soldiers.iter()).all(|(x, y)| same_soldier(x, y))
        && a.squads.len() == b.squads.len()
        && a.squads.iter().zip(b.squads.iter()).all(|(x, y)| {
            x.uuid == y.uuid && x.leader == y.leader && x.members == y.members
        })
        && a.explosions == b.explosions
        && a.projectiles == b.projectiles
        && a.soldier_on_board == b.soldier_on_board
}

#[test]
fn built_battle_is_consistent() {
    let state = battle();
    assert!(state.is_wf());
    assert_eq!(state.soldiers.len(), 5);
    assert_eq!(state.squad(SquadUuid(0)).leader(), SoldierIndex(0));
    assert_eq!(state.squad(SquadUuid(1)).leader(), SoldierIndex(3));
    assert_eq!(
        state.squad(SquadUuid(0)).members(),
        &vec![SoldierIndex(0), SoldierIndex(1), SoldierIndex(2)]
    );
    assert_eq!(*state.phase(), Phase::Placement);
    assert_eq!(*state.frame_i(), 0);
}

#[test]
fn push_soldier_refuses_an_unknown_squad() {
    let mut state = battle();
    assert_eq!(state.push_soldier(Side::A, SquadUuid(9), p(0, 0)), None);
    assert_eq!(state.soldiers.len(), 5);
}

#[test]
fn new_soldier_stands_idle() {
    let state = battle();
    let s = state.soldier(SoldierIndex(1));
    assert_eq!(s.uuid(), SoldierIndex(1));
    assert_eq!(*s.side(), Side::A);
    assert_eq!(s.squad_uuid(), SquadUuid(0));
    assert_eq!(s.world_point(), p(2000, 1000));
    assert_eq!(s.looking_direction(), Angle(0));
    assert!(s.order().same_as(&Order::Idle));
    assert!(s.behavior().same_as(&Behavior::Idle(Body::StandUp)));
    assert_eq!(s.status(), Status::Alive);
    assert_eq!(*s.under_fire(), UnderFire(0));
    assert!(s.alive() && s.able());
}

#[test]
fn react_set_world_position_moves_one_soldier() {
    let mut state = battle();
    let effects = state.react(&to(1, SoldierMessage::SetWorldPosition(p(7, 8))), 0);
    assert!(effects.is_empty());
    assert_eq!(state.soldier(SoldierIndex(1)).world_point(), p(7, 8));
    assert_eq!(state.soldier(SoldierIndex(0)).world_point(), p(1000, 1000));
    assert!(state.is_wf());
}

#[test]
fn react_to_an_unknown_soldier_changes_nothing() {
    let mut state = battle();
    let before = state.clone();
    let effects = state.react(&to(99, SoldierMessage::SetAlive(false)), 0);
    assert!(effects.is_empty());
    assert!(same_state(&state, &before));
}

#[test]
fn react_set_behavior_asks_for_a_new_animation() {
    let mut state = battle();
    let effects = state.react(&to(0, SoldierMessage::SetBehavior(Behavior::Hide(Angle(5)))), 0);
    assert_eq!(effects.len(), 1);
    assert!(matches!(effects[0], SideEffect::RefreshEntityAnimation(SoldierIndex(0))));
    assert!(state.soldier(SoldierIndex(0)).behavior().same_as(&Behavior::Hide(Angle(5))));
}

#[test]
fn react_refuses_a_movement_without_waypoint() {
    let mut state = battle();
    state.react(&to(0, SoldierMessage::SetBehavior(Behavior::MoveTo(route(vec![])))), 0);
    assert!(state.soldier(SoldierIndex(0)).behavior().same_as(&Behavior::Idle(Body::StandUp)));
    state.react(&to(0, SoldierMessage::SetBehavior(Behavior::MoveTo(route(vec![vec![]])))), 0);
    assert!(state.soldier(SoldierIndex(0)).behavior().same_as(&Behavior::Idle(Body::StandUp)));
    state.react(&to(0, SoldierMessage::SetBehavior(Behavior::Dead)), 0);
    assert!(state.soldier(SoldierIndex(0)).behavior().same_as(&Behavior::Idle(Body::StandUp)));
    assert!(state.is_wf());
}

#[test]
fn dead_soldier_has_dead_behavior_and_keeps_it() {
    let mut state = battle();
    state.react(&to(1, SoldierMessage::SetOrder(Order::Defend(Angle(1)))), 0);
    state.react(&to(1, SoldierMessage::SetAlive(false)), 0);
    {
        let s = state.soldier(SoldierIndex(1));
        assert_eq!(s.status(), Status::Dead);
        assert!(s.behavior().same_as(&Behavior::Dead));
        assert!(s.order().same_as(&Order::Idle));
        assert!(!s.alive());
    }
    // Whatever comes next, the soldier stays dead with its behavior.
    let later = vec![
        to(1, SoldierMessage::SetBehavior(Behavior::Hide(Angle(5)))),
        to(1, SoldierMessage::SetOrder(Order::Defend(Angle(9)))),
        to(1, SoldierMessage::SetAlive(true)),
        to(1, SoldierMessage::SetUnconscious(true)),
        to(1, SoldierMessage::SetUnconscious(false)),
        to(1, SoldierMessage::ReachBehaviorStep),
        BattleStateMessage::IncrementFrameI,
    ];
    for m in later {
        for effect in state.react(&m, 0) {
            state.apply_side_effect(&effect);
        }
        let s = state.soldier(SoldierIndex(1));
        assert_eq!(s.status(), Status::Dead);
        assert!(s.behavior().same_as(&Behavior::Dead));
        assert!(s.order().same_as(&Order::Idle));
    }
    state.apply_side_effect(&SideEffect::SoldierFinishHisBehavior(
        SoldierIndex(1),
        Some(Order::Defend(Angle(9))),
    ));
    assert!(state.soldier(SoldierIndex(1)).behavior().same_as(&Behavior::Dead));
    assert!(state.is_wf());
}

#[test]
fn unconscious_soldier_wakes_up_lying() {
    let mut state = battle();
    state.react(&to(0, SoldierMessage::SetUnconscious(true)), 0);
    assert_eq!(state.soldier(SoldierIndex(0)).status(), Status::Unconscious);
    assert!(state.soldier(SoldierIndex(0)).behavior().same_as(&Behavior::Unconscious));
    assert!(state.soldier(SoldierIndex(0)).alive());
    assert!(!state.soldier(SoldierIndex(0)).able());
    // Stunned, the soldier takes no behavior.
    state.react(&to(0, SoldierMessage::SetBehavior(Behavior::Hide(Angle(5)))), 0);
    assert!(state.soldier(SoldierIndex(0)).behavior().same_as(&Behavior::Unconscious));
    state.react(&to(0, SoldierMessage::SetUnconscious(false)), 0);
    assert_eq!(state.soldier(SoldierIndex(0)).status(), Status::Alive);
    assert!(state.soldier(SoldierIndex(0)).behavior().same_as(&Behavior::Idle(Body::Lying)));
    assert!(state.is_wf());
}

#[test]
fn leader_dies_and_the_next_living_member_leads() {
    let mut state = battle();
    assert!(state.soldier_is_squad_leader(SoldierIndex(0)));
    state.react(&to(0, SoldierMessage::SetAlive(false)), 0);
    assert_eq!(state.squad(SquadUuid(0)).leader(), SoldierIndex(1));
    assert!(state.soldier_is_squad_leader(SoldierIndex(1)));
    assert!(!state.soldier_is_squad_leader(SoldierIndex(0)));
    // The other squad keeps its leader.
    assert_eq!(state.squad(SquadUuid(1)).leader(), SoldierIndex(3));
    assert!(state.is_wf());
}

#[test]
fn succession_skips_the_dead_in_squad_order() {
    let mut state = battle();
    state.react(&to(1, SoldierMessage::SetAlive(false)), 0);
    assert_eq!(state.squad(SquadUuid(0)).leader(), SoldierIndex(0));
    state.react(&to(0, SoldierMessage::SetAlive(false)), 0);
    assert_eq!(state.squad(SquadUuid(0)).leader(), SoldierIndex(2));
    assert!(state.is_wf());
}

#[test]
fn squad_without_living_member_keeps_its_dead_leader() {
    let mut state = battle();
    state.react(&to(3, SoldierMessage::SetAlive(false)), 0);
    assert_eq!(state.squad(SquadUuid(1)).leader(), SoldierIndex(4));
    state.react(&to(4, SoldierMessage::SetAlive(false)), 0);
    assert_eq!(state.squad(SquadUuid(1)).leader(), SoldierIndex(4));
    assert!(state.is_wf());
}

#[test]
fn death_of_a_subordinate_leaves_the_leader() {
    let mut state = battle();
    state.react(&to(2, SoldierMessage::SetAlive(false)), 0);
    assert_eq!(state.squad(SquadUuid(0)).leader(), SoldierIndex(0));
}

#[test]
fn an_unconscious_leader_still_leads() {
    let mut state = battle();
    state.react(&to(0, SoldierMessage::SetUnconscious(true)), 0);
    assert_eq!(state.squad(SquadUuid(0)).leader(), SoldierIndex(0));
}

#[test]
fn a_soldier_joining_a_squad_of_the_dead_takes_the_lead() {
    let mut state = battle();
    state.react(&to(3, SoldierMessage::SetAlive(false)), 0);
    state.react(&to(4, SoldierMessage::SetAlive(false)), 0);
    let joined = state.push_soldier(Side::B, SquadUuid(1), p(0, 0)).unwrap();
    assert_eq!(joined, SoldierIndex(5));
    assert_eq!(state.squad(SquadUuid(1)).leader(), SoldierIndex(5));
    assert!(state.is_wf());
}

#[test]
fn under_fire_rises_to_the_maximum_and_decays_to_zero() {
    let mut state = battle();
    state.react(&to(0, SoldierMessage::IncreaseUnderFire(150)), 0);
    assert_eq!(*state.soldier(SoldierIndex(0)).under_fire(), UnderFire(150));
    state.react(&to(0, SoldierMessage::IncreaseUnderFire(150)), 0);
    assert_eq!(*state.soldier(SoldierIndex(0)).under_fire(), UnderFire(200));
    state.react(&to(0, SoldierMessage::IncreaseUnderFire(u32::MAX)), 0);
    assert_eq!(*state.soldier(SoldierIndex(0)).under_fire(), UnderFire(200));
    state.react(&to(0, SoldierMessage::DecreaseUnderFire), 0);
    assert_eq!(*state.soldier(SoldierIndex(0)).under_fire(), UnderFire(199));
    for _ in 0..300 {
        let before = state.soldier(SoldierIndex(0)).under_fire().0;
        state.react(&to(0, SoldierMessage::DecreaseUnderFire), 0);
        let after = state.soldier(SoldierIndex(0)).under_fire().0;
        assert!(after <= before);
        assert_eq!(after, before.saturating_sub(1));
    }
    assert_eq!(*state.soldier(SoldierIndex(0)).under_fire(), UnderFire(0));
}

#[test]
fn under_fire_does_not_grow_without_a_fire_event() {
    let mut state = battle();
    state.react(&to(0, SoldierMessage::IncreaseUnderFire(120)), 0);
    let others = vec![
        to(0, SoldierMessage::SetWorldPosition(p(5, 5))),
        to(0, SoldierMessage::SetOrientation(Angle(3))),
        to(0, SoldierMessage::SetBehavior(Behavior::Hide(Angle(3)))),
        to(0, SoldierMessage::SetOrder(Order::Hide(Angle(3)))),
        to(0, SoldierMessage::SetUnconscious(true)),
        to(0, SoldierMessage::SetAlive(false)),
        to(1, SoldierMessage::IncreaseUnderFire(50)),
        BattleStateMessage::SetPhase(Phase::Battle),
    ];
    for m in others {
        state.react(&m, 0);
        assert!(state.soldier(SoldierIndex(0)).under_fire().0 <= 120);
    }
}

#[test]
fn under_fire_levels() {
    assert!(!UnderFire(0).exist());
    assert!(UnderFire(1).exist());
    assert!(!UnderFire(99).is_warning());
    assert!(UnderFire(100).is_warning());
    assert!(UnderFire(149).is_warning());
    assert!(!UnderFire(150).is_warning());
    assert!(UnderFire(150).is_danger());
    assert!(UnderFire(199).is_danger());
    assert!(!UnderFire(200).is_danger());
    assert!(UnderFire(200).is_max());
    assert_eq!(UnderFire(0).decreased(), UnderFire(0));
    assert_eq!(UnderFire(5).decreased(), UnderFire(4));
    assert_eq!(UnderFire(190).increased(20), UnderFire(200));
    assert_eq!(UnderFire(10).increased(20), UnderFire(30));
}

#[test]
fn reach_behavior_step_pops_the_waypoint_of_behavior_and_order() {
    let mut state = battle();
    let paths = route(vec![vec![p(10, 10), p(20, 20)]]);
    state.react(&to(0, SoldierMessage::SetOrder(Order::MoveTo(paths.clone(), None))), 0);
    state.react(&to(0, SoldierMessage::SetBehavior(Behavior::MoveTo(paths))), 0);
    let effects = state.react(&to(0, SoldierMessage::ReachBehaviorStep), 0);
    assert!(effects.is_empty());
    let rest = route(vec![vec![p(20, 20)]]);
    assert!(state.soldier(SoldierIndex(0)).behavior().same_as(&Behavior::MoveTo(rest.clone())));
    assert!(state.soldier(SoldierIndex(0)).order().same_as(&Order::MoveTo(rest, None)));
    assert!(state.is_wf());
}

#[test]
fn reach_behavior_step_on_the_last_point_finishes_the_behavior() {
    let mut state = battle();
    let paths = route(vec![vec![p(10, 10)]]);
    let follow = Order::Defend(Angle(90000));
    let order = Order::MoveTo(paths.clone(), Some(Box::new(follow.clone())));
    state.react(&to(0, SoldierMessage::SetOrder(order)), 0);
    state.react(&to(0, SoldierMessage::SetBehavior(Behavior::MoveTo(paths.clone()))), 0);
    let effects = state.react(&to(0, SoldierMessage::ReachBehaviorStep), 0);
    assert_eq!(effects.len(), 1);
    match &effects[0] {
        SideEffect::SoldierFinishHisBehavior(i, Some(then)) => {
            assert_eq!(*i, SoldierIndex(0));
            assert!(then.same_as(&follow));
        }
        _ => panic!("the step on the last point left no finish"),
    }
    // Until the side effect is carried out the soldier keeps its behavior.
    assert!(state.soldier(SoldierIndex(0)).behavior().same_as(&Behavior::MoveTo(paths)));
    state.apply_side_effect(&effects[0]);
    assert!(state.soldier(SoldierIndex(0)).behavior().same_as(&Behavior::Defend(Angle(90000))));
    assert!(state.soldier(SoldierIndex(0)).order().same_as(&follow));
    assert!(state.is_wf());
}

#[test]
fn finishing_without_follow_up_leaves_the_soldier_idle() {
    let mut state = battle();
    let paths = route(vec![vec![p(10, 10)]]);
    state.react(&to(0, SoldierMessage::SetOrder(Order::MoveFastTo(paths.clone(), None))), 0);
    state.react(&to(0, SoldierMessage::SetBehavior(Behavior::MoveFastTo(paths))), 0);
    let effects = state.react(&to(0, SoldierMessage::ReachBehaviorStep), 0);
    assert!(matches!(effects[0], SideEffect::SoldierFinishHisBehavior(SoldierIndex(0), None)));
    state.apply_side_effect(&effects[0]);
    assert!(state.soldier(SoldierIndex(0)).behavior().same_as(&Behavior::Idle(Body::StandUp)));
    assert!(state.soldier(SoldierIndex(0)).order().same_as(&Order::Idle));
}

#[test]
fn refresh_animation_changes_nothing_in_the_battle() {
    let mut state = battle();
    let before = state.clone();
    state.apply_side_effect(&SideEffect::RefreshEntityAnimation(SoldierIndex(0)));
    assert!(same_state(&state, &before));
}

#[test]
fn explosions_are_pushed_unless_over_and_removed_once() {
    let mut state = battle();
    let e = Explosion::new(p(5, 5), ExplosiveType::Grenade, 10, 12);
    state.react(&BattleStateMessage::PushExplosion(e), 12);
    state.react(&BattleStateMessage::PushExplosion(e), 12);
    assert_eq!(state.explosions().len(), 2);
    // Already over at frame 13: not taken in.
    state.react(&BattleStateMessage::PushExplosion(e), 13);
    assert_eq!(state.explosions().len(), 2);
    state.react(&BattleStateMessage::RemoveExplosion(e), 13);
    assert_eq!(state.explosions().len(), 1);
    let other = Explosion::new(p(6, 6), ExplosiveType::Grenade, 10, 12);
    state.react(&BattleStateMessage::RemoveExplosion(other), 13);
    assert_eq!(state.explosions().len(), 1);
    state.react(&BattleStateMessage::RemoveExplosion(e), 13);
    assert!(state.explosions().is_empty());
}

#[test]
fn explosion_is_effective_from_start_to_end() {
    let e = Explosion::new(p(5, 5), ExplosiveType::Grenade, 10, 12);
    assert!(!e.effective(9));
    assert!(e.effective(10));
    assert!(e.effective(12));
    assert!(!e.effective(13));
    assert!(!e.finished(12));
    assert!(e.finished(13));
}

#[test]
fn projectiles_are_pushed_and_removed() {
    let mut state = battle();
    let shot = Projectile { from: p(0, 0), to: p(9, 9), side: Side::A, start: 3, end: 5 };
    state.react(&BattleStateMessage::PushProjectile(shot), 4);
    assert_eq!(state.projectiles().len(), 1);
    assert!(shot.displayed(3) && shot.displayed(4) && !shot.displayed(5));
    state.react(&BattleStateMessage::PushProjectile(shot), 6);
    assert_eq!(state.projectiles().len(), 1);
    state.react(&BattleStateMessage::RemoveProjectile(shot), 6);
    assert!(state.projectiles().is_empty());
}

#[test]
fn frame_counter_steps_and_wraps() {
    let mut state = battle();
    state.react(&BattleStateMessage::IncrementFrameI, 0);
    assert_eq!(*state.frame_i(), 1);
    state.frame_i = u64::MAX;
    state.react(&BattleStateMessage::IncrementFrameI, 0);
    assert_eq!(*state.frame_i(), 0);
}

#[test]
fn phase_is_set() {
    let mut state = battle();
    state.react(&BattleStateMessage::SetPhase(Phase::Battle), 0);
    assert_eq!(*state.phase(), Phase::Battle);
    assert!(!state.phase().placement());
    assert!(Phase::Placement.placement());
}

#[test]
fn vehicle_mode_is_the_driver_place() {
    let mut state = battle();
    let v = state.push_vehicle(p(0, 0), vec![p(0, 0), p(10, 0), p(10, 10), p(0, 10)]);
    assert_eq!(v, VehicleIndex(0));
    assert!(state.board(SoldierIndex(0), v, OnBoardPlace::Driver));
    assert!(state.board(SoldierIndex(1), v, OnBoardPlace::Passenger));
    assert!(!state.board(SoldierIndex(77), v, OnBoardPlace::Passenger));
    assert!(!state.board(SoldierIndex(2), VehicleIndex(5), OnBoardPlace::Passenger));
    assert_eq!(state.soldier_vehicle_place(SoldierIndex(0)), Some(OnBoardPlace::Driver));
    assert_eq!(state.soldier_vehicle_place(SoldierIndex(1)), Some(OnBoardPlace::Passenger));
    assert_eq!(state.soldier_vehicle_place(SoldierIndex(2)), None);
    assert_eq!(state.soldier_behavior_mode(state.soldier(SoldierIndex(0))), BehaviorMode::Vehicle);
    assert_eq!(state.soldier_behavior_mode(state.soldier(SoldierIndex(1))), BehaviorMode::Ground);
    assert_eq!(state.soldier_behavior_mode(state.soldier(SoldierIndex(2))), BehaviorMode::Ground);
    assert_eq!(state.soldier_body(SoldierIndex(1)), Body::Crouched);
    assert_eq!(state.soldier_body(SoldierIndex(2)), Body::StandUp);
    assert!(state.is_wf());
}

#[test]
fn vehicle_chassis_holds_points_inside_and_on_its_edges() {
    let mut state = battle();
    state.push_vehicle(p(0, 0), vec![p(0, 0), p(10, 0), p(10, 10), p(0, 10)]);
    let v = &state.vehicles()[0];
    assert!(v.chassis_contains(&p(5, 5)));
    assert!(v.chassis_contains(&p(0, 0)));
    assert!(v.chassis_contains(&p(10, 5)));
    assert!(!v.chassis_contains(&p(11, 5)));
    assert!(!v.chassis_contains(&p(-1, 5)));
    // The other way round holds the same points.
    state.push_vehicle(p(0, 0), vec![p(0, 10), p(10, 10), p(10, 0), p(0, 0)]);
    assert!(state.vehicles()[1].chassis_contains(&p(5, 5)));
    assert!(!state.vehicles()[1].chassis_contains(&p(5, 11)));
    // Fewer than three corners hold nothing.
    state.push_vehicle(p(0, 0), vec![p(0, 0), p(10, 0)]);
    assert!(!state.vehicles()[2].chassis_contains(&p(5, 0)));
}

#[test]
fn reacting_is_deterministic() {
    let messages = vec![
        to(0, SoldierMessage::SetOrder(Order::MoveTo(route(vec![vec![p(9, 9)]]), None))),
        to(0, SoldierMessage::SetBehavior(Behavior::MoveTo(route(vec![vec![p(9, 9)]])))),
        to(3, SoldierMessage::IncreaseUnderFire(30)),
        to(0, SoldierMessage::ReachBehaviorStep),
        to(1, SoldierMessage::SetAlive(false)),
        BattleStateMessage::IncrementFrameI,
        BattleStateMessage::PushExplosion(Explosion::new(p(1, 1), ExplosiveType::Grenade, 0, 9)),
    ];
    let mut first = battle();
    let mut second = battle();
    for m in &messages {
        let frame = *first.frame_i();
        for e in first.react(m, frame) {
            first.apply_side_effect(&e);
        }
    }
    for m in &messages {
        let frame = *second.frame_i();
        for e in second.react(m, frame) {
            second.apply_side_effect(&e);
        }
    }
    assert!(same_state(&first, &second));
}

#[test]
fn messages_for_soldiers_of_different_squads_commute() {
    let pairs = vec![
        (to(0, SoldierMessage::SetAlive(false)), to(3, SoldierMessage::SetAlive(false))),
        (to(1, SoldierMessage::SetWorldPosition(p(5, 5))), to(4, SoldierMessage::IncreaseUnderFire(9))),
        (to(0, SoldierMessage::SetAlive(false)), to(4, SoldierMessage::SetUnconscious(true))),
        (
            to(2, SoldierMessage::SetBehavior(Behavior::Hide(Angle(1)))),
            to(3, SoldierMessage::SetOrder(Order::Defend(Angle(2)))),
        ),
    ];
    for (a, b) in pairs {
        let mut first = battle();
        let mut second = battle();
        for m in [&a, &b] {
            for e in first.react(m, 0) {
                first.apply_side_effect(&e);
            }
        }
        for m in [&b, &a] {
            for e in second.react(m, 0) {
                second.apply_side_effect(&e);
            }
        }
        assert!(same_state(&first, &second));
    }
}

#[test]
fn copy_and_load_bring_the_battle_back() {
    let mut state = battle();
    state.react(&to(0, SoldierMessage::SetAlive(false)), 0);
    state.react(&to(1, SoldierMessage::SetWorldPosition(p(5, 5))), 0);
    let copy: BattleStateCopy = state.copy();
    let mut other = BattleState::empty(grass_map(10, 10));
    other.load_from_copy(&copy);
    assert!(same_state(&state, &other));
    let checked = BattleState::from_copy(&copy).unwrap();
    assert!(same_state(&state, &checked));
}

#[test]
fn from_copy_refuses_an_inconsistent_battle() {
    let mut state = battle();
    // A dead soldier who still behaves.
    state.soldiers[0].status = Status::Dead;
    assert!(!state.is_wf());
    assert!(BattleState::from_copy(&state.copy()).is_none());

    let mut state = battle();
    state.squads[0].leader = SoldierIndex(3);
    assert!(!state.is_wf());

    let mut state = battle();
    state.squads[1].members.push(SoldierIndex(0));
    assert!(!state.is_wf());

    let mut state = battle();
    state.soldiers[2].uuid = SoldierIndex(0);
    assert!(!state.is_wf());

    let mut state = battle();
    state.soldiers[2].under_fire = UnderFire(201);
    assert!(!state.is_wf());
}
