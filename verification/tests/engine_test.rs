use open_combat::behavior::Behavior;
use open_combat::config::{ExplosiveProfile, FireConfig, ServerConfig, VisibilityConfig};
use open_combat::engine::event::UIEvent;
use open_combat::engine::input::{Key, KeysPressed, MouseButton, MoveScreenMode};
use open_combat::engine::message::{
    Control, DebugPhysics, DebugTerrain, EngineMessage, GuiStateMessage, Zoom,
};
use open_combat::engine::state::GuiState;
use open_combat::engine::Engine;
use open_combat::entity::vehicle::OnBoardPlace;
use open_combat::game::{Phase, Side, Sound};
use open_combat::map::terrain::TerrainTile;
use open_combat::map::BattleMap;
use open_combat::message::OutputMessage;
use open_combat::order::marker::OrderMarker;
use open_combat::order::path::{WorldPath, WorldPaths};
use open_combat::order::pending::PendingOrder;
use open_combat::order::Order;
use open_combat::runner::message::{ClientStateMessage, DebugPoint, RunnerMessage};
use open_combat::runner::Runner;
use open_combat::state::battle::BattleState;
use open_combat::state::markers::OrderMarkerEntry;
use open_combat::state::message::{BattleStateMessage, SoldierMessage};
use open_combat::types::{
    Angle, GridPoint, Offset, OrderMarkerIndex, SoldierIndex, SquadUuid, WindowPoint, WorldPoint,
};
use open_combat::ui::hud::painter::HudPainter;
use open_combat::ui::hud::{Component, Hud, HudEvent, WindowRect};
use open_combat::ui::menu::{which_item_clicked, MenuItem};

fn p(x: i32, y: i32) -> WorldPoint {
    WorldPoint::new(x, y)
}

fn w(x: i32, y: i32) -> WindowPoint {
    WindowPoint::new(x, y)
}

fn route(parts: Vec<Vec<WorldPoint>>) -> WorldPaths {
    WorldPaths::new(parts.into_iter().map(WorldPath::new).collect())
}

/// Open ground with a wall along the column of tiles 10, between the two sides.
fn grass_map(width: u32, height: u32) -> BattleMap {
    let mut tiles = Vec::new();
    for y in 0..height {
        for x in 0..width {
            let id = if x == 10 { "BrickWall" } else { "ShortGrass" };
            tiles.push(TerrainTile::from_str_id(id, 5000, 5000, x, y, 0, 0).unwrap());
        }
    }
    BattleMap::new(width, height, 5000, 5000, tiles).unwrap()
}

fn config() -> ServerConfig {
    ServerConfig {
        move_velocity: 50,
        move_fast_velocity: 100,
        move_hide_velocity: 20,
        drive_velocity: 200,
        formation_spacing: 2000,
        grenade: Some(ExplosiveProfile {
            direct_death: open_combat::types::Distance::from_millimeters(1500),
            regressive_death: open_combat::types::Distance::from_millimeters(6000),
            regressive_injured: open_combat::types::Distance::from_millimeters(12000),
        }),
        mortar_shell: None,
        artillery_shell: None,
        visibility: VisibilityConfig { step: 1000, threshold: 500000, decay: 500000 },
        fire: FireConfig {
            interval: 0,
            bullet_frames: 3,
            hit_chance: 500000,
            kill_chance: 250000,
            under_fire: 30,
            suppress_radius: 5000,
        },
    }
}

fn battle() -> BattleState {
    let mut state = BattleState::empty(grass_map(20, 20));
    let a = state.push_squad();
    let b = state.push_squad();
    state.push_soldier(Side::A, a, p(12000, 12000)).unwrap();
    state.push_soldier(Side::A, a, p(14000, 12000)).unwrap();
    state.push_soldier(Side::B, b, p(62000, 12000)).unwrap();
    state.push_soldier(Side::B, b, p(64000, 12000)).unwrap();
    state
}

fn hud() -> Hud {
    Hud::new(
        WindowRect { x: 0, y: 700, w: 1024, h: 68 },
        vec![
            Component {
                rect: WindowRect { x: 10, y: 710, w: 50, h: 50 },
                event: Some(HudEvent::RequestBeginBattle),
                sound: Some(Sound::Bip1),
            },
            Component { rect: WindowRect { x: 100, y: 710, w: 50, h: 50 }, event: None, sound: None },
        ],
    )
}

fn engine() -> Engine {
    Engine::new(config(), battle(), GuiState::new(Side::A), hud())
}

fn gui(m: &EngineMessage) -> &GuiStateMessage {
    match m {
        EngineMessage::GuiState(g) => g,
        _ => panic!("a change of the window's state was expected, not {:?}", m),
    }
}

fn apply(engine: &mut Engine, messages: &[EngineMessage]) {
    for m in messages {
        if let EngineMessage::GuiState(g) = m {
            engine.gui_state.react(g);
        }
    }
}

#[test]
fn window_and_world_points_convert_by_zoom_and_offset() {
    let mut state = GuiState::new(Side::A);
    assert_eq!(state.world_point_from_window_point(w(10, 20)), p(1000, 2000));
    assert_eq!(state.window_point_from_world_point(p(1000, 2099)), w(10, 20));
    state.react(&GuiStateMessage::SetDisplaySceneOffset(Offset::new(100, -50)));
    assert_eq!(state.world_point_from_window_point(w(10, 20)), p(-9000, 7000));
    assert_eq!(state.window_point_from_world_point(p(-9000, 7000)), w(10, 20));
    state.react(&GuiStateMessage::SetZoom(Zoom::In));
    assert_eq!(state.world_point_from_window_point(w(110, 20)), p(500, 3500));
    assert_eq!(state.window_point_from_world_point(p(-99, 99)), w(99, -49));
    assert_eq!(state.world_point_from_window_point(w(i32::MAX, i32::MIN)), p(i32::MAX, i32::MIN));
}

#[test]
fn zoom_steps() {
    assert_eq!(Zoom::Standard.next(), Zoom::In);
    assert_eq!(Zoom::In.next(), Zoom::In);
    assert_eq!(Zoom::In.previous(), Zoom::Standard);
    assert_eq!(Zoom::Standard.previous(), Zoom::Standard);
    assert_eq!(Zoom::Standard.millimeters_per_pixel(), 100);
    assert_eq!(Zoom::In.millimeters_per_pixel(), 50);
}

#[test]
fn gui_state_reacts_field_by_field() {
    let mut state = GuiState::new(Side::A);
    state.frame_i = 7;
    state.react(&GuiStateMessage::SetCursorPoint(w(3, 4)));
    assert_eq!(*state.get_current_cursor_window_point(), w(3, 4));
    assert_eq!(state.get_last_cursor_move_frame(), 7);
    state.react(&GuiStateMessage::SetLeftClickDown(Some(w(1, 1))));
    assert_eq!(*state.get_left_click_down_window_point(), Some(w(1, 1)));
    state.react(&GuiStateMessage::SetCurrentCursorVector(Some((w(1, 1), w(2, 2)))));
    assert_eq!(state.current_cursor_vector, Some((w(1, 1), w(2, 2))));
    state.react(&GuiStateMessage::ApplyOnDisplaySceneOffset(Offset::new(5, -5)));
    state.react(&GuiStateMessage::ApplyOnDisplaySceneOffset(Offset::new(5, -5)));
    assert_eq!(state.display_scene_offset, Offset::new(10, -10));
    state.react(&GuiStateMessage::ApplyOnDisplaySceneOffset(Offset::new(i32::MAX, i32::MIN)));
    assert_eq!(state.display_scene_offset, Offset::new(i32::MAX, i32::MIN));
    state.react(&GuiStateMessage::SetSelectedSquads(Some(SoldierIndex(1)), vec![SquadUuid(0)]));
    assert_eq!(state.selected_squads, vec![SquadUuid(0)]);
    assert_eq!(state.selected_soldier, Some(SoldierIndex(1)));
    state.react(&GuiStateMessage::SetSquadMenu(Some((w(1, 1), SquadUuid(0)))));
    assert_eq!(state.squad_menu, Some((w(1, 1), SquadUuid(0))));
    state.react(&GuiStateMessage::SetPendingOrder(Some(PendingOrder::MoveTo(SquadUuid(0), None, vec![]))));
    state.react(&GuiStateMessage::AddCachePointToPendingOrder(p(8, 8)));
    assert_eq!(state.pending_order.as_ref().unwrap().cached_points(), vec![p(8, 8)]);
    state.react(&GuiStateMessage::SetDisplayPaths(vec![(route(vec![vec![p(1, 1)]]), SquadUuid(0))]));
    assert_eq!(state.get_display_paths().len(), 1);
    state.react(&GuiStateMessage::PushDebugPoint(DebugPoint { frame_i: 1, point: p(1, 1) }));
    assert_eq!(state.debug_points.len(), 1);
    state.react(&GuiStateMessage::SetDebugTerrain(DebugTerrain::Tiles));
    assert_eq!(state.debug_terrain, DebugTerrain::Tiles);
    state.react(&GuiStateMessage::SetDebugPhysics(DebugPhysics::BrandtMle2731Shelling));
    assert_eq!(*state.get_debug_physics(), DebugPhysics::BrandtMle2731Shelling);
    state.react(&GuiStateMessage::PushUIEvent(UIEvent::CursorMove(w(1, 1))));
    state.react(&GuiStateMessage::PushUIEvent(UIEvent::DrawMovePaths));
    assert_eq!(state.ui_events, vec![UIEvent::CursorMove(w(1, 1)), UIEvent::DrawMovePaths]);
    state.react(&GuiStateMessage::SetControl(Control::MapView));
    assert!(state.is_controlling(&Control::MapView));
    state.react(&GuiStateMessage::SetDebugGuiHovered(true));
    assert!(state.debug_gui_hovered);
    state.react(&GuiStateMessage::SetDisplayDebugGui(true));
    assert!(state.display_debug_gui());
    state.react(&GuiStateMessage::SetBeginClickOnSoldier(Some(SoldierIndex(2))));
    assert_eq!(*state.begin_click_on_soldier(), Some(SoldierIndex(2)));
    state.react(&GuiStateMessage::SetDragSquad(Some(SquadUuid(1))));
    assert_eq!(*state.dragged_squad(), Some(SquadUuid(1)));
    state.react(&GuiStateMessage::SetCursorInHud(true));
    assert!(state.cursor_in_hud());
    state.react(&GuiStateMessage::SetIntroAck(true));
    assert!(state.intro_ack);
    state.react(&GuiStateMessage::SetSavesList(vec!["a".to_string(), "b".to_string()]));
    assert_eq!(state.saves, vec!["a".to_string(), "b".to_string()]);
    state.react(&GuiStateMessage::SetDrawDecor(false));
    assert!(!state.draw_decor);
    state.react(&GuiStateMessage::PushWaitingCursor(3, UIEvent::DrawMovePaths));
    assert_eq!(state.waiting_cursor, vec![(3, UIEvent::DrawMovePaths)]);
    state.react(&GuiStateMessage::SetWaitingCursor(vec![]));
    assert!(state.waiting_cursor.is_empty());
    // Changing side drops what belongs to the side.
    state.react(&GuiStateMessage::ChangeSide);
    assert_eq!(*state.side(), Side::B);
    assert!(state.selected_squads.is_empty());
    assert!(state.pending_order.is_none());
    assert!(state.get_display_paths().is_empty());
    assert_eq!(state.squad_menu, None);
    let events = state.take_ui_events();
    assert_eq!(events.len(), 2);
    assert!(state.ui_events.is_empty());
    state.tick();
    assert_eq!(state.get_frame_i(), 8);
}

#[test]
fn keys_pan_the_scene() {
    let engine = engine();
    let none = KeysPressed { shift: false, left: false, right: false, up: false, down: false };
    assert!(engine.collect_keyboard_inputs(&none).is_empty());
    let all = KeysPressed { shift: false, left: true, right: true, up: true, down: true };
    let messages = engine.collect_keyboard_inputs(&all);
    let offsets: Vec<Offset> = messages
        .iter()
        .map(|m| match gui(m) {
            GuiStateMessage::ApplyOnDisplaySceneOffset(o) => *o,
            _ => panic!("panning was expected"),
        })
        .collect();
    assert_eq!(
        offsets,
        vec![Offset::new(2, 0), Offset::new(-2, 0), Offset::new(0, 2), Offset::new(0, -2)]
    );
    let fast = KeysPressed { shift: true, left: false, right: true, up: false, down: false };
    let messages = engine.collect_keyboard_inputs(&fast);
    assert_eq!(messages.len(), 1);
    assert!(matches!(
        gui(&messages[0]),
        GuiStateMessage::ApplyOnDisplaySceneOffset(Offset { x: -15, y: 0 })
    ));
    assert_eq!(MoveScreenMode::Normal.to_pixels_offset(), 2);
    assert_eq!(MoveScreenMode::Speed.to_pixels_offset(), 15);
}

#[test]
fn every_frame_tells_how_long_the_cursor_has_been_still() {
    let mut engine = engine();
    engine.gui_state.frame_i = 40;
    engine.gui_state.last_cursor_move_frame = 25;
    let none = KeysPressed { shift: false, left: false, right: false, up: false, down: false };
    let messages = engine.collect_player_inputs(&none);
    assert_eq!(messages.len(), 1);
    assert!(matches!(
        gui(&messages[0]),
        GuiStateMessage::PushUIEvent(UIEvent::ImmobileCursorSince(15))
    ));
    engine.gui_state.last_cursor_move_frame = 50;
    let messages = engine.collect_player_inputs(&none);
    assert!(matches!(
        gui(&messages[0]),
        GuiStateMessage::PushUIEvent(UIEvent::ImmobileCursorSince(0))
    ));
}

#[test]
fn control_keys_turn_to_the_map_and_back() {
    let mut engine = engine();
    for key in [Key::LControl, Key::RControl] {
        let messages = engine.collect_key_pressed(key);
        assert!(matches!(gui(&messages[0]), GuiStateMessage::SetControl(Control::MapView)));
        let messages = engine.collect_key_released(key);
        assert!(matches!(gui(&messages[0]), GuiStateMessage::SetControl(Control::Soldiers)));
    }
    assert!(engine.collect_key_pressed(Key::F4).is_empty());
    assert!(engine.collect_key_pressed(Key::Other).is_empty());
    engine.gui_state.react(&GuiStateMessage::SetDebugPhysics(DebugPhysics::MosinNagantM1924GunFire));
    assert_eq!(engine.determine_controlling(), Control::Physics);
    let messages = engine.collect_key_released(Key::LControl);
    assert!(matches!(gui(&messages[0]), GuiStateMessage::SetControl(Control::Physics)));
    engine.gui_state.react(&GuiStateMessage::SetDebugPhysics(DebugPhysics::Off));
    assert_eq!(engine.determine_controlling(), Control::Soldiers);
}

#[test]
fn function_keys() {
    let mut engine = engine();
    assert!(matches!(engine.collect_key_released(Key::F4)[0], EngineMessage::MakeASave));
    assert!(matches!(engine.collect_key_released(Key::F5)[0], EngineMessage::TryLoadLastSave));
    assert!(matches!(gui(&engine.collect_key_released(Key::F9)[0]), GuiStateMessage::ChangeSide));
    assert!(matches!(
        gui(&engine.collect_key_released(Key::F10)[0]),
        GuiStateMessage::SetDebugTerrain(DebugTerrain::Tiles)
    ));
    assert!(matches!(
        gui(&engine.collect_key_released(Key::F12)[0]),
        GuiStateMessage::SetDisplayDebugGui(true)
    ));
    assert!(matches!(
        gui(&engine.collect_key_released(Key::T)[0]),
        GuiStateMessage::SetDrawDecor(false)
    ));
    assert!(engine.collect_key_released(Key::Other).is_empty());
    engine.gui_state.react(&GuiStateMessage::SetDebugTerrain(DebugTerrain::Opacity));
    assert!(matches!(
        gui(&engine.collect_key_released(Key::F10)[0]),
        GuiStateMessage::SetDebugTerrain(DebugTerrain::Off)
    ));
    assert_eq!(DebugTerrain::Tiles.next(), DebugTerrain::Opacity);
    assert_eq!(Control::MapView.name(), "Map");
    assert_eq!(Control::Soldiers.name(), "Soldiers");
    assert_eq!(Control::Physics.name(), "Physics");
}

#[test]
fn mouse_motion_tells_the_place_and_the_move() {
    let engine = engine();
    let messages = engine.collect_mouse_motion(30, 40);
    assert_eq!(messages.len(), 3);
    assert!(matches!(gui(&messages[0]), GuiStateMessage::SetCursorPoint(WindowPoint { x: 30, y: 40 })));
    assert!(matches!(
        gui(&messages[1]),
        GuiStateMessage::PushUIEvent(UIEvent::CursorMove(WindowPoint { x: 30, y: 40 }))
    ));
    // The cursor was at the origin, off the HUD, on the same tile.
    assert!(matches!(gui(&messages[2]), GuiStateMessage::SetCursorInHud(false)));
}

#[test]
fn mouse_motion_to_another_tile_drops_the_routes_shown() {
    let engine = engine();
    let messages = engine.collect_mouse_motion(60, 40);
    assert_eq!(messages.len(), 4);
    match gui(&messages[2]) {
        GuiStateMessage::SetDisplayPaths(paths) => assert!(paths.is_empty()),
        _ => panic!("the end of the routes shown was expected"),
    }
}

#[test]
fn mouse_motion_with_the_button_down_is_a_drag() {
    let mut engine = engine();
    engine.gui_state.react(&GuiStateMessage::SetCursorPoint(w(10, 10)));
    engine.gui_state.react(&GuiStateMessage::SetLeftClickDown(Some(w(10, 10))));
    // Back where the button went down: no vector.
    assert_eq!(engine.collect_mouse_motion(10, 10).len(), 3);
    let messages = engine.collect_mouse_motion(30, 15);
    assert!(matches!(
        gui(&messages[2]),
        GuiStateMessage::SetCurrentCursorVector(Some((
            WindowPoint { x: 10, y: 10 },
            WindowPoint { x: 30, y: 15 }
        )))
    ));
    assert_eq!(messages.len(), 4);
    // In map control the drag pans the scene by the move of the cursor.
    engine.gui_state.react(&GuiStateMessage::SetControl(Control::MapView));
    let messages = engine.collect_mouse_motion(30, 15);
    assert!(matches!(
        gui(&messages[3]),
        GuiStateMessage::ApplyOnDisplaySceneOffset(Offset { x: 20, y: 5 })
    ));
}

#[test]
fn dragging_a_squad_begins_on_the_soldier_where_the_click_began() {
    let mut engine = engine();
    // The cursor is on soldier 1, and the click began on it.
    engine.gui_state.react(&GuiStateMessage::SetCursorPoint(w(140, 120)));
    engine.gui_state.react(&GuiStateMessage::SetLeftClickDown(Some(w(140, 120))));
    engine.gui_state.react(&GuiStateMessage::SetBeginClickOnSoldier(Some(SoldierIndex(1))));
    let messages = engine.collect_mouse_motion(141, 120);
    assert!(messages
        .iter()
        .any(|m| matches!(gui(m), GuiStateMessage::SetDragSquad(Some(SquadUuid(0))))));
    // Not when the click began on another soldier.
    engine.gui_state.react(&GuiStateMessage::SetBeginClickOnSoldier(Some(SoldierIndex(0))));
    let messages = engine.collect_mouse_motion(141, 120);
    assert!(!messages.iter().any(|m| matches!(gui(m), GuiStateMessage::SetDragSquad(_))));
    // Nor once the battle has begun.
    engine.gui_state.react(&GuiStateMessage::SetBeginClickOnSoldier(Some(SoldierIndex(1))));
    engine.battle_state.react(&BattleStateMessage::SetPhase(Phase::Battle), 0);
    let messages = engine.collect_mouse_motion(141, 120);
    assert!(!messages.iter().any(|m| matches!(gui(m), GuiStateMessage::SetDragSquad(_))));
}

#[test]
fn mouse_motion_tells_whether_the_cursor_was_on_the_hud() {
    let mut engine = engine();
    engine.gui_state.react(&GuiStateMessage::SetCursorPoint(w(500, 720)));
    let messages = engine.collect_mouse_motion(500, 600);
    assert!(matches!(gui(messages.last().unwrap()), GuiStateMessage::SetCursorInHud(true)));
}

#[test]
fn left_button_down_records_the_place() {
    let mut engine = engine();
    engine.battle_state.react(&BattleStateMessage::SetPhase(Phase::Battle), 0);
    let messages = engine.collect_mouse_down(MouseButton::Left, 30, 40);
    assert_eq!(messages.len(), 1);
    assert!(matches!(
        gui(&messages[0]),
        GuiStateMessage::SetLeftClickDown(Some(WindowPoint { x: 30, y: 40 }))
    ));
    assert!(engine.collect_mouse_down(MouseButton::Right, 30, 40).is_empty());
    assert!(engine.collect_mouse_down(MouseButton::Other, 30, 40).is_empty());
}

#[test]
fn left_button_down_on_a_marker_opens_its_order() {
    let mut engine = engine();
    engine.battle_state.react(&BattleStateMessage::SetPhase(Phase::Battle), 0);
    let order = Order::MoveTo(route(vec![vec![p(20000, 20000)], vec![p(30000, 30000)]]), None);
    engine.battle_state.react(
        &BattleStateMessage::Soldier(SoldierIndex(0), SoldierMessage::SetOrder(order)),
        0,
    );
    assert_eq!(
        engine.battle_state.order_markers(&Side::A),
        vec![
            OrderMarkerEntry {
                marker: OrderMarker::MoveTo,
                squad: SquadUuid(0),
                point: p(20000, 20000),
                index: OrderMarkerIndex(0),
            },
            OrderMarkerEntry {
                marker: OrderMarker::MoveTo,
                squad: SquadUuid(0),
                point: p(30000, 30000),
                index: OrderMarkerIndex(1),
            },
        ]
    );
    assert!(engine.battle_state.order_markers(&Side::B).is_empty());
    // A click within the marker's reach of the second marker.
    let messages = engine.collect_mouse_down(MouseButton::Left, 310, 295);
    assert_eq!(messages.len(), 2);
    match gui(&messages[1]) {
        GuiStateMessage::SetPendingOrder(Some(PendingOrder::MoveTo(squad, index, cached))) => {
            assert_eq!(*squad, SquadUuid(0));
            assert_eq!(*index, Some(OrderMarkerIndex(1)));
            assert!(cached.is_empty());
        }
        _ => panic!("a pending order was expected"),
    }
    // Beside the markers nothing opens; nor on the HUD or in map control.
    assert_eq!(engine.collect_mouse_down(MouseButton::Left, 250, 250).len(), 1);
    engine.gui_state.react(&GuiStateMessage::SetCursorInHud(true));
    assert_eq!(engine.collect_mouse_down(MouseButton::Left, 310, 295).len(), 1);
    engine.gui_state.react(&GuiStateMessage::SetCursorInHud(false));
    engine.gui_state.react(&GuiStateMessage::SetControl(Control::MapView));
    assert_eq!(engine.collect_mouse_down(MouseButton::Left, 310, 295).len(), 1);
}

#[test]
fn order_markers_of_each_order() {
    let mut state = battle();
    let set = |state: &mut BattleState, order: Order| {
        state.react(&BattleStateMessage::Soldier(SoldierIndex(0), SoldierMessage::SetOrder(order)), 0);
    };
    set(&mut state, Order::Defend(Angle(3)));
    let markers = state.order_markers(&Side::A);
    assert_eq!(markers.len(), 1);
    assert_eq!(markers[0].marker, OrderMarker::Defend);
    assert_eq!(markers[0].point, p(12000, 12000));
    set(&mut state, Order::EngageSquad(SquadUuid(1)));
    let markers = state.order_markers(&Side::A);
    assert_eq!(markers[0].marker, OrderMarker::EngageSquad);
    assert_eq!(markers[0].point, p(62000, 12000));
    set(&mut state, Order::EngageSquad(SquadUuid(9)));
    assert!(state.order_markers(&Side::A).is_empty());
    set(&mut state, Order::SuppressFire(p(5, 5)));
    assert_eq!(state.order_markers(&Side::A)[0].point, p(5, 5));
    set(&mut state, Order::Idle);
    assert!(state.order_markers(&Side::A).is_empty());
    assert_eq!(OrderMarker::MoveTo.reach(), 1500);
    assert_eq!(OrderMarker::Hide.offset(), Offset::new(-12, -12));
}

#[test]
fn left_button_down_during_placement_remembers_the_soldier_under_the_cursor() {
    let mut engine = engine();
    engine.gui_state.react(&GuiStateMessage::SetCursorPoint(w(125, 115)));
    let messages = engine.collect_mouse_down(MouseButton::Left, 125, 115);
    assert_eq!(messages.len(), 2);
    assert!(matches!(
        gui(&messages[1]),
        GuiStateMessage::SetBeginClickOnSoldier(Some(SoldierIndex(0)))
    ));
}

#[test]
fn left_button_up_where_it_went_down_is_a_click() {
    let mut engine = engine();
    engine.gui_state.react(&GuiStateMessage::SetLeftClickDown(Some(w(30, 40))));
    let messages = engine.collect_mouse_up(MouseButton::Left, 30, 40);
    assert_eq!(messages.len(), 5);
    assert!(matches!(gui(&messages[0]), GuiStateMessage::SetLeftClickDown(None)));
    assert!(matches!(gui(&messages[1]), GuiStateMessage::SetCurrentCursorVector(None)));
    assert!(matches!(
        gui(&messages[2]),
        GuiStateMessage::PushUIEvent(UIEvent::FinishedCursorLeftClick(WindowPoint { x: 30, y: 40 }))
    ));
    assert!(matches!(gui(&messages[3]), GuiStateMessage::SetDragSquad(None)));
    assert!(matches!(gui(&messages[4]), GuiStateMessage::SetBeginClickOnSoldier(None)));
    // Without a recorded press the release is a click too.
    engine.gui_state.react(&GuiStateMessage::SetLeftClickDown(None));
    let messages = engine.collect_mouse_up(MouseButton::Left, 30, 40);
    assert!(matches!(
        gui(&messages[2]),
        GuiStateMessage::PushUIEvent(UIEvent::FinishedCursorLeftClick(_))
    ));
}

#[test]
fn left_button_up_elsewhere_ends_a_vector() {
    let mut engine = engine();
    engine.gui_state.react(&GuiStateMessage::SetLeftClickDown(Some(w(30, 40))));
    let messages = engine.collect_mouse_up(MouseButton::Left, 50, 60);
    assert!(matches!(
        gui(&messages[2]),
        GuiStateMessage::PushUIEvent(UIEvent::FinishedCursorVector(
            WindowPoint { x: 30, y: 40 },
            WindowPoint { x: 50, y: 60 }
        ))
    ));
}

#[test]
fn releasing_a_dragged_squad_drops_it_or_refuses_on_the_hud() {
    let mut engine = engine();
    engine.gui_state.react(&GuiStateMessage::SetLeftClickDown(Some(w(30, 40))));
    engine.gui_state.react(&GuiStateMessage::SetDragSquad(Some(SquadUuid(0))));
    let messages = engine.collect_mouse_up(MouseButton::Left, 50, 60);
    assert!(matches!(
        gui(&messages[3]),
        GuiStateMessage::PushUIEvent(UIEvent::DropSquadTo(
            SquadUuid(0),
            WorldPoint { x: 5000, y: 6000 }
        ))
    ));
    engine.gui_state.react(&GuiStateMessage::SetCursorInHud(true));
    let messages = engine.collect_mouse_up(MouseButton::Left, 50, 60);
    assert!(matches!(messages[3], EngineMessage::PlaySound(Sound::Bip1)));
}

#[test]
fn a_click_on_a_button_of_the_hud_gives_its_event_and_sound() {
    let mut engine = engine();
    engine.gui_state.react(&GuiStateMessage::SetLeftClickDown(Some(w(20, 720))));
    let messages = engine.collect_mouse_up(MouseButton::Left, 25, 730);
    assert_eq!(messages.len(), 7);
    assert!(matches!(
        messages[3],
        EngineMessage::BattleState(BattleStateMessage::SetPhase(Phase::Battle))
    ));
    assert!(matches!(messages[4], EngineMessage::PlaySound(Sound::Bip1)));
    // A press on the button released beside it is no click on it.
    let messages = engine.collect_mouse_up(MouseButton::Left, 80, 730);
    assert_eq!(messages.len(), 5);
    // A button without event or sound gives nothing.
    engine.gui_state.react(&GuiStateMessage::SetLeftClickDown(Some(w(110, 720))));
    assert_eq!(engine.collect_mouse_up(MouseButton::Left, 110, 720).len(), 5);
    assert!(matches!(
        engine.hud_event(HudEvent::RequestEndBattle)[0],
        EngineMessage::BattleState(BattleStateMessage::SetPhase(Phase::End))
    ));
}

#[test]
fn right_button_up_is_a_right_click() {
    let engine = engine();
    let messages = engine.collect_mouse_up(MouseButton::Right, 30, 40);
    assert_eq!(messages.len(), 1);
    assert!(matches!(
        gui(&messages[0]),
        GuiStateMessage::PushUIEvent(UIEvent::FinishedCursorRightClick(WindowPoint { x: 30, y: 40 }))
    ));
    assert!(engine.collect_mouse_up(MouseButton::Other, 30, 40).is_empty());
}

#[test]
fn the_wheel_zooms_and_keeps_the_middle_of_the_window_in_place() {
    let mut engine = engine();
    engine.gui_state.react(&GuiStateMessage::SetDisplaySceneOffset(Offset::new(100, 50)));
    let half = w(512, 384);
    let middle = engine.gui_state.world_point_from_window_point(half);
    assert_eq!(middle, p(41200, 33400));
    let messages = engine.collect_mouse_wheel(1024, 768, 1);
    assert_eq!(messages.len(), 2);
    assert!(matches!(gui(&messages[0]), GuiStateMessage::SetZoom(Zoom::In)));
    assert!(matches!(
        gui(&messages[1]),
        GuiStateMessage::SetDisplaySceneOffset(Offset { x: -312, y: -284 })
    ));
    apply(&mut engine, &messages);
    assert_eq!(engine.gui_state.window_point_from_world_point(middle), half);
    // And back.
    let messages = engine.collect_mouse_wheel(1024, 768, -1);
    assert!(matches!(gui(&messages[0]), GuiStateMessage::SetZoom(Zoom::Standard)));
    apply(&mut engine, &messages);
    assert_eq!(engine.gui_state.window_point_from_world_point(middle), half);
    assert_eq!(engine.gui_state.display_scene_offset, Offset::new(100, 50));
    // Over the HUD or the debug window the wheel does nothing here.
    engine.gui_state.react(&GuiStateMessage::SetCursorInHud(true));
    assert!(engine.collect_mouse_wheel(1024, 768, 1).is_empty());
    engine.gui_state.react(&GuiStateMessage::SetCursorInHud(false));
    engine.gui_state.react(&GuiStateMessage::SetDebugGuiHovered(true));
    assert!(engine.collect_mouse_wheel(1024, 768, 1).is_empty());
}

#[test]
fn hud_holds_points_on_its_band() {
    let hud = hud();
    assert!(hud.contains(&vec![w(5, 705)]));
    assert!(!hud.contains(&vec![w(5, 705), w(5, 5)]));
    assert!(hud.contains(&vec![]));
    assert_eq!(hud.hovered_by(&vec![w(20, 720)]).unwrap().event(), Some(HudEvent::RequestBeginBattle));
    assert_eq!(hud.hovered_by(&vec![w(120, 720)]).unwrap().sound(), None);
    assert!(hud.hovered_by(&vec![w(20, 720), w(120, 720)]).is_none());
    let state = GuiState::new(Side::A);
    let painter = HudPainter::new(&hud, &state);
    assert_eq!(*painter.hover_point(), w(0, 0));
    assert!(!painter.hovered());
}

#[test]
fn entities_are_found_at_points_and_in_areas() {
    let engine = engine();
    assert_eq!(engine.get_entities_at_point(p(12500, 11500)), vec![SoldierIndex(0)]);
    assert_eq!(
        engine.get_entities_at_point(p(13000, 12000)),
        vec![SoldierIndex(0), SoldierIndex(1)]
    );
    assert!(engine.get_entities_at_point(p(30000, 12000)).is_empty());
    assert_eq!(engine.first_soldier_at(p(13000, 12000)), Some(SoldierIndex(0)));
    assert_eq!(
        engine.get_entities_in_area(p(70000, 20000), p(13000, 0)),
        vec![SoldierIndex(1), SoldierIndex(2), SoldierIndex(3)]
    );
    assert_eq!(
        engine.filter_entities_by_side(vec![SoldierIndex(3), SoldierIndex(1), SoldierIndex(9), SoldierIndex(0)]),
        vec![SoldierIndex(1), SoldierIndex(0)]
    );
    assert_eq!(
        engine._filter_entities_by_visibility(vec![SoldierIndex(3), SoldierIndex(1)]),
        vec![SoldierIndex(3), SoldierIndex(1)]
    );
    assert_eq!(
        engine.squad_ids_from_entities(vec![
            SoldierIndex(3),
            SoldierIndex(0),
            SoldierIndex(2),
            SoldierIndex(9),
            SoldierIndex(1)
        ]),
        vec![SquadUuid(1), SquadUuid(0)]
    );
    assert_eq!(engine.grid_point_from_world_point(p(12000, 27000)), GridPoint::new(2, 5));
    assert_eq!(engine.world_point_from_grid_point(GridPoint::new(2, 5)), p(12500, 27500));
}

#[test]
fn angle_from_cursor_and_squad_is_the_direction_from_the_leader() {
    let mut engine = engine();
    engine.gui_state.react(&GuiStateMessage::SetCursorPoint(w(120, 220)));
    assert_eq!(engine.angle_from_cursor_and_squad(SquadUuid(0)), Angle(90000));
    engine.gui_state.react(&GuiStateMessage::SetCursorPoint(w(20, 120)));
    assert_eq!(engine.angle_from_cursor_and_squad(SquadUuid(0)), Angle(180000));
}

#[test]
fn pending_order_params_place_the_icons() {
    let mut engine = engine();
    engine.gui_state.react(&GuiStateMessage::SetCursorPoint(w(300, 120)));
    let order = PendingOrder::MoveTo(SquadUuid(0), None, vec![]);
    let params = engine.get_pending_order_params(&order, SquadUuid(0), &vec![p(20000, 10000)]);
    assert_eq!(
        params,
        vec![
            (w(200, 100), Angle(0), Offset::new(-5, -20)),
            (w(300, 120), Angle(0), Offset::new(-5, -20)),
        ]
    );
    let order = PendingOrder::Defend(SquadUuid(0));
    let params = engine.get_pending_order_params(&order, SquadUuid(0), &vec![]);
    assert_eq!(params, vec![(w(120, 120), Angle(0), Offset::new(-12, -12))]);
    let order = PendingOrder::EngageOrFire(SquadUuid(0));
    let params = engine.get_pending_order_params(&order, SquadUuid(0), &vec![]);
    assert_eq!(params, vec![(w(300, 120), Angle(0), Offset::new(-10, -10))]);
}

#[test]
fn current_squad_world_paths_are_those_of_a_leader_on_the_move() {
    let mut engine = engine();
    assert!(engine.current_squad_world_paths(SquadUuid(0)).is_none());
    let paths = route(vec![vec![p(20000, 20000)]]);
    engine.battle_state.react(
        &BattleStateMessage::Soldier(
            SoldierIndex(0),
            SoldierMessage::SetBehavior(Behavior::MoveFastTo(paths.clone())),
        ),
        0,
    );
    assert!(engine.current_squad_world_paths(SquadUuid(0)).unwrap().same_as(&paths));
    engine.battle_state.react(
        &BattleStateMessage::Soldier(
            SoldierIndex(0),
            SoldierMessage::SetBehavior(Behavior::DriveTo(paths)),
        ),
        0,
    );
    assert!(engine.current_squad_world_paths(SquadUuid(0)).is_none());
}

#[test]
fn path_finding_from_the_leader_to_the_cursor() {
    let mut engine = engine();
    // The leader is on tile (2, 2); the cursor on tile (5, 2).
    engine.gui_state.react(&GuiStateMessage::SetCursorPoint(w(270, 120)));
    let found = engine.create_path_finding(SquadUuid(0), None, &vec![], false).unwrap();
    assert!(found.same_as(&route(vec![vec![
        p(12500, 12500),
        p(17500, 7500),
        p(22500, 7500),
        p(27500, 12500)
    ]])));
    // With only the ends wanted the trace is left out.
    let found = engine.create_path_finding(SquadUuid(0), None, &vec![], true).unwrap();
    assert!(found.same_as(&route(vec![vec![p(12500, 12500), p(27500, 12500)]])));
}

#[test]
fn path_finding_goes_through_the_chosen_waypoints() {
    let mut engine = engine();
    engine.gui_state.react(&GuiStateMessage::SetCursorPoint(w(270, 120)));
    let cached = vec![p(12000, 22000), p(22000, 22000)];
    let found = engine.create_path_finding(SquadUuid(0), None, &cached, true).unwrap();
    assert!(found.same_as(&route(vec![
        vec![p(12500, 12500), p(12500, 22500)],
        vec![p(12500, 22500), p(22500, 22500)],
        vec![p(22500, 22500), p(27500, 12500)],
    ])));
}

#[test]
fn path_finding_goes_through_a_single_chosen_waypoint() {
    let mut engine = engine();
    engine.gui_state.react(&GuiStateMessage::SetCursorPoint(w(270, 120)));
    let found = engine.create_path_finding(SquadUuid(0), None, &vec![p(12000, 22000)], true).unwrap();
    assert!(found.same_as(&route(vec![
        vec![p(12500, 12500), p(12500, 22500)],
        vec![p(12500, 22500), p(27500, 12500)],
    ])));
    // On foot each part is traced tile by tile, and the waypoint ends the first.
    let found = engine.create_path_finding(SquadUuid(0), None, &vec![p(12000, 22000)], false).unwrap();
    assert_eq!(found.paths.len(), 2);
    assert_eq!(found.paths[0].points.first(), Some(&p(12500, 12500)));
    assert_eq!(found.paths[0].points.last(), Some(&p(12500, 22500)));
    assert_eq!(found.paths[1].points.first(), Some(&p(12500, 22500)));
    assert_eq!(found.paths[1].points.last(), Some(&p(27500, 12500)));
}

#[test]
fn path_finding_with_a_marker_moves_one_end_to_the_cursor() {
    let mut engine = engine();
    engine.gui_state.react(&GuiStateMessage::SetCursorPoint(w(270, 320)));
    let paths = route(vec![
        vec![p(12000, 12000), p(22000, 12000)],
        vec![p(22000, 12000), p(42000, 12000)],
    ]);
    engine.battle_state.react(
        &BattleStateMessage::Soldier(SoldierIndex(0), SoldierMessage::SetBehavior(Behavior::MoveTo(paths))),
        0,
    );
    let found = engine
        .create_path_finding(SquadUuid(0), Some(OrderMarkerIndex(0)), &vec![], true)
        .unwrap();
    assert!(found.same_as(&route(vec![
        vec![p(12500, 12500), p(27500, 32500)],
        vec![p(27500, 32500), p(42500, 12500)],
    ])));
    let found = engine
        .create_path_finding(SquadUuid(0), Some(OrderMarkerIndex(1)), &vec![], true)
        .unwrap();
    assert!(found.same_as(&route(vec![
        vec![p(12500, 12500), p(22500, 12500)],
        vec![p(22500, 12500), p(27500, 32500)],
    ])));
}

#[test]
fn path_finding_to_a_place_off_the_map_finds_nothing() {
    let mut engine = engine();
    engine.gui_state.react(&GuiStateMessage::SetCursorPoint(w(5000, 120)));
    assert!(engine.create_path_finding(SquadUuid(0), None, &vec![], false).is_none());
}

#[test]
fn a_squad_with_a_driver_takes_only_the_ends_of_its_route() {
    // The leader drives; its order is to move by three points.
    let mut engine = engine();
    let v = engine.battle_state.push_vehicle(p(12000, 12000), vec![]);
    assert!(engine.battle_state.board(SoldierIndex(0), v, OnBoardPlace::Driver));
    let order = Order::MoveTo(route(vec![vec![p(12000, 12000), p(22000, 32000), p(42000, 12000)]]), None);
    engine.battle_state.react(
        &BattleStateMessage::Soldier(SoldierIndex(0), SoldierMessage::SetOrder(order)),
        0,
    );
    let runner = Runner::new(config(), engine.battle_state.clone());
    let messages = runner.soldier_behavior(runner.battle_state.soldier(SoldierIndex(0)));
    match messages.last().unwrap() {
        RunnerMessage::BattleState(BattleStateMessage::Soldier(_, SoldierMessage::SetBehavior(b))) => {
            assert!(b.same_as(&Behavior::DriveTo(route(vec![vec![
                p(12000, 12000),
                p(22000, 32000),
                p(42000, 12000)
            ]]))));
        }
        _ => panic!("the behavior was expected"),
    }
    // The route from the leader's tile to the cursor's: the two ends alone.
    engine.gui_state.react(&GuiStateMessage::SetCursorPoint(w(420, 120)));
    // A route shown for the squad does not count for a driver.
    engine.gui_state.react(&GuiStateMessage::SetDisplayPaths(vec![(
        route(vec![vec![p(1, 1)]]),
        SquadUuid(0),
    )]));
    let found = engine.create_world_paths_from_context(SquadUuid(0), None, &vec![]).unwrap();
    assert!(found.same_as(&route(vec![vec![p(12500, 12500), p(42500, 12500)]])));
}

#[test]
fn a_squad_on_foot_takes_the_route_shown_for_it() {
    let mut engine = engine();
    engine.gui_state.react(&GuiStateMessage::SetCursorPoint(w(270, 120)));
    let shown = route(vec![vec![p(1, 1), p(2, 2)]]);
    engine.gui_state.react(&GuiStateMessage::SetDisplayPaths(vec![
        (route(vec![vec![p(9, 9)]]), SquadUuid(1)),
        (shown.clone(), SquadUuid(0)),
    ]));
    let found = engine.create_world_paths_from_context(SquadUuid(0), None, &vec![]).unwrap();
    assert!(found.same_as(&shown));
    engine.gui_state.react(&GuiStateMessage::SetDisplayPaths(vec![]));
    let found = engine.create_world_paths_from_context(SquadUuid(0), None, &vec![]).unwrap();
    assert_eq!(found.paths[0].len(), 4);
}

#[test]
fn clicks_choose_waypoints_and_a_right_click_commits_the_move() {
    // The observer prepares a move for squad 0, clicks on two points, and
    // commits with a right click while the cursor is on a third.
    let mut engine = engine();
    engine.gui_state.react(&GuiStateMessage::SetPendingOrder(Some(PendingOrder::MoveTo(
        SquadUuid(0),
        None,
        vec![],
    ))));
    for click in [w(200, 100), w(300, 150)] {
        let messages = engine.digest_ui_event(&UIEvent::FinishedCursorLeftClick(click));
        assert_eq!(messages.len(), 1);
        apply(&mut engine, &messages);
    }
    assert_eq!(
        engine.gui_state.pending_order.as_ref().unwrap().cached_points(),
        vec![p(20000, 10000), p(30000, 15000)]
    );
    let messages = engine.digest_ui_event(&UIEvent::FinishedCursorRightClick(w(400, 100)));
    assert_eq!(messages.len(), 3);
    match &messages[0] {
        EngineMessage::BattleState(BattleStateMessage::Soldier(
            SoldierIndex(0),
            SoldierMessage::SetOrder(order),
        )) => {
            let expected = Order::MoveTo(
                route(vec![vec![p(20000, 10000), p(30000, 15000), p(40000, 10000)]]),
                None,
            );
            assert!(order.same_as(&expected));
        }
        _ => panic!("the order for the leader was expected"),
    }
    assert!(matches!(gui(&messages[1]), GuiStateMessage::SetPendingOrder(None)));
    match gui(&messages[2]) {
        GuiStateMessage::SetDisplayPaths(paths) => assert!(paths.is_empty()),
        _ => panic!("the end of the routes shown was expected"),
    }
    apply(&mut engine, &messages);
    assert!(engine.gui_state.pending_order.is_none());
}

#[test]
fn a_left_click_commits_an_order_without_route() {
    let mut engine = engine();
    engine.gui_state.react(&GuiStateMessage::SetPendingOrder(Some(PendingOrder::Defend(SquadUuid(0)))));
    let messages = engine.digest_left_click(w(120, 20));
    match &messages[0] {
        EngineMessage::BattleState(BattleStateMessage::Soldier(
            SoldierIndex(0),
            SoldierMessage::SetOrder(order),
        )) => assert!(order.same_as(&Order::Defend(Angle(270000)))),
        _ => panic!("the order for the leader was expected"),
    }
    // A right click cancels it.
    let messages = engine.digest_right_click(w(120, 20));
    assert_eq!(messages.len(), 1);
    assert!(matches!(gui(&messages[0]), GuiStateMessage::SetPendingOrder(None)));
}

#[test]
fn engage_or_fire_takes_the_opponent_under_the_cursor_or_the_point() {
    let mut engine = engine();
    let pending = PendingOrder::EngageOrFire(SquadUuid(0));
    let order_of = |messages: &Vec<EngineMessage>| match &messages[0] {
        EngineMessage::BattleState(BattleStateMessage::Soldier(_, SoldierMessage::SetOrder(o))) => o.clone(),
        _ => panic!("an order was expected"),
    };
    let messages = engine.commit_pending_order(&pending, p(62500, 12000));
    assert!(order_of(&messages).same_as(&Order::EngageSquad(SquadUuid(1))));
    let messages = engine.commit_pending_order(&pending, p(30000, 30000));
    assert!(order_of(&messages).same_as(&Order::SuppressFire(p(30000, 30000))));
    // One's own soldiers are no opponents.
    let messages = engine.commit_pending_order(&pending, p(12000, 12000));
    assert!(order_of(&messages).same_as(&Order::SuppressFire(p(12000, 12000))));
    // An order for a squad that the replica does not hold goes nowhere.
    engine.gui_state.react(&GuiStateMessage::SetCursorPoint(w(0, 0)));
    let messages = engine.commit_pending_order(&PendingOrder::Hide(SquadUuid(9)), p(0, 0));
    assert_eq!(messages.len(), 2);
}

#[test]
fn a_left_click_selects_the_squads_of_own_soldiers_under_it() {
    let engine = engine();
    let messages = engine.digest_left_click(w(130, 120));
    assert_eq!(messages.len(), 1);
    match gui(&messages[0]) {
        GuiStateMessage::SetSelectedSquads(first, squads) => {
            assert_eq!(*first, Some(SoldierIndex(0)));
            assert_eq!(*squads, vec![SquadUuid(0)]);
        }
        _ => panic!("a selection was expected"),
    }
    // A click on opponents or on nothing selects nothing.
    for click in [w(620, 120), w(900, 900)] {
        match gui(&engine.digest_left_click(click)[0]) {
            GuiStateMessage::SetSelectedSquads(first, squads) => {
                assert_eq!(*first, None);
                assert!(squads.is_empty());
            }
            _ => panic!("a selection was expected"),
        }
    }
}

#[test]
fn a_drag_selects_the_squads_of_own_soldiers_in_its_rectangle() {
    let engine = engine();
    let messages = engine.digest_cursor_vector(w(700, 200), w(100, 100));
    match gui(&messages[0]) {
        GuiStateMessage::SetSelectedSquads(first, squads) => {
            assert_eq!(*first, None);
            assert_eq!(*squads, vec![SquadUuid(0)]);
        }
        _ => panic!("a selection was expected"),
    }
}

#[test]
fn the_drag_of_a_marker_commits_its_order_where_it_ends() {
    let mut engine = engine();
    engine.gui_state.react(&GuiStateMessage::SetPendingOrder(Some(PendingOrder::SneakTo(
        SquadUuid(0),
        Some(OrderMarkerIndex(0)),
        vec![],
    ))));
    let messages = engine.digest_cursor_vector(w(100, 100), w(300, 200));
    match &messages[0] {
        EngineMessage::BattleState(BattleStateMessage::Soldier(
            SoldierIndex(0),
            SoldierMessage::SetOrder(order),
        )) => assert!(order.same_as(&Order::SneakTo(route(vec![vec![p(30000, 20000)]]), None))),
        _ => panic!("the order for the leader was expected"),
    }
}

#[test]
fn the_squad_menu_opens_on_a_selected_squad_and_starts_an_order() {
    let mut engine = engine();
    // Nothing selected: a right click opens nothing.
    let messages = engine.digest_right_click(w(130, 120));
    assert!(matches!(gui(&messages[0]), GuiStateMessage::SetSquadMenu(None)));
    engine.gui_state.react(&GuiStateMessage::SetSelectedSquads(None, vec![SquadUuid(0)]));
    let messages = engine.digest_right_click(w(130, 120));
    assert!(matches!(
        gui(&messages[0]),
        GuiStateMessage::SetSquadMenu(Some((WindowPoint { x: 130, y: 120 }, SquadUuid(0))))
    ));
    apply(&mut engine, &messages);
    // A click on the fourth item starts a defence and closes the menu.
    let messages = engine.digest_left_click(w(140, 120 + 3 * 17 + 5));
    assert_eq!(messages.len(), 2);
    assert!(matches!(
        gui(&messages[0]),
        GuiStateMessage::SetPendingOrder(Some(PendingOrder::Defend(SquadUuid(0))))
    ));
    assert!(matches!(gui(&messages[1]), GuiStateMessage::SetSquadMenu(None)));
    // A click beside the menu only closes it.
    let messages = engine.digest_left_click(w(10, 10));
    assert_eq!(messages.len(), 1);
    assert!(matches!(gui(&messages[0]), GuiStateMessage::SetSquadMenu(None)));
}

#[test]
fn menu_items_from_top_to_bottom() {
    let at = w(100, 100);
    assert_eq!(which_item_clicked(at, w(100, 100)), Some(MenuItem::MoveTo));
    assert_eq!(which_item_clicked(at, w(170, 116)), Some(MenuItem::MoveTo));
    assert_eq!(which_item_clicked(at, w(100, 117)), Some(MenuItem::MoveFastTo));
    assert_eq!(which_item_clicked(at, w(100, 134)), Some(MenuItem::SneakTo));
    assert_eq!(which_item_clicked(at, w(100, 151)), Some(MenuItem::Defend));
    assert_eq!(which_item_clicked(at, w(100, 168)), Some(MenuItem::Hide));
    assert_eq!(which_item_clicked(at, w(100, 201)), Some(MenuItem::EngageOrFire));
    assert_eq!(which_item_clicked(at, w(100, 202)), None);
    assert_eq!(which_item_clicked(at, w(171, 100)), None);
    assert_eq!(which_item_clicked(at, w(99, 100)), None);
    assert_eq!(which_item_clicked(at, w(100, 99)), None);
}

#[test]
fn a_dropped_squad_is_placed_in_formation_during_placement() {
    let mut engine = engine();
    let messages = engine.digest_drop_squad(SquadUuid(0), p(50000, 50000));
    assert_eq!(messages.len(), 2);
    assert!(matches!(
        messages[0],
        EngineMessage::BattleState(BattleStateMessage::Soldier(
            SoldierIndex(0),
            SoldierMessage::SetWorldPosition(WorldPoint { x: 50000, y: 50000 })
        ))
    ));
    assert!(matches!(
        messages[1],
        EngineMessage::BattleState(BattleStateMessage::Soldier(
            SoldierIndex(1),
            SoldierMessage::SetWorldPosition(WorldPoint { x: 52000, y: 50000 })
        ))
    ));
    assert!(engine.digest_drop_squad(SquadUuid(9), p(50000, 50000)).is_empty());
    engine.battle_state.react(&BattleStateMessage::SetPhase(Phase::Battle), 0);
    assert!(engine.digest_drop_squad(SquadUuid(0), p(50000, 50000)).is_empty());
}

#[test]
fn the_route_is_shown_once_the_cursor_has_stayed_still() {
    let mut engine = engine();
    engine.gui_state.react(&GuiStateMessage::SetCursorPoint(w(270, 120)));
    // Without an order with a route a move of the cursor sets nothing to wait.
    assert!(engine.digest_ui_event(&UIEvent::CursorMove(w(270, 120))).is_empty());
    engine.gui_state.react(&GuiStateMessage::SetPendingOrder(Some(PendingOrder::MoveTo(
        SquadUuid(0),
        None,
        vec![],
    ))));
    let messages = engine.digest_ui_event(&UIEvent::CursorMove(w(270, 120)));
    assert_eq!(messages.len(), 1);
    assert!(matches!(
        gui(&messages[0]),
        GuiStateMessage::PushWaitingCursor(15, UIEvent::DrawMovePaths)
    ));
    apply(&mut engine, &messages);
    // It waits once only.
    assert!(engine.digest_ui_event(&UIEvent::CursorMove(w(270, 120))).is_empty());
    // Too early: it goes on waiting.
    let messages = engine.digest_ui_event(&UIEvent::ImmobileCursorSince(14));
    assert_eq!(messages.len(), 1);
    match gui(&messages[0]) {
        GuiStateMessage::SetWaitingCursor(still) => assert_eq!(still.len(), 1),
        _ => panic!("what still waits was expected"),
    }
    // In time: the event is fired and waits no more.
    let messages = engine.digest_ui_event(&UIEvent::ImmobileCursorSince(15));
    assert_eq!(messages.len(), 2);
    assert!(matches!(gui(&messages[0]), GuiStateMessage::PushUIEvent(UIEvent::DrawMovePaths)));
    match gui(&messages[1]) {
        GuiStateMessage::SetWaitingCursor(still) => assert!(still.is_empty()),
        _ => panic!("what still waits was expected"),
    }
    apply(&mut engine, &messages);
    // The fired event shows the route for the squad.
    let messages = engine.digest_ui_event(&UIEvent::DrawMovePaths);
    assert_eq!(messages.len(), 1);
    match gui(&messages[0]) {
        GuiStateMessage::SetDisplayPaths(shown) => {
            assert_eq!(shown.len(), 1);
            assert_eq!(shown[0].1, SquadUuid(0));
            assert_eq!(shown[0].0.paths[0].points.first(), Some(&p(12500, 12500)));
            assert_eq!(shown[0].0.paths[0].points.last(), Some(&p(27500, 12500)));
        }
        _ => panic!("the route shown was expected"),
    }
    // Nothing is shown without an order in preparation.
    engine.gui_state.react(&GuiStateMessage::SetPendingOrder(None));
    assert!(engine.preview_paths().is_empty());
}

#[test]
fn the_observer_foresees_the_moves_of_the_simulator() {
    let mut engine = engine();
    let paths = route(vec![vec![p(12000, 20000)]]);
    engine.battle_state.react(
        &BattleStateMessage::Soldier(SoldierIndex(0), SoldierMessage::SetBehavior(Behavior::MoveTo(paths.clone()))),
        0,
    );
    let messages = engine.update_soldier(SoldierIndex(0));
    assert_eq!(messages.len(), 2);
    assert!(matches!(
        messages[0],
        BattleStateMessage::Soldier(SoldierIndex(0), SoldierMessage::SetOrientation(Angle(90000)))
    ));
    assert!(matches!(
        messages[1],
        BattleStateMessage::Soldier(
            SoldierIndex(0),
            SoldierMessage::SetWorldPosition(WorldPoint { x: 12000, y: 12050 })
        )
    ));
    assert_eq!(engine.orientation_update(SoldierIndex(0)).len(), 1);
    assert_eq!(engine.behavior_update(SoldierIndex(0)).len(), 1);
    assert_eq!(engine.movement_updates(SoldierIndex(0), &paths).len(), 1);
    assert!(engine.update_soldier(SoldierIndex(1)).is_empty());
    // The simulator decides the same.
    let runner = Runner::new(config(), engine.battle_state.clone());
    let decided = runner.soldier_update(SoldierIndex(0));
    assert_eq!(decided.len(), 2);
    for (mine, theirs) in messages.iter().zip(decided.iter()) {
        match theirs {
            RunnerMessage::BattleState(m) => assert_eq!(format!("{:?}", m), format!("{:?}", mine)),
            _ => panic!("a change to the battle was expected"),
        }
    }
}

#[test]
fn the_replica_follows_the_simulator() {
    // The observer receives the whole battle, then the changes of a tick.
    let mut runner = Runner::new(config(), battle());
    let mut engine =
        Engine::new(config(), BattleState::empty(grass_map(20, 20)), GuiState::new(Side::A), hud());
    let outputs = runner.tick(&vec![open_combat::message::InputMessage::RequireCompleteSync]);
    engine.react_outputs(&outputs);
    assert_eq!(engine.battle_state.soldiers.len(), 4);
    assert_eq!(engine.battle_state.frame_i, runner.battle_state.frame_i);
    // A change of position in the next tick reaches the replica as it is in the simulator.
    let inputs = vec![open_combat::message::InputMessage::BattleState(BattleStateMessage::Soldier(
        SoldierIndex(1),
        SoldierMessage::SetWorldPosition(p(777, 888)),
    ))];
    let outputs = runner.tick(&inputs);
    engine.react_outputs(&outputs);
    assert_eq!(engine.battle_state.soldier(SoldierIndex(1)).world_point(), p(777, 888));
    assert_eq!(
        engine.battle_state.soldier(SoldierIndex(1)).world_point(),
        runner.battle_state.soldier(SoldierIndex(1)).world_point()
    );
    // And so over many ticks of a walk.
    let order = Order::MoveTo(route(vec![vec![p(12000, 12200), p(12100, 12200)]]), Some(Box::new(Order::Hide(Angle(5)))));
    let inputs = vec![open_combat::message::InputMessage::BattleState(BattleStateMessage::Soldier(
        SoldierIndex(0),
        SoldierMessage::SetOrder(order),
    ))];
    let outputs = runner.tick(&inputs);
    engine.react_outputs(&outputs);
    for _ in 0..20 {
        let outputs = runner.tick(&vec![]);
        engine.react_outputs(&outputs);
        for i in 0..4 {
            let mine = engine.battle_state.soldier(SoldierIndex(i));
            let theirs = runner.battle_state.soldier(SoldierIndex(i));
            assert_eq!(mine.world_point(), theirs.world_point());
            assert!(mine.behavior().same_as(theirs.behavior()));
            assert!(mine.order().same_as(theirs.order()));
        }
        assert_eq!(engine.battle_state.frame_i, runner.battle_state.frame_i);
    }
    assert!(runner.battle_state.soldier(SoldierIndex(0)).order().same_as(&Order::Hide(Angle(5))));
}

#[test]
fn notices_from_the_simulator_come_back_as_messages() {
    let mut engine = engine();
    let messages = engine.react_outputs(&vec![
        OutputMessage::ClientState(ClientStateMessage::PlayBattleSound(Sound::MaleDie1)),
        OutputMessage::BattleState(BattleStateMessage::IncrementFrameI),
        OutputMessage::ClientState(ClientStateMessage::PushDebugPoint(DebugPoint {
            frame_i: 3,
            point: p(1, 2),
        })),
    ]);
    assert_eq!(messages.len(), 2);
    assert!(matches!(messages[0], EngineMessage::PlaySound(Sound::MaleDie1)));
    assert!(matches!(gui(&messages[1]), GuiStateMessage::PushDebugPoint(_)));
    assert_eq!(engine.battle_state.frame_i, 1);
}

#[test]
fn the_line_up_is_ten_rows_of_ten() {
    let soldiers = open_combat::hardcode::get_entities();
    assert_eq!(soldiers.len(), 100);
    assert_eq!(soldiers[0].world_point(), p(0, 0));
    assert_eq!(soldiers[1].world_point(), p(0, 10000));
    assert_eq!(soldiers[10].world_point(), p(10000, 0));
    assert_eq!(soldiers[99].world_point(), p(90000, 90000));
    for (i, s) in soldiers.iter().enumerate() {
        assert_eq!(s.uuid(), SoldierIndex(i));
        assert_eq!(s.squad_uuid(), SquadUuid(i));
        assert!(s.is_wf());
    }
}

#[test]
fn the_drag_of_a_marker_moves_the_marker_of_the_leaders_order() {
    let mut engine = engine();
    let follow = Order::Hide(Angle(7));
    let order = Order::MoveFastTo(
        route(vec![
            vec![p(12000, 12000), p(20000, 20000)],
            vec![p(20000, 20000), p(25000, 25000), p(30000, 30000)],
        ]),
        Some(Box::new(follow.clone())),
    );
    engine.battle_state.react(
        &BattleStateMessage::Soldier(SoldierIndex(0), SoldierMessage::SetOrder(order)),
        0,
    );
    let order_of = |messages: &Vec<EngineMessage>| match &messages[0] {
        EngineMessage::BattleState(BattleStateMessage::Soldier(
            SoldierIndex(0),
            SoldierMessage::SetOrder(o),
        )) => o.clone(),
        _ => panic!("the order for the leader was expected"),
    };
    // The first marker: the first part ends at the cursor and the second starts there.
    let pending = PendingOrder::MoveTo(SquadUuid(0), Some(OrderMarkerIndex(0)), vec![]);
    let edited = order_of(&engine.commit_pending_order(&pending, p(5000, 6000)));
    assert!(edited.same_as(&Order::MoveFastTo(
        route(vec![
            vec![p(12000, 12000), p(5000, 6000)],
            vec![p(5000, 6000), p(25000, 25000), p(30000, 30000)],
        ]),
        Some(Box::new(follow.clone())),
    )));
    // The last marker: only the last part changes.
    let pending = PendingOrder::MoveTo(SquadUuid(0), Some(OrderMarkerIndex(1)), vec![]);
    let edited = order_of(&engine.commit_pending_order(&pending, p(5000, 6000)));
    assert!(edited.same_as(&Order::MoveFastTo(
        route(vec![
            vec![p(12000, 12000), p(20000, 20000)],
            vec![p(20000, 20000), p(25000, 25000), p(5000, 6000)],
        ]),
        Some(Box::new(follow)),
    )));
    // A marker that the order does not have: a new order to the cursor.
    let pending = PendingOrder::MoveTo(SquadUuid(0), Some(OrderMarkerIndex(2)), vec![]);
    let fresh = order_of(&engine.commit_pending_order(&pending, p(5000, 6000)));
    assert!(fresh.same_as(&Order::MoveTo(route(vec![vec![p(5000, 6000)]]), None)));
}

#[test]
fn consume_messages_carries_out_those_for_the_window_and_gives_back_the_others() {
    let mut engine = engine();
    let others = engine.consume_messages(vec![
        EngineMessage::GuiState(GuiStateMessage::SetCursorPoint(w(5, 6))),
        EngineMessage::PlaySound(Sound::Bip1),
        EngineMessage::GuiState(GuiStateMessage::SetCursorPoint(w(7, 8))),
        EngineMessage::BattleState(BattleStateMessage::SetPhase(Phase::Battle)),
        EngineMessage::MakeASave,
        EngineMessage::GuiState(GuiStateMessage::SetControl(Control::MapView)),
    ]);
    assert_eq!(*engine.gui_state.get_current_cursor_window_point(), w(7, 8));
    assert!(engine.gui_state.is_controlling(&Control::MapView));
    assert_eq!(others.len(), 3);
    assert!(matches!(others[0], EngineMessage::PlaySound(Sound::Bip1)));
    assert!(matches!(others[1], EngineMessage::BattleState(BattleStateMessage::SetPhase(Phase::Battle))));
    assert!(matches!(others[2], EngineMessage::MakeASave));
    // The replica waits for the simulator to tell the change of phase.
    assert_eq!(*engine.battle_state.phase(), Phase::Placement);
    assert!(engine.consume_messages(vec![]).is_empty());
}

#[test]
fn a_frame_of_inputs_digests_the_gestures_in_order() {
    let mut engine = engine();
    let none = KeysPressed { shift: false, left: false, right: false, up: false, down: false };
    // The player prepares a move, clicks twice and right-clicks: three events in one frame.
    engine.gui_state.react(&GuiStateMessage::SetPendingOrder(Some(PendingOrder::MoveTo(
        SquadUuid(0),
        None,
        vec![],
    ))));
    for event in [
        UIEvent::FinishedCursorLeftClick(w(200, 100)),
        UIEvent::FinishedCursorLeftClick(w(300, 150)),
        UIEvent::FinishedCursorRightClick(w(400, 100)),
    ] {
        engine.gui_state.react(&GuiStateMessage::PushUIEvent(event));
    }
    let others = engine.inputs(&none);
    assert_eq!(others.len(), 1);
    match &others[0] {
        EngineMessage::BattleState(BattleStateMessage::Soldier(
            SoldierIndex(0),
            SoldierMessage::SetOrder(order),
        )) => {
            let expected = Order::MoveTo(
                route(vec![vec![p(20000, 10000), p(30000, 15000), p(40000, 10000)]]),
                None,
            );
            assert!(order.same_as(&expected));
        }
        _ => panic!("the order for the leader was expected"),
    }
    assert!(engine.gui_state.pending_order.is_none());
    assert!(engine.gui_state.ui_events.is_empty());
    assert_eq!(engine.gui_state.get_frame_i(), 1);
}

#[test]
fn a_frame_of_inputs_pans_by_keys_and_fires_what_waited() {
    let mut engine = engine();
    let keys = KeysPressed { shift: true, left: true, right: false, up: false, down: false };
    engine.gui_state.react(&GuiStateMessage::SetPendingOrder(Some(PendingOrder::MoveTo(
        SquadUuid(0),
        None,
        vec![],
    ))));
    engine.gui_state.react(&GuiStateMessage::SetCursorPoint(w(270, 120)));
    engine.gui_state.react(&GuiStateMessage::PushWaitingCursor(2, UIEvent::DrawMovePaths));
    assert!(engine.inputs(&keys).is_empty());
    assert_eq!(engine.gui_state.display_scene_offset, Offset::new(15, 0));
    // Still for 0, then 1 frame: the preview goes on waiting.
    assert_eq!(engine.gui_state.waiting_cursor.len(), 1);
    let none = KeysPressed { shift: false, left: false, right: false, up: false, down: false };
    engine.inputs(&none);
    assert_eq!(engine.gui_state.waiting_cursor.len(), 1);
    // Still for 2 frames: the event is fired, to be digested at the next frame.
    engine.inputs(&none);
    assert!(engine.gui_state.waiting_cursor.is_empty());
    assert_eq!(engine.gui_state.ui_events, vec![UIEvent::DrawMovePaths]);
    assert!(engine.gui_state.get_display_paths().is_empty());
    engine.inputs(&none);
    assert_eq!(engine.gui_state.get_display_paths().len(), 1);
    assert_eq!(engine.gui_state.get_frame_i(), 4);
}

#[test]
fn a_soldier_left_to_itself_drifts_a_step_along_both_axes() {
    let engine = engine();
    let at = engine.battle_state.soldier(SoldierIndex(0)).world_point();
    let messages = engine.animate_entity(SoldierIndex(0));
    assert_eq!(messages.len(), 1);
    match &messages[0] {
        BattleStateMessage::Soldier(i, SoldierMessage::SetWorldPosition(point)) => {
            assert_eq!(*i, SoldierIndex(0));
            assert_eq!(*point, p(at.x + 1000, at.y + 1000));
        }
        _ => panic!("another message than a new position"),
    }
}

#[test]
fn a_debug_text_holds_what_it_was_made_of() {
    let text = open_combat::engine::debug::DebugText::new(
        7,
        p(1000, 2000),
        String::from("Hello"),
        Some(SoldierIndex(3)),
    );
    assert_eq!(text.frame_i, 7);
    assert_eq!(text.scene_point, p(1000, 2000));
    assert_eq!(text.message, "Hello");
    assert_eq!(text.scene_item_id, Some(SoldierIndex(3)));
    let copy = text.clone();
    assert_eq!(copy.message, text.message);
}

#[test]
fn a_traced_route_lies_on_the_middles_of_tiles_of_the_map() {
    let mut engine = engine();
    engine.gui_state.react(&GuiStateMessage::SetCursorPoint(w(270, 120)));
    let found = engine
        .create_path_finding(SquadUuid(0), None, &vec![p(12000, 22000), p(22000, 22000)], false)
        .unwrap();
    assert_eq!(found.paths.len(), 3);
    for path in &found.paths {
        for point in &path.points {
            let tile = engine.grid_point_from_world_point(*point);
            assert!(engine.battle_state.map().tile_at(&tile).is_some());
            assert_eq!(engine.world_point_from_grid_point(tile), *point);
        }
    }
}
