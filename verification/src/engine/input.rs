//! From what the player does with keys and mouse to messages.

use vstd::prelude::*;
use crate::engine::event::UIEvent;
use crate::engine::message::{
    engine_views, extend_engine, push_engine, push_gui, Control, DebugPhysics, EngineMessage,
    EngineMessageView, GuiStateMessage, GuiStateMessageView, Zoom,
};
use crate::engine::state::{to_world_coordinate, GuiStateView};
use crate::engine::utils::soldiers_at_point_upto;
use crate::engine::Engine;
use crate::game::{Phase, Sound};
use crate::map::clamp_i32;
use crate::order::marker::OrderMarker;
use crate::order::pending::{PendingOrder, PendingOrderView};
use crate::state::battle::BattleStateView;
use crate::state::markers::OrderMarkerEntry;
use crate::state::message::{BattleStateMessage, BattleStateMessageView};
use crate::types::{Offset, OrderMarkerIndex, SoldierIndex, SquadUuid, WindowPoint, WorldPoint};
use crate::ui::hud::{hovered_from, Component, HudEvent, WindowRect};

verus! {

/// How fast the keys pan the scene.
#[derive(Clone, Copy, Debug, PartialEq, Eq, Structural)]
pub enum MoveScreenMode {
    Normal,
    Speed,
}

/// The keys that matter while they are held down.
#[derive(Clone, Copy, Debug, PartialEq, Eq, Structural)]
pub struct KeysPressed {
    pub shift: bool,
    pub left: bool,
    pub right: bool,
    pub up: bool,
    pub down: bool,
}

/// The keys that matter when they go down or come up.
#[derive(Clone, Copy, Debug, PartialEq, Eq, Structural)]
pub enum Key {
    LControl,
    RControl,
    F4,
    F5,
    F9,
    F10,
    F12,
    T,
    Other,
}

/// The buttons of the mouse.
#[derive(Clone, Copy, Debug, PartialEq, Eq, Structural)]
pub enum MouseButton {
    Left,
    Right,
    Other,
}

impl MoveScreenMode {
    pub open spec fn spec_to_pixels_offset(&self) -> i32 {
        match self {
            MoveScreenMode::Normal => 2,
            MoveScreenMode::Speed => 15,
        }
    }

    /// Pixels by which one frame of a held key pans the scene.
    #[verifier::when_used_as_spec(spec_to_pixels_offset)]
    pub fn to_pixels_offset(&self) -> (pixels: i32)
        ensures
            pixels == self.spec_to_pixels_offset(),
    {
        match self {
            MoveScreenMode::Normal => 2,
            MoveScreenMode::Speed => 15,
        }
    }
}

/// A change of the window's state, as a message of the observer.
pub open spec fn gui(message: GuiStateMessageView) -> EngineMessageView {
    EngineMessageView::GuiState(message)
}

/// One message when a condition holds, none else.
pub open spec fn only_if(condition: bool, message: EngineMessageView) -> Seq<EngineMessageView> {
    if condition {
        seq![message]
    } else {
        Seq::empty()
    }
}

/// The panning that the held keys ask for: left and up push the scene's
/// offset up, right and down pull it down, by 2 pixels, or 15 with shift.
pub open spec fn keyboard_messages(keys: KeysPressed) -> Seq<EngineMessageView> {
    let o: i32 = if keys.shift {
        15
    } else {
        2
    };
    only_if(keys.left, gui(GuiStateMessageView::ApplyOnDisplaySceneOffset(Offset { x: o, y: 0 })))
        + only_if(
        keys.right,
        gui(GuiStateMessageView::ApplyOnDisplaySceneOffset(Offset { x: (-o) as i32, y: 0 })),
    ) + only_if(keys.up, gui(GuiStateMessageView::ApplyOnDisplaySceneOffset(Offset { x: 0, y: o })))
        + only_if(
        keys.down,
        gui(GuiStateMessageView::ApplyOnDisplaySceneOffset(Offset { x: 0, y: (-o) as i32 })),
    )
}

/// For how many frames the cursor has not moved.
pub open spec fn immobile_since(state: GuiStateView) -> u64 {
    if state.frame_i >= state.last_cursor_move_frame {
        (state.frame_i - state.last_cursor_move_frame) as u64
    } else {
        0
    }
}

/// The messages of a frame: the panning by keys, then how long the cursor
/// has been still.
pub open spec fn player_inputs_messages(state: GuiStateView, keys: KeysPressed) -> Seq<
    EngineMessageView,
> {
    keyboard_messages(keys).push(
        gui(GuiStateMessageView::PushUIEvent(UIEvent::ImmobileCursorSince(immobile_since(state)))),
    )
}

/// What the player controls by the debug setting of physics: the soldiers,
/// unless a physics test is chosen.
pub open spec fn controlling(debug: DebugPhysics) -> Control {
    match debug {
        DebugPhysics::Off => Control::Soldiers,
        _ => Control::Physics,
    }
}

/// The message of a key going down: a control key turns to the map.
pub open spec fn key_pressed_messages(key: Key) -> Seq<EngineMessageView> {
    only_if(
        key == Key::LControl || key == Key::RControl,
        gui(GuiStateMessageView::SetControl(Control::MapView)),
    )
}

/// The message of a key coming up: F4 saves, F5 loads the last save, F9
/// changes side, F10 goes to the next terrain overlay, F12 shows or hides the
/// debug window, T shows or hides the decor, a control key gives the control
/// back.
pub open spec fn key_released_messages(state: GuiStateView, key: Key) -> Seq<EngineMessageView> {
    match key {
        Key::F4 => seq![EngineMessageView::MakeASave],
        Key::F5 => seq![EngineMessageView::TryLoadLastSave],
        Key::F9 => seq![gui(GuiStateMessageView::ChangeSide)],
        Key::F10 => seq![gui(GuiStateMessageView::SetDebugTerrain(state.debug_terrain.spec_next()))],
        Key::F12 => seq![gui(GuiStateMessageView::SetDisplayDebugGui(!state.display_debug_gui))],
        Key::T => seq![gui(GuiStateMessageView::SetDrawDecor(!state.draw_decor))],
        Key::LControl | Key::RControl => seq![
            gui(GuiStateMessageView::SetControl(controlling(state.debug_physics))),
        ],
        Key::Other => Seq::empty(),
    }
}

/// The first soldier whose square of selection holds the point.
pub open spec fn first_soldier_at(battle: BattleStateView, point: WorldPoint) -> Option<SoldierIndex> {
    let found = soldiers_at_point_upto(battle, point, battle.soldiers.len() as int);
    if found.len() > 0 {
        Some(found[0])
    } else {
        None
    }
}

/// The message that starts the drag of a squad: during placement, while no
/// squad is dragged, when the soldier under the cursor is the one on which
/// the click began.
pub open spec fn begin_drag_messages(battle: BattleStateView, state: GuiStateView) -> Seq<
    EngineMessageView,
> {
    if battle.phase == Phase::Placement && state.dragged_squad is None {
        match (state.begin_click_on_soldier, first_soldier_at(battle, state.current_cursor_world_point())) {
            (Some(started), Some(under)) => only_if(
                started == under && under.0 < battle.soldiers.len(),
                gui(
                    GuiStateMessageView::SetDragSquad(
                        Some(battle.soldiers[under.0 as int].squad_uuid),
                    ),
                ),
            ),
            _ => Seq::empty(),
        }
    } else {
        Seq::empty()
    }
}

/// The messages of the cursor moving to a pixel: the new place, the move as
/// an event, the end of the routes shown when the cursor changes tile, and,
/// while the left button is held away from where it went down, the vector
/// of the drag, the panning of the map in map control, and the start of a
/// squad's drag; last, whether the cursor is on the HUD.
pub open spec fn mouse_motion_messages(
    battle: BattleStateView,
    state: GuiStateView,
    hud: WindowRect,
    x: i32,
    y: i32,
) -> Seq<EngineMessageView> {
    let cursor = WindowPoint { x, y };
    let last = state.current_cursor_window_point;
    seq![
        gui(GuiStateMessageView::SetCursorPoint(cursor)),
        gui(GuiStateMessageView::PushUIEvent(UIEvent::CursorMove(cursor))),
    ] + only_if(
        battle.map.grid_of(state.world_point_from_window_point(cursor)) != battle.map.grid_of(
            state.world_point_from_window_point(last),
        ),
        gui(GuiStateMessageView::SetDisplayPaths(Seq::empty())),
    ) + (match state.left_click_down {
        Some(down) => if down != cursor {
            seq![gui(GuiStateMessageView::SetCurrentCursorVector(Some((down, cursor))))] + only_if(
                state.control == Control::MapView,
                gui(
                    GuiStateMessageView::ApplyOnDisplaySceneOffset(
                        Offset { x: clamp_i32(x - last.x), y: clamp_i32(y - last.y) },
                    ),
                ),
            ) + begin_drag_messages(battle, state)
        } else {
            Seq::empty()
        },
        None => Seq::empty(),
    }).push(gui(GuiStateMessageView::SetCursorInHud(hud.spec_contains(last))))
}

/// Whether a world point is on a marker: within the marker's reach of its
/// point on both axes.
pub open spec fn on_marker(entry: OrderMarkerEntry, point: WorldPoint) -> bool {
    &&& entry.point.x - entry.marker.spec_reach() <= point.x <= entry.point.x
        + entry.marker.spec_reach()
    &&& entry.point.y - entry.marker.spec_reach() <= point.y <= entry.point.y
        + entry.marker.spec_reach()
}

/// The order that editing a marker prepares.
pub open spec fn pending_from_marker(entry: OrderMarkerEntry) -> PendingOrderView {
    match entry.marker {
        OrderMarker::MoveTo => PendingOrderView::MoveTo(
            entry.squad,
            Some(entry.index),
            Seq::empty(),
        ),
        OrderMarker::MoveFastTo => PendingOrderView::MoveFastTo(
            entry.squad,
            Some(entry.index),
            Seq::empty(),
        ),
        OrderMarker::SneakTo => PendingOrderView::SneakTo(
            entry.squad,
            Some(entry.index),
            Seq::empty(),
        ),
        OrderMarker::Defend => PendingOrderView::Defend(entry.squad),
        OrderMarker::Hide => PendingOrderView::Hide(entry.squad),
        OrderMarker::EngageSquad | OrderMarker::SuppressFire => PendingOrderView::EngageOrFire(
            entry.squad,
        ),
    }
}

/// The messages that open a pending order for each of the first `k` markers
/// under the point.
pub open spec fn marker_messages_upto(markers: Seq<OrderMarkerEntry>, point: WorldPoint, k: int) -> Seq<
    EngineMessageView,
>
    decreases k,
{
    if k <= 0 {
        Seq::empty()
    } else {
        marker_messages_upto(markers, point, k - 1) + only_if(
            on_marker(markers[k - 1], point),
            gui(GuiStateMessageView::SetPendingOrder(Some(pending_from_marker(markers[k - 1])))),
        )
    }
}

/// The messages of a button going down at a pixel. The left button records
/// where it went down; while the player controls the soldiers, off the HUD,
/// it opens a pending order on each marker of the side under the cursor and,
/// during placement, remembers the soldier on which the click began.
pub open spec fn mouse_down_messages(
    battle: BattleStateView,
    state: GuiStateView,
    button: MouseButton,
    x: i32,
    y: i32,
) -> Seq<EngineMessageView> {
    let cursor = WindowPoint { x, y };
    let markers = battle.order_markers(state.side);
    if button == MouseButton::Left {
        seq![gui(GuiStateMessageView::SetLeftClickDown(Some(cursor)))] + if state.control
            == Control::Soldiers && !state.cursor_in_hud {
            marker_messages_upto(
                markers,
                state.world_point_from_window_point(cursor),
                markers.len() as int,
            ) + if battle.phase == Phase::Placement {
                match first_soldier_at(battle, state.current_cursor_world_point()) {
                    Some(soldier) => seq![
                        gui(GuiStateMessageView::SetBeginClickOnSoldier(Some(soldier))),
                    ],
                    None => Seq::empty(),
                }
            } else {
                Seq::empty()
            }
        } else {
            Seq::empty()
        }
    } else {
        Seq::empty()
    }
}

/// The messages that a button of the HUD asks for.
pub open spec fn hud_event_messages(event: HudEvent) -> Seq<EngineMessageView> {
    match event {
        HudEvent::RequestBeginBattle => seq![
            EngineMessageView::BattleState(BattleStateMessageView::SetPhase(Phase::Battle)),
        ],
        HudEvent::RequestEndBattle => seq![
            EngineMessageView::BattleState(BattleStateMessageView::SetPhase(Phase::End)),
        ],
    }
}

/// The messages of a click that began and ended on a button of the HUD.
pub open spec fn component_messages(component: Option<Component>) -> Seq<EngineMessageView> {
    match component {
        Some(c) => (match c.event {
            Some(event) => hud_event_messages(event),
            None => Seq::empty(),
        }) + (match c.sound {
            Some(sound) => seq![EngineMessageView::PlaySound(sound)],
            None => Seq::empty(),
        }),
        None => Seq::empty(),
    }
}

/// The messages of a button coming up at a pixel. The left button ends the
/// click or the drag: a release where the button went down is a click, one
/// elsewhere the end of a vector; a dragged squad is dropped where the
/// button came up, or refused with a sound on the HUD; a button of the HUD
/// under both ends gives its event and its sound. The right button is a
/// right click.
pub open spec fn mouse_up_messages(
    state: GuiStateView,
    components: Seq<Component>,
    button: MouseButton,
    x: i32,
    y: i32,
) -> Seq<EngineMessageView> {
    let end_point = WindowPoint { x, y };
    let start_point = match state.left_click_down {
        Some(down) => down,
        None => end_point,
    };
    match button {
        MouseButton::Left => seq![
            gui(GuiStateMessageView::SetLeftClickDown(None)),
            gui(GuiStateMessageView::SetCurrentCursorVector(None)),
            gui(
                GuiStateMessageView::PushUIEvent(
                    if start_point != end_point {
                        UIEvent::FinishedCursorVector(start_point, end_point)
                    } else {
                        UIEvent::FinishedCursorLeftClick(end_point)
                    },
                ),
            ),
        ] + (match state.dragged_squad {
            Some(squad) => if state.cursor_in_hud {
                seq![EngineMessageView::PlaySound(Sound::Bip1)]
            } else {
                seq![
                    gui(
                        GuiStateMessageView::PushUIEvent(
                            UIEvent::DropSquadTo(
                                squad,
                                state.world_point_from_window_point(end_point),
                            ),
                        ),
                    ),
                ]
            },
            None => Seq::empty(),
        }) + component_messages(hovered_from(components, seq![start_point, end_point], 0)) + seq![
            gui(GuiStateMessageView::SetDragSquad(None)),
            gui(GuiStateMessageView::SetBeginClickOnSoldier(None)),
        ],
        MouseButton::Right => seq![
            gui(GuiStateMessageView::PushUIEvent(UIEvent::FinishedCursorRightClick(end_point))),
        ],
        MouseButton::Other => Seq::empty(),
    }
}

/// Whole pixels that a length of world takes under a zoom, toward zero.
pub open spec fn to_pixels(world: i32, zoom: Zoom) -> int {
    if world >= 0 {
        (world as int) / (zoom.spec_millimeters_per_pixel() as int)
    } else {
        -((-(world as int)) / (zoom.spec_millimeters_per_pixel() as int))
    }
}

/// The messages of the wheel turning by `y`, in a window of the given size:
/// off the HUD and the debug window, the zoom goes one step in for a turn
/// up and one step out else, and the scene is offset so that the world point
/// at the middle of the window stays there.
pub open spec fn mouse_wheel_messages(state: GuiStateView, width: u32, height: u32, y: i32) -> Seq<
    EngineMessageView,
> {
    if !state.debug_gui_hovered && !state.cursor_in_hud {
        let zoom = if y > 0 {
            state.zoom.spec_next()
        } else {
            state.zoom.spec_previous()
        };
        let half = WindowPoint { x: (width / 2) as i32, y: (height / 2) as i32 };
        let world = state.world_point_from_window_point(half);
        seq![
            gui(GuiStateMessageView::SetZoom(zoom)),
            gui(
                GuiStateMessageView::SetDisplaySceneOffset(
                    Offset {
                        x: clamp_i32(half.x - to_pixels(world.x, zoom)),
                        y: clamp_i32(half.y - to_pixels(world.y, zoom)),
                    },
                ),
            ),
        ]
    } else {
        Seq::empty()
    }
}

fn clamp_of(v: i64) -> (c: i32)
    ensures
        c == clamp_i32(v as int),
{
    if v < i32::MIN as i64 {
        i32::MIN
    } else if v > i32::MAX as i64 {
        i32::MAX
    } else {
        v as i32
    }
}

fn to_pixels_of(world: i32, zoom: Zoom) -> (pixels: i64)
    ensures
        pixels == to_pixels(world, zoom),
        -0x8000_0000 <= pixels <= 0x8000_0000,
{
    let mm: i64 = zoom.millimeters_per_pixel() as i64;
    if world >= 0 {
        (world as i64) / mm
    } else {
        -((-(world as i64)) / mm)
    }
}

/// The order that editing a marker prepares.
pub fn create_pending_order_from_order_marker(entry: &OrderMarkerEntry) -> (order: PendingOrder)
    ensures
        order@ == pending_from_marker(*entry),
{
    match entry.marker {
        OrderMarker::MoveTo => PendingOrder::MoveTo(entry.squad, Some(entry.index), Vec::new()),
        OrderMarker::MoveFastTo => PendingOrder::MoveFastTo(
            entry.squad,
            Some(entry.index),
            Vec::new(),
        ),
        OrderMarker::SneakTo => PendingOrder::SneakTo(entry.squad, Some(entry.index), Vec::new()),
        OrderMarker::Defend => PendingOrder::Defend(entry.squad),
        OrderMarker::Hide => PendingOrder::Hide(entry.squad),
        OrderMarker::EngageSquad | OrderMarker::SuppressFire => PendingOrder::EngageOrFire(
            entry.squad,
        ),
    }
}

/// Whether a world point is on a marker.
pub fn on_marker_of(entry: &OrderMarkerEntry, point: WorldPoint) -> (on: bool)
    ensures
        on == on_marker(*entry, point),
{
    let reach: i64 = entry.marker.reach() as i64;
    entry.point.x as i64 - reach <= point.x as i64 && point.x as i64 <= entry.point.x as i64 + reach
        && entry.point.y as i64 - reach <= point.y as i64 && point.y as i64 <= entry.point.y as i64
        + reach
}

impl Engine {
    /// The messages of a frame: the panning by keys, then how long the
    /// cursor has been still.
    pub fn collect_player_inputs(&self, keys: &KeysPressed) -> (messages: Vec<EngineMessage>)
        ensures
            engine_views(messages@) == player_inputs_messages(self.gui_state@, *keys),
    {
        let mut messages: Vec<EngineMessage> = Vec::new();
        assert(engine_views(messages@) =~= Seq::empty());
        extend_engine(&mut messages, self.collect_keyboard_inputs(keys));

        // Some actions wait for the cursor to stay still.
        let frame_i: u64 = self.gui_state.get_frame_i();
        let last: u64 = self.gui_state.get_last_cursor_move_frame();
        let cursor_immobile_since: u64 = if frame_i >= last {
            frame_i - last
        } else {
            0
        };
        push_gui(
            &mut messages,
            GuiStateMessage::PushUIEvent(UIEvent::ImmobileCursorSince(cursor_immobile_since)),
        );
        messages
    }

    /// The panning that the held keys ask for.
    pub fn collect_keyboard_inputs(&self, keys: &KeysPressed) -> (messages: Vec<EngineMessage>)
        ensures
            engine_views(messages@) == keyboard_messages(*keys),
    {
        let mut messages: Vec<EngineMessage> = Vec::new();
        assert(engine_views(messages@) =~= Seq::empty());
        let move_mode = if keys.shift {
            MoveScreenMode::Speed
        } else {
            MoveScreenMode::Normal
        };
        let o: i32 = move_mode.to_pixels_offset();

        if keys.left {
            push_gui(&mut messages, GuiStateMessage::ApplyOnDisplaySceneOffset(Offset::new(o, 0)));
        }
        if keys.right {
            push_gui(&mut messages, GuiStateMessage::ApplyOnDisplaySceneOffset(Offset::new(-o, 0)));
        }
        if keys.up {
            push_gui(&mut messages, GuiStateMessage::ApplyOnDisplaySceneOffset(Offset::new(0, o)));
        }
        if keys.down {
            push_gui(&mut messages, GuiStateMessage::ApplyOnDisplaySceneOffset(Offset::new(0, -o)));
        }
        assert(engine_views(messages@) =~= keyboard_messages(*keys));
        messages
    }

    /// The message of a key going down.
    pub fn collect_key_pressed(&self, key: Key) -> (messages: Vec<EngineMessage>)
        ensures
            engine_views(messages@) == key_pressed_messages(key),
    {
        let mut messages: Vec<EngineMessage> = Vec::new();
        assert(engine_views(messages@) =~= Seq::empty());
        match key {
            Key::LControl | Key::RControl => {
                push_gui(&mut messages, GuiStateMessage::SetControl(Control::MapView));
            },
            _ => {},
        }
        assert(engine_views(messages@) =~= key_pressed_messages(key));
        messages
    }

    /// The message of a key coming up.
    pub fn collect_key_released(&self, key: Key) -> (messages: Vec<EngineMessage>)
        ensures
            engine_views(messages@) == key_released_messages(self.gui_state@, key),
    {
        let mut messages: Vec<EngineMessage> = Vec::new();
        assert(engine_views(messages@) =~= Seq::empty());
        match key {
            Key::F4 => {
                push_engine(&mut messages, EngineMessage::MakeASave);
            },
            Key::F5 => {
                push_engine(&mut messages, EngineMessage::TryLoadLastSave);
            },
            Key::F9 => {
                push_gui(&mut messages, GuiStateMessage::ChangeSide);
            },
            Key::F10 => {
                push_gui(
                    &mut messages,
                    GuiStateMessage::SetDebugTerrain(self.gui_state.debug_terrain.next()),
                );
            },
            Key::F12 => {
                push_gui(
                    &mut messages,
                    GuiStateMessage::SetDisplayDebugGui(!self.gui_state.display_debug_gui()),
                );
            },
            Key::T => {
                push_gui(&mut messages, GuiStateMessage::SetDrawDecor(!self.gui_state.draw_decor));
            },
            Key::LControl | Key::RControl => {
                push_gui(&mut messages, GuiStateMessage::SetControl(self.determine_controlling()));
            },
            Key::Other => {},
        }
        assert(engine_views(messages@) =~= key_released_messages(self.gui_state@, key));
        messages
    }

    /// What the player controls, by the debug setting of physics.
    pub fn determine_controlling(&self) -> (control: Control)
        ensures
            control == controlling(self.gui_state@.debug_physics),
    {
        match self.gui_state.get_debug_physics() {
            DebugPhysics::Off => Control::Soldiers,
            DebugPhysics::MosinNagantM1924GunFire | DebugPhysics::BrandtMle2731Shelling => {
                Control::Physics
            },
        }
    }

    /// The first soldier whose square of selection holds the point.
    pub fn first_soldier_at(&self, point: WorldPoint) -> (soldier: Option<SoldierIndex>)
        ensures
            soldier == first_soldier_at(self.battle_state@, point),
    {
        let found = self.get_entities_at_point(point);
        if found.len() > 0 {
            Some(found[0])
        } else {
            None
        }
    }

    /// The message that starts the drag of a squad.
    fn collect_begin_drag(&self) -> (messages: Vec<EngineMessage>)
        ensures
            engine_views(messages@) == begin_drag_messages(self.battle_state@, self.gui_state@),
    {
        let mut messages: Vec<EngineMessage> = Vec::new();
        assert(engine_views(messages@) =~= Seq::empty());
        if self.battle_state.phase().placement() && self.gui_state.dragged_squad().is_none() {
            let world_point = self.gui_state.get_current_cursor_world_point();
            match (*self.gui_state.begin_click_on_soldier(), self.first_soldier_at(world_point)) {
                (Some(started_with_soldier_index), Some(soldier_index)) => {
                    if started_with_soldier_index == soldier_index && soldier_index.0
                        < self.battle_state.soldiers.len() {
                        let squad_index = self.battle_state.soldier(soldier_index).squad_uuid();
                        push_gui(&mut messages, GuiStateMessage::SetDragSquad(Some(squad_index)));
                    }
                },
                _ => {},
            }
        }
        assert(engine_views(messages@) =~= begin_drag_messages(
            self.battle_state@,
            self.gui_state@,
        ));
        messages
    }

    /// The messages of the cursor moving to a pixel.
    pub fn collect_mouse_motion(&self, x: i32, y: i32) -> (messages: Vec<EngineMessage>)
        ensures
            engine_views(messages@) == mouse_motion_messages(
                self.battle_state@,
                self.gui_state@,
                self.hud.background,
                x,
                y,
            ),
    {
        let mut messages: Vec<EngineMessage> = Vec::new();
        assert(engine_views(messages@) =~= Seq::empty());
        let cursor_point = WindowPoint::new(x, y);
        let last_cursor_point = *self.gui_state.get_current_cursor_window_point();

        // The cursor has a new place.
        push_gui(&mut messages, GuiStateMessage::SetCursorPoint(cursor_point));
        push_gui(&mut messages, GuiStateMessage::PushUIEvent(UIEvent::CursorMove(cursor_point)));

        // The routes shown hold for the tile that the cursor was on.
        let new_grid = self.grid_point_from_world_point(
            self.gui_state.world_point_from_window_point(cursor_point),
        );
        let old_grid = self.grid_point_from_world_point(
            self.gui_state.world_point_from_window_point(last_cursor_point),
        );
        if new_grid != old_grid {
            let shown: Vec<(crate::order::path::WorldPaths, SquadUuid)> = Vec::new();
            assert(crate::engine::message::display_paths_view(shown@) =~= Seq::empty());
            push_gui(&mut messages, GuiStateMessage::SetDisplayPaths(shown));
        }

        if let Some(left_click_down) = *self.gui_state.get_left_click_down_window_point() {
            if left_click_down != cursor_point {
                push_gui(
                    &mut messages,
                    GuiStateMessage::SetCurrentCursorVector(Some((left_click_down, cursor_point))),
                );
                if self.gui_state.is_controlling(&Control::MapView) {
                    push_gui(
                        &mut messages,
                        GuiStateMessage::ApplyOnDisplaySceneOffset(
                            Offset::new(
                                clamp_of(x as i64 - last_cursor_point.x as i64),
                                clamp_of(y as i64 - last_cursor_point.y as i64),
                            ),
                        ),
                    );
                }
                // A squad is dragged once the cursor leaves the click with the
                // soldier still under it.
                extend_engine(&mut messages, self.collect_begin_drag());
            }
        }
        let cursor_in_control = self.hud.background.contains(last_cursor_point);
        push_gui(&mut messages, GuiStateMessage::SetCursorInHud(cursor_in_control));
        assert(engine_views(messages@) =~= mouse_motion_messages(
            self.battle_state@,
            self.gui_state@,
            self.hud.background,
            x,
            y,
        ));
        messages
    }

    /// The messages that open a pending order on the markers under a point.
    fn collect_markers_under(&self, point: WorldPoint) -> (messages: Vec<EngineMessage>)
        ensures
            engine_views(messages@) == marker_messages_upto(
                self.battle_state@.order_markers(self.gui_state@.side),
                point,
                self.battle_state@.order_markers(self.gui_state@.side).len() as int,
            ),
    {
        let markers = self.battle_state.order_markers(self.gui_state.side());
        let mut messages: Vec<EngineMessage> = Vec::new();
        assert(engine_views(messages@) =~= Seq::empty());
        let mut k: usize = 0;
        while k < markers.len()
            invariant
                k <= markers.len(),
                markers@ == self.battle_state@.order_markers(self.gui_state@.side),
                engine_views(messages@) == marker_messages_upto(markers@, point, k as int),
            decreases markers.len() - k,
        {
            let ghost before = engine_views(messages@);
            if on_marker_of(&markers[k], point) {
                let pending_order = create_pending_order_from_order_marker(&markers[k]);
                push_gui(&mut messages, GuiStateMessage::SetPendingOrder(Some(pending_order)));
            }
            assert(engine_views(messages@) =~= before + only_if(
                on_marker(markers@[k as int], point),
                gui(
                    GuiStateMessageView::SetPendingOrder(
                        Some(pending_from_marker(markers@[k as int])),
                    ),
                ),
            ));
            k += 1;
        }
        messages
    }

    /// The messages of a button going down at a pixel.
    pub fn collect_mouse_down(&self, button: MouseButton, x: i32, y: i32) -> (messages: Vec<
        EngineMessage,
    >)
        ensures
            engine_views(messages@) == mouse_down_messages(
                self.battle_state@,
                self.gui_state@,
                button,
                x,
                y,
            ),
    {
        let mut messages: Vec<EngineMessage> = Vec::new();
        assert(engine_views(messages@) =~= Seq::empty());
        let cursor = WindowPoint::new(x, y);

        match button {
            MouseButton::Left => {
                // The button went down here.
                push_gui(&mut messages, GuiStateMessage::SetLeftClickDown(Some(cursor)));

                // Is there an order marker under the cursor?
                if self.gui_state.is_controlling(&Control::Soldiers)
                    && !self.gui_state.cursor_in_hud() {
                    let world_cursor = self.gui_state.world_point_from_window_point(cursor);
                    extend_engine(&mut messages, self.collect_markers_under(world_cursor));

                    if self.battle_state.phase().placement() && !self.gui_state.cursor_in_hud() {
                        let world_point = self.gui_state.get_current_cursor_world_point();
                        if let Some(soldier_index) = self.first_soldier_at(world_point) {
                            push_gui(
                                &mut messages,
                                GuiStateMessage::SetBeginClickOnSoldier(Some(soldier_index)),
                            );
                        }
                    }
                }
            },
            _ => {},
        }
        assert(engine_views(messages@) =~= mouse_down_messages(
            self.battle_state@,
            self.gui_state@,
            button,
            x,
            y,
        ));
        messages
    }

    /// The messages that a button of the HUD asks for.
    pub fn hud_event(&self, event: HudEvent) -> (messages: Vec<EngineMessage>)
        ensures
            engine_views(messages@) == hud_event_messages(event),
    {
        let mut messages: Vec<EngineMessage> = Vec::new();
        assert(engine_views(messages@) =~= Seq::empty());
        match event {
            HudEvent::RequestBeginBattle => {
                push_engine(
                    &mut messages,
                    EngineMessage::BattleState(BattleStateMessage::SetPhase(Phase::Battle)),
                );
            },
            HudEvent::RequestEndBattle => {
                push_engine(
                    &mut messages,
                    EngineMessage::BattleState(BattleStateMessage::SetPhase(Phase::End)),
                );
            },
        }
        assert(engine_views(messages@) =~= hud_event_messages(event));
        messages
    }

    /// The messages of a click that began and ended on a button of the HUD.
    fn collect_component(&self, component: Option<Component>) -> (messages: Vec<EngineMessage>)
        ensures
            engine_views(messages@) == component_messages(component),
    {
        let mut messages: Vec<EngineMessage> = Vec::new();
        assert(engine_views(messages@) =~= Seq::empty());
        if let Some(component) = component {
            if let Some(event) = component.event() {
                extend_engine(&mut messages, self.hud_event(event));
            }
            if let Some(sound) = component.sound() {
                push_engine(&mut messages, EngineMessage::PlaySound(sound));
            }
        }
        assert(engine_views(messages@) =~= component_messages(component));
        messages
    }

    /// The messages of a button coming up at a pixel.
    pub fn collect_mouse_up(&self, button: MouseButton, x: i32, y: i32) -> (messages: Vec<EngineMessage>)
        ensures
            engine_views(messages@) == mouse_up_messages(
                self.gui_state@,
                self.hud.components@,
                button,
                x,
                y,
            ),
    {
        let mut messages: Vec<EngineMessage> = Vec::new();
        assert(engine_views(messages@) =~= Seq::empty());

        match button {
            MouseButton::Left => {
                let end_point = WindowPoint::new(x, y);
                let start_point = match *self.gui_state.get_left_click_down_window_point() {
                    Some(down) => down,
                    None => end_point,
                };

                // The click and the drag are over.
                push_gui(&mut messages, GuiStateMessage::SetLeftClickDown(None));
                push_gui(&mut messages, GuiStateMessage::SetCurrentCursorVector(None));

                // A click or a drag?
                if start_point != end_point {
                    push_gui(
                        &mut messages,
                        GuiStateMessage::PushUIEvent(
                            UIEvent::FinishedCursorVector(start_point, end_point),
                        ),
                    );
                } else {
                    push_gui(
                        &mut messages,
                        GuiStateMessage::PushUIEvent(UIEvent::FinishedCursorLeftClick(end_point)),
                    );
                }

                if let Some(squad_index) = *self.gui_state.dragged_squad() {
                    if self.gui_state.cursor_in_hud() {
                        push_engine(&mut messages, EngineMessage::PlaySound(Sound::Bip1));
                    } else {
                        let world_end_point = self.gui_state.world_point_from_window_point(
                            end_point,
                        );
                        push_gui(
                            &mut messages,
                            GuiStateMessage::PushUIEvent(
                                UIEvent::DropSquadTo(squad_index, world_end_point),
                            ),
                        );
                    }
                }

                let mut ends: Vec<WindowPoint> = Vec::new();
                ends.push(start_point);
                ends.push(end_point);
                assert(ends@ =~= seq![start_point, end_point]);
                extend_engine(&mut messages, self.collect_component(self.hud.hovered_by(&ends)));

                push_gui(&mut messages, GuiStateMessage::SetDragSquad(None));
                push_gui(&mut messages, GuiStateMessage::SetBeginClickOnSoldier(None));
            },
            MouseButton::Right => {
                push_gui(
                    &mut messages,
                    GuiStateMessage::PushUIEvent(
                        UIEvent::FinishedCursorRightClick(WindowPoint::new(x, y)),
                    ),
                );
            },
            _ => {},
        }
        assert(engine_views(messages@) =~= mouse_up_messages(
            self.gui_state@,
            self.hud.components@,
            button,
            x,
            y,
        ));
        messages
    }

    /// The messages of the wheel turning by `y` in a window of the given
    /// size.
    pub fn collect_mouse_wheel(&self, width: u32, height: u32, y: i32) -> (messages: Vec<EngineMessage>)
        ensures
            engine_views(messages@) == mouse_wheel_messages(self.gui_state@, width, height, y),
    {
        let mut messages: Vec<EngineMessage> = Vec::new();
        assert(engine_views(messages@) =~= Seq::empty());

        if !self.gui_state.debug_gui_hovered && !self.gui_state.cursor_in_hud() {
            let zoom = if y > 0 {
                self.gui_state.zoom.next()
            } else {
                self.gui_state.zoom.previous()
            };
            let half = WindowPoint::new((width / 2) as i32, (height / 2) as i32);
            let world_point = self.gui_state.world_point_from_window_point(half);
            let new_offset_x: i32 = clamp_of(half.x as i64 - to_pixels_of(world_point.x, zoom));
            let new_offset_y: i32 = clamp_of(half.y as i64 - to_pixels_of(world_point.y, zoom));

            push_gui(&mut messages, GuiStateMessage::SetZoom(zoom));
            push_gui(
                &mut messages,
                GuiStateMessage::SetDisplaySceneOffset(Offset::new(new_offset_x, new_offset_y)),
            );
        }
        assert(engine_views(messages@) =~= mouse_wheel_messages(self.gui_state@, width, height, y));
        messages
    }
}

} // verus!
