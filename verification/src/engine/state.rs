//! State of the observer's window.

use vstd::prelude::*;
use crate::engine::event::UIEvent;
use crate::engine::message::{
    display_paths_view, names_view, Control, DebugPhysics, DebugTerrain, GuiStateMessage,
    GuiStateMessageView, Zoom,
};
use crate::game::Side;
use crate::map::clamp_i32;
use crate::order::path::WorldPaths;
use crate::order::pending::{clone_points, PendingOrder, PendingOrderView};
use crate::runner::message::DebugPoint;
use crate::types::{Offset, SoldierIndex, SquadUuid, WindowPoint, WorldPoint};

verus! {

/// Everything that is local to an observer: its cursor, what it has selected,
/// the order it prepares, how it looks at the scene.
#[derive(Debug)]
pub struct GuiState {
    pub frame_i: u64,
    pub side: Side,
    pub current_cursor_window_point: WindowPoint,
    pub last_cursor_move_frame: u64,
    pub left_click_down: Option<WindowPoint>,
    pub current_cursor_vector: Option<(WindowPoint, WindowPoint)>,
    pub display_scene_offset: Offset,
    pub zoom: Zoom,
    pub selected_soldier: Option<SoldierIndex>,
    pub selected_squads: Vec<SquadUuid>,
    pub squad_menu: Option<(WindowPoint, SquadUuid)>,
    pub pending_order: Option<PendingOrder>,
    pub display_paths: Vec<(WorldPaths, SquadUuid)>,
    pub debug_points: Vec<DebugPoint>,
    pub debug_terrain: DebugTerrain,
    pub debug_physics: DebugPhysics,
    pub control: Control,
    pub debug_gui_hovered: bool,
    pub display_debug_gui: bool,
    pub begin_click_on_soldier: Option<SoldierIndex>,
    pub dragged_squad: Option<SquadUuid>,
    pub cursor_in_hud: bool,
    pub intro_ack: bool,
    pub saves: Vec<String>,
    pub ui_events: Vec<UIEvent>,
    pub draw_decor: bool,
    pub waiting_cursor: Vec<(u64, UIEvent)>,
}

/// Mathematical value of a [`GuiState`].
pub struct GuiStateView {
    pub frame_i: u64,
    pub side: Side,
    pub current_cursor_window_point: WindowPoint,
    pub last_cursor_move_frame: u64,
    pub left_click_down: Option<WindowPoint>,
    pub current_cursor_vector: Option<(WindowPoint, WindowPoint)>,
    pub display_scene_offset: Offset,
    pub zoom: Zoom,
    pub selected_soldier: Option<SoldierIndex>,
    pub selected_squads: Seq<SquadUuid>,
    pub squad_menu: Option<(WindowPoint, SquadUuid)>,
    pub pending_order: Option<PendingOrderView>,
    pub display_paths: Seq<(Seq<Seq<WorldPoint>>, SquadUuid)>,
    pub debug_points: Seq<DebugPoint>,
    pub debug_terrain: DebugTerrain,
    pub debug_physics: DebugPhysics,
    pub control: Control,
    pub debug_gui_hovered: bool,
    pub display_debug_gui: bool,
    pub begin_click_on_soldier: Option<SoldierIndex>,
    pub dragged_squad: Option<SquadUuid>,
    pub cursor_in_hud: bool,
    pub intro_ack: bool,
    pub saves: Seq<Seq<char>>,
    pub ui_events: Seq<UIEvent>,
    pub draw_decor: bool,
    pub waiting_cursor: Seq<(u64, UIEvent)>,
}

impl View for GuiState {
    type V = GuiStateView;

    open spec fn view(&self) -> GuiStateView {
        GuiStateView {
            frame_i: self.frame_i,
            side: self.side,
            current_cursor_window_point: self.current_cursor_window_point,
            last_cursor_move_frame: self.last_cursor_move_frame,
            left_click_down: self.left_click_down,
            current_cursor_vector: self.current_cursor_vector,
            display_scene_offset: self.display_scene_offset,
            zoom: self.zoom,
            selected_soldier: self.selected_soldier,
            selected_squads: self.selected_squads@,
            squad_menu: self.squad_menu,
            pending_order: match self.pending_order {
                Some(order) => Some(order@),
                None => None,
            },
            display_paths: display_paths_view(self.display_paths@),
            debug_points: self.debug_points@,
            debug_terrain: self.debug_terrain,
            debug_physics: self.debug_physics,
            control: self.control,
            debug_gui_hovered: self.debug_gui_hovered,
            display_debug_gui: self.display_debug_gui,
            begin_click_on_soldier: self.begin_click_on_soldier,
            dragged_squad: self.dragged_squad,
            cursor_in_hud: self.cursor_in_hud,
            intro_ack: self.intro_ack,
            saves: names_view(self.saves@),
            ui_events: self.ui_events@,
            draw_decor: self.draw_decor,
            waiting_cursor: self.waiting_cursor@,
        }
    }
}

/// A pixel count turned into millimetres of world, toward zero.
pub open spec fn to_world_coordinate(window: i32, offset: i32, zoom: Zoom) -> i32 {
    clamp_i32((window - offset) * zoom.spec_millimeters_per_pixel())
}

/// Millimetres of world turned into a pixel count, toward zero.
pub open spec fn to_window_coordinate(world: i32, offset: i32, zoom: Zoom) -> i32 {
    let pixels = if world >= 0 {
        (world as int) / (zoom.spec_millimeters_per_pixel() as int)
    } else {
        -((-(world as int)) / (zoom.spec_millimeters_per_pixel() as int))
    };
    clamp_i32(pixels + offset)
}

/// The sum of two pixel counts, within what a coordinate can hold.
pub open spec fn add_clamped(a: i32, b: i32) -> i32 {
    clamp_i32(a + b)
}

impl GuiStateView {
    /// The world point that a pixel of the window shows.
    pub open spec fn world_point_from_window_point(self, p: WindowPoint) -> WorldPoint {
        WorldPoint {
            x: to_world_coordinate(p.x, self.display_scene_offset.x, self.zoom),
            y: to_world_coordinate(p.y, self.display_scene_offset.y, self.zoom),
        }
    }

    /// The pixel of the window that shows a world point.
    pub open spec fn window_point_from_world_point(self, p: WorldPoint) -> WindowPoint {
        WindowPoint {
            x: to_window_coordinate(p.x, self.display_scene_offset.x, self.zoom),
            y: to_window_coordinate(p.y, self.display_scene_offset.y, self.zoom),
        }
    }

    /// The world point under the cursor.
    pub open spec fn current_cursor_world_point(self) -> WorldPoint {
        self.world_point_from_window_point(self.current_cursor_window_point)
    }

    /// The state after a message.
    pub open spec fn react(self, message: GuiStateMessageView) -> GuiStateView {
        match message {
            GuiStateMessageView::SetCursorPoint(p) => GuiStateView {
                current_cursor_window_point: p,
                last_cursor_move_frame: self.frame_i,
                ..self
            },
            GuiStateMessageView::SetLeftClickDown(p) => GuiStateView { left_click_down: p, ..self },
            GuiStateMessageView::SetCurrentCursorVector(v) => GuiStateView {
                current_cursor_vector: v,
                ..self
            },
            GuiStateMessageView::ApplyOnDisplaySceneOffset(o) => GuiStateView {
                display_scene_offset: Offset {
                    x: add_clamped(self.display_scene_offset.x, o.x),
                    y: add_clamped(self.display_scene_offset.y, o.y),
                },
                ..self
            },
            GuiStateMessageView::SetDisplaySceneOffset(o) => GuiStateView {
                display_scene_offset: o,
                ..self
            },
            GuiStateMessageView::SetSelectedSquads(soldier, squads) => GuiStateView {
                selected_soldier: soldier,
                selected_squads: squads,
                ..self
            },
            GuiStateMessageView::SetSquadMenu(m) => GuiStateView { squad_menu: m, ..self },
            GuiStateMessageView::SetPendingOrder(o) => GuiStateView { pending_order: o, ..self },
            GuiStateMessageView::AddCachePointToPendingOrder(p) => GuiStateView {
                pending_order: match self.pending_order {
                    Some(order) => Some(order.with_cached_point(p)),
                    None => None,
                },
                ..self
            },
            GuiStateMessageView::SetDisplayPaths(paths) => GuiStateView {
                display_paths: paths,
                ..self
            },
            GuiStateMessageView::PushDebugPoint(p) => GuiStateView {
                debug_points: self.debug_points.push(p),
                ..self
            },
            GuiStateMessageView::SetDebugTerrain(d) => GuiStateView { debug_terrain: d, ..self },
            GuiStateMessageView::SetDebugPhysics(d) => GuiStateView { debug_physics: d, ..self },
            GuiStateMessageView::PushUIEvent(e) => GuiStateView {
                ui_events: self.ui_events.push(e),
                ..self
            },
            GuiStateMessageView::ChangeSide => GuiStateView {
                side: self.side.spec_opposite(),
                selected_soldier: None,
                selected_squads: Seq::empty(),
                pending_order: None,
                display_paths: Seq::empty(),
                squad_menu: None,
                ..self
            },
            GuiStateMessageView::SetZoom(z) => GuiStateView { zoom: z, ..self },
            GuiStateMessageView::SetControl(c) => GuiStateView { control: c, ..self },
            GuiStateMessageView::SetDebugGuiHovered(b) => GuiStateView {
                debug_gui_hovered: b,
                ..self
            },
            GuiStateMessageView::SetDisplayDebugGui(b) => GuiStateView {
                display_debug_gui: b,
                ..self
            },
            GuiStateMessageView::SetBeginClickOnSoldier(s) => GuiStateView {
                begin_click_on_soldier: s,
                ..self
            },
            GuiStateMessageView::SetDragSquad(s) => GuiStateView { dragged_squad: s, ..self },
            GuiStateMessageView::SetCursorInHud(b) => GuiStateView { cursor_in_hud: b, ..self },
            GuiStateMessageView::SetIntroAck(b) => GuiStateView { intro_ack: b, ..self },
            GuiStateMessageView::SetSavesList(names) => GuiStateView { saves: names, ..self },
            GuiStateMessageView::SetDrawDecor(b) => GuiStateView { draw_decor: b, ..self },
            GuiStateMessageView::PushWaitingCursor(frames, event) => GuiStateView {
                waiting_cursor: self.waiting_cursor.push((frames, event)),
                ..self
            },
            GuiStateMessageView::SetWaitingCursor(waiting) => GuiStateView {
                waiting_cursor: waiting,
                ..self
            },
        }
    }
}

fn clamp_i64(v: i64) -> (c: i32)
    ensures
        c == clamp_i32(v as int),
{
    if v < i32::MIN as i64 {
        i32::MIN
    } else if v > i32::MAX as i64 {
        i32::MAX
    } else {
        v as i32
    }
}

fn to_world_coordinate_of(window: i32, offset: i32, zoom: Zoom) -> (w: i32)
    ensures
        w == to_world_coordinate(window, offset, zoom),
{
    let mm: i64 = zoom.millimeters_per_pixel() as i64;
    let d: i64 = window as i64 - offset as i64;
    assert(-0x1_0000_0000 * 100 <= d * mm <= 0x1_0000_0000 * 100) by (nonlinear_arith)
        requires
            -0x1_0000_0000 <= d <= 0x1_0000_0000,
            50 <= mm <= 100,
    ;
    clamp_i64(d * mm)
}

fn to_window_coordinate_of(world: i32, offset: i32, zoom: Zoom) -> (w: i32)
    ensures
        w == to_window_coordinate(world, offset, zoom),
{
    let mm: i64 = zoom.millimeters_per_pixel() as i64;
    let pixels: i64 = if world >= 0 {
        (world as i64) / mm
    } else {
        -((-(world as i64)) / mm)
    };
    clamp_i64(pixels + offset as i64)
}

/// A copy of a list of squads.
pub fn clone_squads(squads: &Vec<SquadUuid>) -> (copy: Vec<SquadUuid>)
    ensures
        copy@ == squads@,
{
    let mut copy: Vec<SquadUuid> = Vec::new();
    let mut i: usize = 0;
    while i < squads.len()
        invariant
            i <= squads.len(),
            copy@ == squads@.subrange(0, i as int),
        decreases squads.len() - i,
    {
        copy.push(squads[i]);
        i += 1;
    }
    assert(squads@.subrange(0, i as int) == squads@);
    copy
}

/// A copy of a list of routes, each with its squad.
pub fn clone_display_paths(paths: &Vec<(WorldPaths, SquadUuid)>) -> (copy: Vec<(WorldPaths, SquadUuid)>)
    ensures
        display_paths_view(copy@) == display_paths_view(paths@),
{
    let mut copy: Vec<(WorldPaths, SquadUuid)> = Vec::new();
    let mut i: usize = 0;
    while i < paths.len()
        invariant
            i <= paths.len(),
            copy.len() == i,
            forall|j: int|
                0 <= j < i ==> (#[trigger] copy[j]).0@ == paths[j].0@ && copy[j].1 == paths[j].1,
        decreases paths.len() - i,
    {
        copy.push((paths[i].0.clone(), paths[i].1));
        i += 1;
    }
    assert(display_paths_view(copy@) =~= display_paths_view(paths@));
    copy
}

/// A copy of a list of waiting events.
pub fn clone_waiting(waiting: &Vec<(u64, UIEvent)>) -> (copy: Vec<(u64, UIEvent)>)
    ensures
        copy@ == waiting@,
{
    let mut copy: Vec<(u64, UIEvent)> = Vec::new();
    let mut i: usize = 0;
    while i < waiting.len()
        invariant
            i <= waiting.len(),
            copy@ == waiting@.subrange(0, i as int),
        decreases waiting.len() - i,
    {
        copy.push(waiting[i]);
        i += 1;
    }
    assert(waiting@.subrange(0, i as int) == waiting@);
    copy
}

/// A copy of a list of names.
pub fn clone_names(names: &Vec<String>) -> (copy: Vec<String>)
    ensures
        names_view(copy@) == names_view(names@),
{
    let mut copy: Vec<String> = Vec::new();
    let mut i: usize = 0;
    while i < names.len()
        invariant
            i <= names.len(),
            copy.len() == i,
            forall|j: int| 0 <= j < i ==> (#[trigger] copy[j])@ == names[j]@,
        decreases names.len() - i,
    {
        copy.push(names[i].clone());
        i += 1;
    }
    assert(names_view(copy@) =~= names_view(names@));
    copy
}

impl GuiState {
    /// The state of a window that has just opened for a side.
    pub fn new(side: Side) -> (state: GuiState)
        ensures
            state@ == (GuiStateView {
                frame_i: 0,
                side,
                current_cursor_window_point: WindowPoint { x: 0, y: 0 },
                last_cursor_move_frame: 0,
                left_click_down: None,
                current_cursor_vector: None,
                display_scene_offset: Offset { x: 0, y: 0 },
                zoom: Zoom::Standard,
                selected_soldier: None,
                selected_squads: Seq::empty(),
                squad_menu: None,
                pending_order: None,
                display_paths: Seq::empty(),
                debug_points: Seq::empty(),
                debug_terrain: DebugTerrain::Off,
                debug_physics: DebugPhysics::Off,
                control: Control::Soldiers,
                debug_gui_hovered: false,
                display_debug_gui: false,
                begin_click_on_soldier: None,
                dragged_squad: None,
                cursor_in_hud: false,
                intro_ack: false,
                saves: Seq::empty(),
                ui_events: Seq::empty(),
                draw_decor: true,
                waiting_cursor: Seq::empty(),
            }),
    {
        let state = GuiState {
            frame_i: 0,
            side,
            current_cursor_window_point: WindowPoint { x: 0, y: 0 },
            last_cursor_move_frame: 0,
            left_click_down: None,
            current_cursor_vector: None,
            display_scene_offset: Offset { x: 0, y: 0 },
            zoom: Zoom::Standard,
            selected_soldier: None,
            selected_squads: Vec::new(),
            squad_menu: None,
            pending_order: None,
            display_paths: Vec::new(),
            debug_points: Vec::new(),
            debug_terrain: DebugTerrain::Off,
            debug_physics: DebugPhysics::Off,
            control: Control::Soldiers,
            debug_gui_hovered: false,
            display_debug_gui: false,
            begin_click_on_soldier: None,
            dragged_squad: None,
            cursor_in_hud: false,
            intro_ack: false,
            saves: Vec::new(),
            ui_events: Vec::new(),
            draw_decor: true,
            waiting_cursor: Vec::new(),
        };
        assert(state@.display_paths =~= Seq::empty());
        assert(state@.saves =~= Seq::empty());
        state
    }

    pub fn get_frame_i(&self) -> (frame_i: u64)
        ensures
            frame_i == self@.frame_i,
    {
        self.frame_i
    }

    pub fn get_last_cursor_move_frame(&self) -> (frame_i: u64)
        ensures
            frame_i == self@.last_cursor_move_frame,
    {
        self.last_cursor_move_frame
    }

    pub fn side(&self) -> (side: &Side)
        ensures
            *side == self@.side,
    {
        &self.side
    }

    pub fn get_current_cursor_window_point(&self) -> (point: &WindowPoint)
        ensures
            *point == self@.current_cursor_window_point,
    {
        &self.current_cursor_window_point
    }

    pub fn get_left_click_down_window_point(&self) -> (point: &Option<WindowPoint>)
        ensures
            *point == self@.left_click_down,
    {
        &self.left_click_down
    }

    pub fn is_controlling(&self, control: &Control) -> (is: bool)
        ensures
            is == (self@.control == *control),
    {
        self.control == *control
    }

    pub fn get_debug_physics(&self) -> (debug: &DebugPhysics)
        ensures
            *debug == self@.debug_physics,
    {
        &self.debug_physics
    }

    pub fn display_debug_gui(&self) -> (shown: bool)
        ensures
            shown == self@.display_debug_gui,
    {
        self.display_debug_gui
    }

    pub fn cursor_in_hud(&self) -> (inside: bool)
        ensures
            inside == self@.cursor_in_hud,
    {
        self.cursor_in_hud
    }

    pub fn dragged_squad(&self) -> (squad: &Option<SquadUuid>)
        ensures
            *squad == self@.dragged_squad,
    {
        &self.dragged_squad
    }

    pub fn begin_click_on_soldier(&self) -> (soldier: &Option<SoldierIndex>)
        ensures
            *soldier == self@.begin_click_on_soldier,
    {
        &self.begin_click_on_soldier
    }

    pub fn get_display_paths(&self) -> (paths: &Vec<(WorldPaths, SquadUuid)>)
        ensures
            display_paths_view(paths@) == self@.display_paths,
    {
        &self.display_paths
    }

    /// The world point that a pixel of the window shows.
    pub fn world_point_from_window_point(&self, p: WindowPoint) -> (world: WorldPoint)
        ensures
            world == self@.world_point_from_window_point(p),
    {
        WorldPoint {
            x: to_world_coordinate_of(p.x, self.display_scene_offset.x, self.zoom),
            y: to_world_coordinate_of(p.y, self.display_scene_offset.y, self.zoom),
        }
    }

    /// The pixel of the window that shows a world point.
    pub fn window_point_from_world_point(&self, p: WorldPoint) -> (window: WindowPoint)
        ensures
            window == self@.window_point_from_world_point(p),
    {
        WindowPoint {
            x: to_window_coordinate_of(p.x, self.display_scene_offset.x, self.zoom),
            y: to_window_coordinate_of(p.y, self.display_scene_offset.y, self.zoom),
        }
    }

    /// The world point under the cursor.
    pub fn get_current_cursor_world_point(&self) -> (world: WorldPoint)
        ensures
            world == self@.current_cursor_world_point(),
    {
        self.world_point_from_window_point(self.current_cursor_window_point)
    }

    /// Moves on to the next frame.
    pub fn tick(&mut self)
        ensures
            final(self)@ == (GuiStateView {
                frame_i: if old(self)@.frame_i == u64::MAX {
                    0
                } else {
                    (old(self)@.frame_i + 1) as u64
                },
                ..old(self)@
            }),
    {
        self.frame_i = if self.frame_i == u64::MAX {
            0
        } else {
            self.frame_i + 1
        };
    }

    /// Takes the events gathered so far out of the state, in the order in
    /// which they came.
    pub fn take_ui_events(&mut self) -> (events: Vec<UIEvent>)
        ensures
            events@ == old(self)@.ui_events,
            final(self)@ == (GuiStateView { ui_events: Seq::empty(), ..old(self)@ }),
    {
        let mut events: Vec<UIEvent> = Vec::new();
        events.append(&mut self.ui_events);
        events
    }

    /// Changes the state as a message asks.
    pub fn react(&mut self, message: &GuiStateMessage)
        ensures
            final(self)@ == old(self)@.react(message@),
    {
        match message {
            GuiStateMessage::SetCursorPoint(_)
            | GuiStateMessage::SetLeftClickDown(_)
            | GuiStateMessage::SetCurrentCursorVector(_)
            | GuiStateMessage::ApplyOnDisplaySceneOffset(_) => {
                self.react_cursor(message);
            },
            GuiStateMessage::SetDisplaySceneOffset(_)
            | GuiStateMessage::SetSelectedSquads(_, _)
            | GuiStateMessage::SetSquadMenu(_)
            | GuiStateMessage::SetPendingOrder(_) => {
                self.react_selection(message);
            },
            GuiStateMessage::AddCachePointToPendingOrder(_)
            | GuiStateMessage::SetDisplayPaths(_)
            | GuiStateMessage::PushDebugPoint(_)
            | GuiStateMessage::SetDebugTerrain(_) => {
                self.react_overlays(message);
            },
            GuiStateMessage::SetDebugPhysics(_)
            | GuiStateMessage::PushUIEvent(_)
            | GuiStateMessage::ChangeSide
            | GuiStateMessage::SetZoom(_) => {
                self.react_view(message);
            },
            GuiStateMessage::SetControl(_)
            | GuiStateMessage::SetDebugGuiHovered(_)
            | GuiStateMessage::SetDisplayDebugGui(_)
            | GuiStateMessage::SetBeginClickOnSoldier(_) => {
                self.react_gestures(message);
            },
            GuiStateMessage::SetDragSquad(_)
            | GuiStateMessage::SetCursorInHud(_)
            | GuiStateMessage::SetIntroAck(_)
            | GuiStateMessage::SetSavesList(_) => {
                self.react_session(message);
            },
            GuiStateMessage::SetDrawDecor(_)
            | GuiStateMessage::PushWaitingCursor(_, _)
            | GuiStateMessage::SetWaitingCursor(_) => {
                self.react_preview(message);
            },
        }
    }

    /// Reactions to the cursor, its clicks and the panning of the scene.
    fn react_cursor(&mut self, message: &GuiStateMessage)
        requires
            message is SetCursorPoint || message is SetLeftClickDown || message is SetCurrentCursorVector || message is ApplyOnDisplaySceneOffset,
        ensures
            final(self)@ == old(self)@.react(message@),
    {
        match message {
            GuiStateMessage::SetCursorPoint(p) => {
                self.current_cursor_window_point = *p;
                self.last_cursor_move_frame = self.frame_i;
            },
            GuiStateMessage::SetLeftClickDown(p) => {
                self.left_click_down = *p;
            },
            GuiStateMessage::SetCurrentCursorVector(v) => {
                self.current_cursor_vector = *v;
            },
            GuiStateMessage::ApplyOnDisplaySceneOffset(o) => {
                let moved = Offset {
                    x: clamp_i64(self.display_scene_offset.x as i64 + o.x as i64),
                    y: clamp_i64(self.display_scene_offset.y as i64 + o.y as i64),
                };
                self.display_scene_offset = moved;
            },
            _ => {},
        }
    }

    /// Reactions to the scene offset, the selection, the squad menu and the
    /// pending order.
    fn react_selection(&mut self, message: &GuiStateMessage)
        requires
            message is SetDisplaySceneOffset || message is SetSelectedSquads || message is SetSquadMenu || message is SetPendingOrder,
        ensures
            final(self)@ == old(self)@.react(message@),
    {
        match message {
            GuiStateMessage::SetDisplaySceneOffset(o) => {
                self.display_scene_offset = *o;
            },
            GuiStateMessage::SetSelectedSquads(soldier, squads) => {
                self.selected_soldier = *soldier;
                self.selected_squads = clone_squads(squads);
            },
            GuiStateMessage::SetSquadMenu(m) => {
                self.squad_menu = *m;
            },
            GuiStateMessage::SetPendingOrder(o) => {
                self.pending_order = match o {
                    Some(order) => Some(order.clone()),
                    None => None,
                };
            },
            _ => {},
        }
    }

    /// Reactions to chosen waypoints, routes shown, debug points and the
    /// terrain overlay.
    fn react_overlays(&mut self, message: &GuiStateMessage)
        requires
            message is AddCachePointToPendingOrder || message is SetDisplayPaths || message is PushDebugPoint || message is SetDebugTerrain,
        ensures
            final(self)@ == old(self)@.react(message@),
    {
        match message {
            GuiStateMessage::AddCachePointToPendingOrder(p) => {
                match &mut self.pending_order {
                    Some(order) => {
                        order.push_cached_point(*p);
                    },
                    None => {},
                }
            },
            GuiStateMessage::SetDisplayPaths(paths) => {
                self.display_paths = clone_display_paths(paths);
            },
            GuiStateMessage::PushDebugPoint(p) => {
                self.debug_points.push(*p);
            },
            GuiStateMessage::SetDebugTerrain(d) => {
                self.debug_terrain = *d;
            },
            _ => {},
        }
    }

    /// Reactions to the physics under test, events, the change of side and the
    /// zoom.
    fn react_view(&mut self, message: &GuiStateMessage)
        requires
            message is SetDebugPhysics || message is PushUIEvent || message is ChangeSide || message is SetZoom,
        ensures
            final(self)@ == old(self)@.react(message@),
    {
        match message {
            GuiStateMessage::SetDebugPhysics(d) => {
                self.debug_physics = *d;
            },
            GuiStateMessage::PushUIEvent(e) => {
                self.ui_events.push(*e);
            },
            GuiStateMessage::ChangeSide => {
                self.side = self.side.opposite();
                self.selected_soldier = None;
                self.selected_squads = Vec::new();
                self.pending_order = None;
                self.display_paths = Vec::new();
                self.squad_menu = None;
                assert(display_paths_view(self.display_paths@) =~= Seq::empty());
            },
            GuiStateMessage::SetZoom(z) => {
                self.zoom = *z;
            },
            _ => {},
        }
    }

    /// Reactions to the control, the debug window and the soldier on which a
    /// click began.
    fn react_gestures(&mut self, message: &GuiStateMessage)
        requires
            message is SetControl || message is SetDebugGuiHovered || message is SetDisplayDebugGui || message is SetBeginClickOnSoldier,
        ensures
            final(self)@ == old(self)@.react(message@),
    {
        match message {
            GuiStateMessage::SetControl(c) => {
                self.control = *c;
            },
            GuiStateMessage::SetDebugGuiHovered(b) => {
                self.debug_gui_hovered = *b;
            },
            GuiStateMessage::SetDisplayDebugGui(b) => {
                self.display_debug_gui = *b;
            },
            GuiStateMessage::SetBeginClickOnSoldier(s) => {
                self.begin_click_on_soldier = *s;
            },
            _ => {},
        }
    }

    /// Reactions to the dragged squad, the HUD, the introduction and the list
    /// of saves.
    fn react_session(&mut self, message: &GuiStateMessage)
        requires
            message is SetDragSquad || message is SetCursorInHud || message is SetIntroAck || message is SetSavesList,
        ensures
            final(self)@ == old(self)@.react(message@),
    {
        match message {
            GuiStateMessage::SetDragSquad(s) => {
                self.dragged_squad = *s;
            },
            GuiStateMessage::SetCursorInHud(b) => {
                self.cursor_in_hud = *b;
            },
            GuiStateMessage::SetIntroAck(b) => {
                self.intro_ack = *b;
            },
            GuiStateMessage::SetSavesList(names) => {
                self.saves = clone_names(names);
            },
            _ => {},
        }
    }

    /// Reactions to the decor and to the events that wait for a still cursor.
    fn react_preview(&mut self, message: &GuiStateMessage)
        requires
            message is SetDrawDecor || message is PushWaitingCursor || message is SetWaitingCursor,
        ensures
            final(self)@ == old(self)@.react(message@),
    {
        match message {
            GuiStateMessage::SetDrawDecor(b) => {
                self.draw_decor = *b;
            },
            GuiStateMessage::PushWaitingCursor(frames, event) => {
                self.waiting_cursor.push((*frames, *event));
            },
            GuiStateMessage::SetWaitingCursor(waiting) => {
                self.waiting_cursor = clone_waiting(waiting);
            },
            _ => {},
        }
    }
}

} // verus!
