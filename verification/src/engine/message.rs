//! Messages that the observer hands itself.

use vstd::prelude::*;
use crate::engine::event::UIEvent;
use crate::game::Sound;
use crate::order::path::WorldPaths;
use crate::order::pending::{PendingOrder, PendingOrderView};
use crate::runner::message::DebugPoint;
use crate::state::message::{BattleStateMessage, BattleStateMessageView};
use crate::types::{Offset, SoldierIndex, SquadUuid, WindowPoint, WorldPoint};

verus! {

/// What the player's clicks and keys act on.
#[derive(Clone, Copy, Debug, PartialEq, Eq, Structural)]
pub enum Control {
    Soldiers,
    /// The player pans over the map.
    MapView,
    Physics,
}

/// What the terrain overlay shows.
#[derive(Clone, Copy, Debug, PartialEq, Eq, Structural)]
pub enum DebugTerrain {
    Off,
    Tiles,
    Opacity,
}

/// What a click fires when physics are under test.
#[derive(Clone, Copy, Debug, PartialEq, Eq, Structural)]
pub enum DebugPhysics {
    Off,
    MosinNagantM1924GunFire,
    BrandtMle2731Shelling,
}

/// How closely the scene is looked at.
#[derive(Clone, Copy, Debug, PartialEq, Eq, Structural)]
pub enum Zoom {
    Standard,
    In,
}

/// What the drawing of the scene is asked to do again.
#[derive(Clone, Copy, Debug, PartialEq, Eq, Structural)]
pub enum GraphicsMessage {
    RecomputeDebugTerrainTiles,
    RecomputeDebugTerrainOpacity,
}

/// A change to the simulator's settings.
#[derive(Clone, Copy, Debug, PartialEq, Eq, Structural)]
pub enum ChangeConfigMessage {
    MoveVelocity(u32),
    MoveFastVelocity(u32),
    MoveHideVelocity(u32),
    DriveVelocity(u32),
}

/// A change to the state of the observer's window.
#[derive(Debug)]
pub enum GuiStateMessage {
    SetCursorPoint(WindowPoint),
    SetLeftClickDown(Option<WindowPoint>),
    SetCurrentCursorVector(Option<(WindowPoint, WindowPoint)>),
    ApplyOnDisplaySceneOffset(Offset),
    SetDisplaySceneOffset(Offset),
    SetSelectedSquads(Option<SoldierIndex>, Vec<SquadUuid>),
    SetSquadMenu(Option<(WindowPoint, SquadUuid)>),
    SetPendingOrder(Option<PendingOrder>),
    AddCachePointToPendingOrder(WorldPoint),
    SetDisplayPaths(Vec<(WorldPaths, SquadUuid)>),
    PushDebugPoint(DebugPoint),
    SetDebugTerrain(DebugTerrain),
    SetDebugPhysics(DebugPhysics),
    PushUIEvent(UIEvent),
    ChangeSide,
    SetZoom(Zoom),
    SetControl(Control),
    SetDebugGuiHovered(bool),
    SetDisplayDebugGui(bool),
    SetBeginClickOnSoldier(Option<SoldierIndex>),
    SetDragSquad(Option<SquadUuid>),
    SetCursorInHud(bool),
    SetIntroAck(bool),
    SetSavesList(Vec<String>),
    SetDrawDecor(bool),
    /// An event to fire once the cursor has been still for that many frames.
    PushWaitingCursor(u64, UIEvent),
    SetWaitingCursor(Vec<(u64, UIEvent)>),
}

/// Mathematical value of a [`GuiStateMessage`].
pub enum GuiStateMessageView {
    SetCursorPoint(WindowPoint),
    SetLeftClickDown(Option<WindowPoint>),
    SetCurrentCursorVector(Option<(WindowPoint, WindowPoint)>),
    ApplyOnDisplaySceneOffset(Offset),
    SetDisplaySceneOffset(Offset),
    SetSelectedSquads(Option<SoldierIndex>, Seq<SquadUuid>),
    SetSquadMenu(Option<(WindowPoint, SquadUuid)>),
    SetPendingOrder(Option<PendingOrderView>),
    AddCachePointToPendingOrder(WorldPoint),
    SetDisplayPaths(Seq<(Seq<Seq<WorldPoint>>, SquadUuid)>),
    PushDebugPoint(DebugPoint),
    SetDebugTerrain(DebugTerrain),
    SetDebugPhysics(DebugPhysics),
    PushUIEvent(UIEvent),
    ChangeSide,
    SetZoom(Zoom),
    SetControl(Control),
    SetDebugGuiHovered(bool),
    SetDisplayDebugGui(bool),
    SetBeginClickOnSoldier(Option<SoldierIndex>),
    SetDragSquad(Option<SquadUuid>),
    SetCursorInHud(bool),
    SetIntroAck(bool),
    SetSavesList(Seq<Seq<char>>),
    SetDrawDecor(bool),
    PushWaitingCursor(u64, UIEvent),
    SetWaitingCursor(Seq<(u64, UIEvent)>),
}

/// A message of the observer's cycle.
#[derive(Debug)]
pub enum EngineMessage {
    /// A change to the battle, to send to the simulator.
    BattleState(BattleStateMessage),
    GuiState(GuiStateMessage),
    Graphics(GraphicsMessage),
    PlaySound(Sound),
    ChangeServerConfig(ChangeConfigMessage),
    LoadFromSave(String),
    TryLoadLastSave,
    MakeASave,
    UpdateInteriors,
}

/// Mathematical value of an [`EngineMessage`].
pub enum EngineMessageView {
    BattleState(BattleStateMessageView),
    GuiState(GuiStateMessageView),
    Graphics(GraphicsMessage),
    PlaySound(Sound),
    ChangeServerConfig(ChangeConfigMessage),
    LoadFromSave(Seq<char>),
    TryLoadLastSave,
    MakeASave,
    UpdateInteriors,
}

/// The mathematical value of a list of routes, each with its squad.
pub open spec fn display_paths_view(paths: Seq<(WorldPaths, SquadUuid)>) -> Seq<
    (Seq<Seq<WorldPoint>>, SquadUuid),
> {
    paths.map_values(|p: (WorldPaths, SquadUuid)| (p.0@, p.1))
}

/// The mathematical value of a list of names.
pub open spec fn names_view(names: Seq<String>) -> Seq<Seq<char>> {
    names.map_values(|n: String| n@)
}

impl View for GuiStateMessage {
    type V = GuiStateMessageView;

    open spec fn view(&self) -> GuiStateMessageView {
        match self {
            GuiStateMessage::SetCursorPoint(p) => GuiStateMessageView::SetCursorPoint(*p),
            GuiStateMessage::SetLeftClickDown(p) => GuiStateMessageView::SetLeftClickDown(*p),
            GuiStateMessage::SetCurrentCursorVector(v) => {
                GuiStateMessageView::SetCurrentCursorVector(*v)
            },
            GuiStateMessage::ApplyOnDisplaySceneOffset(o) => {
                GuiStateMessageView::ApplyOnDisplaySceneOffset(*o)
            },
            GuiStateMessage::SetDisplaySceneOffset(o) => GuiStateMessageView::SetDisplaySceneOffset(
                *o,
            ),
            GuiStateMessage::SetSelectedSquads(s, squads) => GuiStateMessageView::SetSelectedSquads(
                *s,
                squads@,
            ),
            GuiStateMessage::SetSquadMenu(m) => GuiStateMessageView::SetSquadMenu(*m),
            GuiStateMessage::SetPendingOrder(o) => GuiStateMessageView::SetPendingOrder(
                match o {
                    Some(order) => Some(order@),
                    None => None,
                },
            ),
            GuiStateMessage::AddCachePointToPendingOrder(p) => {
                GuiStateMessageView::AddCachePointToPendingOrder(*p)
            },
            GuiStateMessage::SetDisplayPaths(paths) => GuiStateMessageView::SetDisplayPaths(
                display_paths_view(paths@),
            ),
            GuiStateMessage::PushDebugPoint(p) => GuiStateMessageView::PushDebugPoint(*p),
            GuiStateMessage::SetDebugTerrain(d) => GuiStateMessageView::SetDebugTerrain(*d),
            GuiStateMessage::SetDebugPhysics(d) => GuiStateMessageView::SetDebugPhysics(*d),
            GuiStateMessage::PushUIEvent(e) => GuiStateMessageView::PushUIEvent(*e),
            GuiStateMessage::ChangeSide => GuiStateMessageView::ChangeSide,
            GuiStateMessage::SetZoom(z) => GuiStateMessageView::SetZoom(*z),
            GuiStateMessage::SetControl(c) => GuiStateMessageView::SetControl(*c),
            GuiStateMessage::SetDebugGuiHovered(b) => GuiStateMessageView::SetDebugGuiHovered(*b),
            GuiStateMessage::SetDisplayDebugGui(b) => GuiStateMessageView::SetDisplayDebugGui(*b),
            GuiStateMessage::SetBeginClickOnSoldier(s) => {
                GuiStateMessageView::SetBeginClickOnSoldier(*s)
            },
            GuiStateMessage::SetDragSquad(s) => GuiStateMessageView::SetDragSquad(*s),
            GuiStateMessage::SetCursorInHud(b) => GuiStateMessageView::SetCursorInHud(*b),
            GuiStateMessage::SetIntroAck(b) => GuiStateMessageView::SetIntroAck(*b),
            GuiStateMessage::SetSavesList(names) => GuiStateMessageView::SetSavesList(
                names_view(names@),
            ),
            GuiStateMessage::SetDrawDecor(b) => GuiStateMessageView::SetDrawDecor(*b),
            GuiStateMessage::PushWaitingCursor(frames, event) => {
                GuiStateMessageView::PushWaitingCursor(*frames, *event)
            },
            GuiStateMessage::SetWaitingCursor(waiting) => GuiStateMessageView::SetWaitingCursor(
                waiting@,
            ),
        }
    }
}

impl View for EngineMessage {
    type V = EngineMessageView;

    open spec fn view(&self) -> EngineMessageView {
        match self {
            EngineMessage::BattleState(m) => EngineMessageView::BattleState(m@),
            EngineMessage::GuiState(m) => EngineMessageView::GuiState(m@),
            EngineMessage::Graphics(m) => EngineMessageView::Graphics(*m),
            EngineMessage::PlaySound(s) => EngineMessageView::PlaySound(*s),
            EngineMessage::ChangeServerConfig(m) => EngineMessageView::ChangeServerConfig(*m),
            EngineMessage::LoadFromSave(name) => EngineMessageView::LoadFromSave(name@),
            EngineMessage::TryLoadLastSave => EngineMessageView::TryLoadLastSave,
            EngineMessage::MakeASave => EngineMessageView::MakeASave,
            EngineMessage::UpdateInteriors => EngineMessageView::UpdateInteriors,
        }
    }
}

/// The mathematical values of a list of messages.
pub open spec fn engine_views(messages: Seq<EngineMessage>) -> Seq<EngineMessageView> {
    messages.map_values(|m: EngineMessage| m@)
}

/// Appends the messages of `more` to `messages`.
pub fn extend_engine(messages: &mut Vec<EngineMessage>, more: Vec<EngineMessage>)
    ensures
        engine_views(final(messages)@) == engine_views(old(messages)@) + engine_views(more@),
{
    let mut more = more;
    let ghost added = more@;
    let ghost before = messages@;
    messages.append(&mut more);
    assert(engine_views(messages@) =~= engine_views(before) + engine_views(added));
}

/// Appends a message that changes the state of the window.
pub fn push_gui(messages: &mut Vec<EngineMessage>, message: GuiStateMessage)
    ensures
        engine_views(final(messages)@) == engine_views(old(messages)@).push(
            EngineMessageView::GuiState(message@),
        ),
{
    let ghost before = messages@;
    messages.push(EngineMessage::GuiState(message));
    assert(engine_views(messages@) =~= engine_views(before).push(
        EngineMessageView::GuiState(message@),
    ));
}

/// Appends any message.
pub fn push_engine(messages: &mut Vec<EngineMessage>, message: EngineMessage)
    ensures
        engine_views(final(messages)@) == engine_views(old(messages)@).push(message@),
{
    let ghost before = messages@;
    let ghost value = message@;
    messages.push(message);
    assert(engine_views(messages@) =~= engine_views(before).push(value));
}

impl Control {
    /// The name of what is controlled.
    pub fn name(&self) -> (name: &'static str)
        ensures
            name@ == match self {
                Control::Soldiers => "Soldiers"@,
                Control::MapView => "Map"@,
                Control::Physics => "Physics"@,
            },
    {
        match self {
            Control::Soldiers => "Soldiers",
            Control::MapView => "Map",
            Control::Physics => "Physics",
        }
    }
}

impl DebugTerrain {
    pub open spec fn spec_next(&self) -> DebugTerrain {
        match self {
            DebugTerrain::Off => DebugTerrain::Tiles,
            DebugTerrain::Tiles => DebugTerrain::Opacity,
            DebugTerrain::Opacity => DebugTerrain::Off,
        }
    }

    /// The overlay that follows in the cycle: tiles, opacity, none.
    #[verifier::when_used_as_spec(spec_next)]
    pub fn next(&self) -> (overlay: DebugTerrain)
        ensures
            overlay == self.spec_next(),
    {
        match self {
            DebugTerrain::Off => DebugTerrain::Tiles,
            DebugTerrain::Tiles => DebugTerrain::Opacity,
            DebugTerrain::Opacity => DebugTerrain::Off,
        }
    }
}

impl Zoom {
    /// Millimetres of world that one pixel of the window shows.
    pub open spec fn spec_millimeters_per_pixel(&self) -> u32 {
        match self {
            Zoom::Standard => 100,
            Zoom::In => 50,
        }
    }

    #[verifier::when_used_as_spec(spec_millimeters_per_pixel)]
    pub fn millimeters_per_pixel(&self) -> (mm: u32)
        ensures
            mm == self.spec_millimeters_per_pixel(),
    {
        match self {
            Zoom::Standard => 100,
            Zoom::In => 50,
        }
    }

    pub open spec fn spec_next(&self) -> Zoom {
        Zoom::In
    }

    /// One step closer, as far as it goes.
    #[verifier::when_used_as_spec(spec_next)]
    pub fn next(&self) -> (zoom: Zoom)
        ensures
            zoom == self.spec_next(),
    {
        Zoom::In
    }

    pub open spec fn spec_previous(&self) -> Zoom {
        Zoom::Standard
    }

    /// One step back, as far as it goes.
    #[verifier::when_used_as_spec(spec_previous)]
    pub fn previous(&self) -> (zoom: Zoom)
        ensures
            zoom == self.spec_previous(),
    {
        Zoom::Standard
    }
}

} // verus!
