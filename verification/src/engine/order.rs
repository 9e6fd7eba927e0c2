//! From clicks to selections and orders.

use vstd::prelude::*;
use crate::angle::direction;
use crate::config::ServerConfig;
use crate::engine::event::UIEvent;
use crate::engine::input::{first_soldier_at, gui, only_if};
use crate::engine::message::{
    display_paths_view, engine_views, extend_engine, push_engine, push_gui, EngineMessage,
    EngineMessageView, GuiStateMessage, GuiStateMessageView,
};
use crate::engine::state::GuiStateView;
use crate::engine::utils::{
    of_side_upto, soldiers_at_point_upto, soldiers_in_area_upto, squads_upto,
};
use crate::engine::Engine;
use crate::game::Phase;
use crate::order::path::{WorldPath, WorldPaths};
use crate::order::pending::{clone_points, PendingOrder, PendingOrderView};
use crate::order::{Order, OrderView};
use crate::runner::formation::{formation_offset, formation_offset_of, offset_point, offset_point_of};
use crate::state::battle::BattleStateView;
use crate::state::message::{
    BattleStateMessage, BattleStateMessageView, SoldierMessage, SoldierMessageView,
};
use crate::engine::pending::{context_route_ok, route_view};
use crate::types::{Angle, SoldierIndex, SquadUuid, WindowPoint, WorldPoint};
use crate::ui::menu::{menu_item_at, pending_from_menu, which_item_clicked};

verus! {

/// The first soldier of another side than the observer's whose square of
/// selection holds the point.
pub open spec fn first_opponent_at(battle: BattleStateView, state: GuiStateView, point: WorldPoint) -> Option<
    SoldierIndex,
> {
    let found = soldiers_at_point_upto(battle, point, battle.soldiers.len() as int);
    let others = of_side_upto(battle, state.side.spec_opposite(), found, found.len() as int);
    if others.len() > 0 {
        Some(others[0])
    } else {
        None
    }
}

/// One part of a route with its end moved to a point.
pub open spec fn with_end(part: Seq<WorldPoint>, point: WorldPoint) -> Seq<WorldPoint> {
    if part.len() == 0 {
        seq![point]
    } else {
        part.update(part.len() - 1, point)
    }
}

/// One part of a route with its start moved to a point.
pub open spec fn with_start(part: Seq<WorldPoint>, point: WorldPoint) -> Seq<WorldPoint> {
    if part.len() == 0 {
        part
    } else {
        part.update(0, point)
    }
}

/// A route with the marker of rank `index` moved to a point: the part of
/// that rank ends there and the part after it starts there.
pub open spec fn edited_paths(paths: Seq<Seq<WorldPoint>>, index: int, point: WorldPoint) -> Seq<
    Seq<WorldPoint>,
> {
    Seq::new(
        paths.len(),
        |k: int|
            if k == index {
                with_end(paths[k], point)
            } else if k == index + 1 {
                with_start(paths[k], point)
            } else {
                paths[k]
            },
    )
}

/// Whether committing a pending order moves a marker of the leader's order:
/// the pending order edits a marker that the route of that order has.
pub open spec fn edits_marker(battle: BattleStateView, pending: PendingOrderView) -> bool {
    let leader = battle.soldiers[battle.squads[pending.squad_index().0 as int].leader.0 as int];
    pending.order_marker_index() is Some && leader.order.paths() is Some
        && pending.order_marker_index().unwrap().0 < leader.order.paths().unwrap().len()
}

/// The order that a pending order becomes when it is committed with the
/// cursor on a world point. The drag of a marker of the leader's order
/// gives that order with the marker moved to the cursor. Else an order with
/// a route goes through the chosen waypoints and ends at the cursor;
/// defending and hiding face the cursor from the leader's place; engaging
/// takes the squad of the opponent under the cursor, and without one the
/// point itself comes under fire.
pub open spec fn committed_order(
    battle: BattleStateView,
    state: GuiStateView,
    pending: PendingOrderView,
    cursor: WorldPoint,
) -> OrderView {
    if edits_marker(battle, pending) {
        let leader = battle.soldiers[battle.squads[pending.squad_index().0 as int].leader.0 as int];
        leader.order.with_paths(
            edited_paths(
                leader.order.paths().unwrap(),
                pending.order_marker_index().unwrap().0 as int,
                cursor,
            ),
        )
    } else {
        fresh_order(battle, state, pending, cursor)
    }
}

/// The order that a pending order becomes when it edits no marker.
pub open spec fn fresh_order(
    battle: BattleStateView,
    state: GuiStateView,
    pending: PendingOrderView,
    cursor: WorldPoint,
) -> OrderView {
    let leader = battle.soldiers[battle.squads[pending.squad_index().0 as int].leader.0 as int];
    match pending {
        PendingOrderView::MoveTo(_, _, cached) => OrderView::MoveTo(
            seq![cached.push(cursor)],
            None,
        ),
        PendingOrderView::MoveFastTo(_, _, cached) => OrderView::MoveFastTo(
            seq![cached.push(cursor)],
            None,
        ),
        PendingOrderView::SneakTo(_, _, cached) => OrderView::SneakTo(
            seq![cached.push(cursor)],
            None,
        ),
        PendingOrderView::Defend(_) => OrderView::Defend(
            Angle(direction(leader.world_point, cursor) as i32),
        ),
        PendingOrderView::Hide(_) => OrderView::Hide(
            Angle(direction(leader.world_point, cursor) as i32),
        ),
        PendingOrderView::EngageOrFire(_) => match first_opponent_at(battle, state, cursor) {
            Some(opponent) => OrderView::EngageSquad(battle.soldiers[opponent.0 as int].squad_uuid),
            None => OrderView::SuppressFire(cursor),
        },
    }
}

/// Whether the replica holds a squad and its leader.
pub open spec fn squad_held(battle: BattleStateView, squad: SquadUuid) -> bool {
    squad.0 < battle.squads.len() && battle.squads[squad.0 as int].leader.0 < battle.soldiers.len()
}

/// The messages that commit a pending order: the order goes to the leader of
/// its squad, if the replica holds them, and nothing is pending or shown any
/// more.
pub open spec fn commit_messages(
    battle: BattleStateView,
    state: GuiStateView,
    pending: PendingOrderView,
    cursor: WorldPoint,
) -> Seq<EngineMessageView> {
    only_if(
        squad_held(battle, pending.squad_index()),
        EngineMessageView::BattleState(
            BattleStateMessageView::Soldier(
                battle.squads[pending.squad_index().0 as int].leader,
                SoldierMessageView::SetOrder(committed_order(battle, state, pending, cursor)),
            ),
        ),
    ) + seq![
        gui(GuiStateMessageView::SetPendingOrder(None)),
        gui(GuiStateMessageView::SetDisplayPaths(Seq::empty())),
    ]
}

/// The soldiers of the observer's side under a world point.
pub open spec fn own_soldiers_at(battle: BattleStateView, state: GuiStateView, point: WorldPoint) -> Seq<
    SoldierIndex,
> {
    let found = soldiers_at_point_upto(battle, point, battle.soldiers.len() as int);
    of_side_upto(battle, state.side, found, found.len() as int)
}

/// The messages of a left click on a pixel. While an order with a route is
/// prepared, the click chooses a waypoint; it commits any other pending
/// order. With nothing pending and the menu of a squad open, it starts to
/// prepare the order of the item under it, and closes the menu. Else it
/// selects the squads of the observer's soldiers under it.
pub open spec fn left_click_messages(battle: BattleStateView, state: GuiStateView, point: WindowPoint) -> Seq<
    EngineMessageView,
> {
    let world = state.world_point_from_window_point(point);
    match state.pending_order {
        Some(pending) => if pending.expect_path_finding() {
            seq![gui(GuiStateMessageView::AddCachePointToPendingOrder(world))]
        } else {
            commit_messages(battle, state, pending, world)
        },
        None => match state.squad_menu {
            Some((menu_point, squad)) => (match menu_item_at(menu_point, point) {
                Some(item) => seq![
                    gui(GuiStateMessageView::SetPendingOrder(Some(pending_from_menu(item, squad)))),
                ],
                None => Seq::empty(),
            }).push(gui(GuiStateMessageView::SetSquadMenu(None))),
            None => {
                let own = own_soldiers_at(battle, state, world);
                seq![
                    gui(
                        GuiStateMessageView::SetSelectedSquads(
                            if own.len() > 0 {
                                Some(own[0])
                            } else {
                                None
                            },
                            squads_upto(battle, own, own.len() as int),
                        ),
                    ),
                ]
            },
        },
    }
}

/// The messages of a right click on a pixel. It commits a pending order
/// with a route and cancels any other; with nothing pending it opens the
/// menu of the squad of the observer's first soldier under it, if that
/// squad is selected, and closes the menu else.
pub open spec fn right_click_messages(battle: BattleStateView, state: GuiStateView, point: WindowPoint) -> Seq<
    EngineMessageView,
> {
    let world = state.world_point_from_window_point(point);
    match state.pending_order {
        Some(pending) => if pending.expect_path_finding() {
            commit_messages(battle, state, pending, world)
        } else {
            seq![gui(GuiStateMessageView::SetPendingOrder(None))]
        },
        None => {
            let own = own_soldiers_at(battle, state, world);
            if own.len() > 0 && state.selected_squads.contains(
                battle.soldiers[own[0].0 as int].squad_uuid,
            ) {
                seq![
                    gui(
                        GuiStateMessageView::SetSquadMenu(
                            Some((point, battle.soldiers[own[0].0 as int].squad_uuid)),
                        ),
                    ),
                ]
            } else {
                seq![gui(GuiStateMessageView::SetSquadMenu(None))]
            }
        },
    }
}

/// The messages of a drag that ended. The drag of an order's marker commits
/// the order where it ended; any other drag selects the squads of the
/// observer's soldiers in the rectangle that it spans.
pub open spec fn cursor_vector_messages(
    battle: BattleStateView,
    state: GuiStateView,
    start: WindowPoint,
    end: WindowPoint,
) -> Seq<EngineMessageView> {
    let world_start = state.world_point_from_window_point(start);
    let world_end = state.world_point_from_window_point(end);
    if state.pending_order is Some && state.pending_order.unwrap().order_marker_index() is Some {
        commit_messages(battle, state, state.pending_order.unwrap(), world_end)
    } else {
        let found = soldiers_in_area_upto(
            battle,
            world_start,
            world_end,
            battle.soldiers.len() as int,
        );
        let own = of_side_upto(battle, state.side, found, found.len() as int);
        seq![
            gui(GuiStateMessageView::SetSelectedSquads(None, squads_upto(battle, own, own.len() as int))),
        ]
    }
}

/// Where the member at position `k` of a squad dropped on a point stands:
/// the first on the point, the others beside it in formation.
pub open spec fn dropped_place(config: ServerConfig, point: WorldPoint, k: int) -> WorldPoint {
    if k == 0 {
        point
    } else {
        offset_point(point, formation_offset(config.formation_spacing, k - 1))
    }
}

/// The messages that place the first `k` members of a squad.
pub open spec fn drop_messages_upto(
    battle: BattleStateView,
    config: ServerConfig,
    squad: SquadUuid,
    point: WorldPoint,
    k: int,
) -> Seq<EngineMessageView>
    decreases k,
{
    if k <= 0 {
        Seq::empty()
    } else {
        drop_messages_upto(battle, config, squad, point, k - 1).push(
            EngineMessageView::BattleState(
                BattleStateMessageView::Soldier(
                    battle.squads[squad.0 as int].members[k - 1],
                    SoldierMessageView::SetWorldPosition(dropped_place(config, point, k - 1)),
                ),
            ),
        )
    }
}

/// The messages of a squad dropped on a point: during placement, each
/// member of a squad that the replica holds gets its place.
pub open spec fn drop_squad_messages(
    battle: BattleStateView,
    config: ServerConfig,
    squad: SquadUuid,
    point: WorldPoint,
) -> Seq<EngineMessageView> {
    if battle.phase == Phase::Placement && squad.0 < battle.squads.len() {
        drop_messages_upto(
            battle,
            config,
            squad,
            point,
            battle.squads[squad.0 as int].members.len() as int,
        )
    } else {
        Seq::empty()
    }
}

/// Frames for which the cursor stays still before the route of the order
/// under preparation is shown.
pub const PREVIEW_DELAY_FRAMES: u64 = 15;

/// The message of a move of the cursor: while an order with a route is
/// prepared, the showing of the route is set to wait for the cursor to stay
/// still, unless it waits already.
pub open spec fn cursor_move_messages(state: GuiStateView) -> Seq<EngineMessageView> {
    only_if(
        state.pending_order is Some && state.pending_order.unwrap().expect_path_finding()
            && !state.waiting_cursor.contains((PREVIEW_DELAY_FRAMES, UIEvent::DrawMovePaths)),
        gui(GuiStateMessageView::PushWaitingCursor(PREVIEW_DELAY_FRAMES, UIEvent::DrawMovePaths)),
    )
}

/// The events, among the first `k` that wait, whose wait is over after `n`
/// frames of stillness: each is pushed as an event.
pub open spec fn fired_upto(waiting: Seq<(u64, UIEvent)>, n: u64, k: int) -> Seq<EngineMessageView>
    decreases k,
{
    if k <= 0 {
        Seq::empty()
    } else if n >= waiting[k - 1].0 {
        fired_upto(waiting, n, k - 1).push(gui(GuiStateMessageView::PushUIEvent(waiting[k - 1].1)))
    } else {
        fired_upto(waiting, n, k - 1)
    }
}

/// The events, among the first `k` that wait, that go on waiting.
pub open spec fn still_waiting_upto(waiting: Seq<(u64, UIEvent)>, n: u64, k: int) -> Seq<
    (u64, UIEvent),
>
    decreases k,
{
    if k <= 0 {
        Seq::empty()
    } else if n >= waiting[k - 1].0 {
        still_waiting_upto(waiting, n, k - 1)
    } else {
        still_waiting_upto(waiting, n, k - 1).push(waiting[k - 1])
    }
}

/// The messages of the cursor having been still for `n` frames: the events
/// whose wait is over are fired, in the order in which they were set to
/// wait, and the others go on waiting.
pub open spec fn immobile_messages(state: GuiStateView, n: u64) -> Seq<EngineMessageView> {
    let waiting = state.waiting_cursor;
    fired_upto(waiting, n, waiting.len() as int).push(
        gui(
            GuiStateMessageView::SetWaitingCursor(
                still_waiting_upto(waiting, n, waiting.len() as int),
            ),
        ),
    )
}

/// Whether `messages` show the route of the order under preparation: while
/// an order with a route is prepared for a squad that the replica holds,
/// its route, when there is one, is shown for the squad; else nothing is.
pub open spec fn preview_ok(
    battle: BattleStateView,
    state: GuiStateView,
    messages: Seq<EngineMessageView>,
) -> bool {
    if state.pending_order is Some && state.pending_order.unwrap().expect_path_finding()
        && squad_held(battle, state.pending_order.unwrap().squad_index()) {
        let pending = state.pending_order.unwrap();
        exists|paths: Option<Seq<Seq<WorldPoint>>>|
            {
                &&& #[trigger] context_route_ok(
                    battle,
                    state,
                    pending.squad_index(),
                    pending.order_marker_index(),
                    pending.cached_points(),
                    paths,
                )
                &&& messages == match paths {
                    Some(route) => seq![
                        gui(
                            GuiStateMessageView::SetDisplayPaths(
                                seq![(route, pending.squad_index())],
                            ),
                        ),
                    ],
                    None => Seq::empty(),
                }
            }
    } else {
        messages.len() == 0
    }
}

/// The messages of an event of the cursor, but for the showing of a route,
/// which depends on the ways that the search finds.
pub open spec fn ui_event_messages(
    battle: BattleStateView,
    state: GuiStateView,
    config: ServerConfig,
    event: UIEvent,
) -> Seq<EngineMessageView> {
    match event {
        UIEvent::FinishedCursorLeftClick(point) => left_click_messages(battle, state, point),
        UIEvent::FinishedCursorRightClick(point) => right_click_messages(battle, state, point),
        UIEvent::FinishedCursorVector(start, end) => cursor_vector_messages(
            battle,
            state,
            start,
            end,
        ),
        UIEvent::DropSquadTo(squad, point) => drop_squad_messages(battle, config, squad, point),
        UIEvent::CursorMove(_) => cursor_move_messages(state),
        UIEvent::ImmobileCursorSince(n) => immobile_messages(state, n),
        UIEvent::DrawMovePaths => Seq::empty(),
    }
}

impl Engine {
    /// The first soldier of another side under a world point.
    fn first_opponent_at(&self, point: WorldPoint) -> (opponent: Option<SoldierIndex>)
        ensures
            opponent == first_opponent_at(self.battle_state@, self.gui_state@, point),
            opponent matches Some(o) ==> o.0 < self.battle_state@.soldiers.len(),
    {
        let found = self.get_entities_at_point(point);
        let other_side = self.gui_state.side().opposite();
        let mut k: usize = 0;
        let ghost target = of_side_upto(
            self.battle_state@,
            other_side,
            found@,
            found@.len() as int,
        );
        while k < found.len()
            invariant
                k <= found.len(),
                other_side == self.gui_state@.side.spec_opposite(),
                found@ == soldiers_at_point_upto(
                    self.battle_state@,
                    point,
                    self.battle_state@.soldiers.len() as int,
                ),
                of_side_upto(self.battle_state@, other_side, found@, k as int).len() == 0,
            decreases found.len() - k,
        {
            let i = found[k];
            if i.0 < self.battle_state.soldiers.len() {
                if *self.battle_state.soldier(i).side() == other_side {
                    proof {
                        lemma_of_side_first(
                            self.battle_state@,
                            other_side,
                            found@,
                            k as int,
                            found@.len() as int,
                        );
                    }
                    return Some(i);
                }
            }
            k += 1;
        }
        None
    }

    /// A copy of a route with the marker of rank `index` moved to a point.
    fn edited_paths(paths: &WorldPaths, index: usize, point: WorldPoint) -> (edited: WorldPaths)
        ensures
            edited@ == edited_paths(paths@, index as int, point),
    {
        let mut parts: Vec<WorldPath> = Vec::new();
        let mut k: usize = 0;
        while k < paths.paths.len()
            invariant
                k <= paths.paths.len(),
                parts.len() == k,
                forall|j: int|
                    0 <= j < k ==> (#[trigger] parts[j])@ == edited_paths(
                        paths@,
                        index as int,
                        point,
                    )[j],
            decreases paths.paths.len() - k,
        {
            let mut points = clone_points(&paths.paths[k].points);
            assert(paths@[k as int] == paths.paths[k as int]@);
            if k == index {
                if points.len() == 0 {
                    points.push(point);
                } else {
                    let last: usize = points.len() - 1;
                    points[last] = point;
                }
            } else if index < usize::MAX && k == index + 1 {
                if points.len() > 0 {
                    points[0] = point;
                }
            }
            assert(points@ =~= edited_paths(paths@, index as int, point)[k as int]);
            parts.push(WorldPath::new(points));
            k += 1;
        }
        let edited = WorldPaths::new(parts);
        assert(edited@ =~= edited_paths(paths@, index as int, point));
        edited
    }

    /// The leader's order with the marker of rank `index` moved to a point,
    /// when the route of that order has such a marker.
    fn edited_order(order: &Order, index: usize, point: WorldPoint) -> (edited: Option<Order>)
        ensures
            match edited {
                Some(o) => order@.paths() is Some && index < order@.paths().unwrap().len() && o@
                    == order@.with_paths(
                    edited_paths(order@.paths().unwrap(), index as int, point),
                ),
                None => !(order@.paths() is Some && index < order@.paths().unwrap().len()),
            },
    {
        match order {
            Order::MoveTo(paths, follow) => {
                if index < paths.paths.len() {
                    Some(Order::MoveTo(Self::edited_paths(paths, index, point), Self::copy_follow(follow)))
                } else {
                    None
                }
            },
            Order::MoveFastTo(paths, follow) => {
                if index < paths.paths.len() {
                    Some(
                        Order::MoveFastTo(
                            Self::edited_paths(paths, index, point),
                            Self::copy_follow(follow),
                        ),
                    )
                } else {
                    None
                }
            },
            Order::SneakTo(paths, follow) => {
                if index < paths.paths.len() {
                    Some(
                        Order::SneakTo(
                            Self::edited_paths(paths, index, point),
                            Self::copy_follow(follow),
                        ),
                    )
                } else {
                    None
                }
            },
            _ => None,
        }
    }

    /// A copy of the follow-up of an order.
    fn copy_follow(follow: &Option<Box<Order>>) -> (copy: Option<Box<Order>>)
        ensures
            match (follow, copy) {
                (Some(a), Some(b)) => a@ == b@,
                (None, None) => true,
                _ => false,
            },
    {
        match follow {
            Some(next) => Some(Box::new((&**next).clone())),
            None => None,
        }
    }

    /// The order that a pending order becomes when it is committed.
    fn committed_order(&self, pending: &PendingOrder, cursor: WorldPoint) -> (order: Order)
        requires
            squad_held(self.battle_state@, pending@.squad_index()),
        ensures
            order@ == committed_order(self.battle_state@, self.gui_state@, pending@, cursor),
    {
        let squad = self.battle_state.squad(*pending.squad_index());
        let leader = self.battle_state.soldier(squad.leader());
        if let Some(index) = *pending.order_marker_index() {
            if let Some(edited) = Self::edited_order(leader.order(), index.0, cursor) {
                return edited;
            }
        }
        match pending {
            PendingOrder::MoveTo(_, _, cached) => Order::MoveTo(Self::route_through(cached, cursor), None),
            PendingOrder::MoveFastTo(_, _, cached) => Order::MoveFastTo(
                Self::route_through(cached, cursor),
                None,
            ),
            PendingOrder::SneakTo(_, _, cached) => Order::SneakTo(
                Self::route_through(cached, cursor),
                None,
            ),
            PendingOrder::Defend(_) => Order::Defend(Angle::from_points(&cursor, &leader.world_point())),
            PendingOrder::Hide(_) => Order::Hide(Angle::from_points(&cursor, &leader.world_point())),
            PendingOrder::EngageOrFire(_) => match self.first_opponent_at(cursor) {
                Some(opponent) => Order::EngageSquad(
                    self.battle_state.soldier(opponent).squad_uuid(),
                ),
                None => Order::SuppressFire(cursor),
            },
        }
    }

    /// The route of one part through the chosen waypoints to the cursor.
    fn route_through(cached: &Vec<WorldPoint>, cursor: WorldPoint) -> (paths: WorldPaths)
        ensures
            paths@ == seq![cached@.push(cursor)],
    {
        let mut points = clone_points(cached);
        points.push(cursor);
        let mut parts: Vec<WorldPath> = Vec::new();
        parts.push(WorldPath::new(points));
        let paths = WorldPaths::new(parts);
        assert(paths@ =~= seq![cached@.push(cursor)]);
        paths
    }

    /// The messages that commit a pending order with the cursor on a world
    /// point.
    pub fn commit_pending_order(&self, pending: &PendingOrder, cursor: WorldPoint) -> (messages: Vec<
        EngineMessage,
    >)
        ensures
            engine_views(messages@) == commit_messages(
                self.battle_state@,
                self.gui_state@,
                pending@,
                cursor,
            ),
    {
        let mut messages: Vec<EngineMessage> = Vec::new();
        assert(engine_views(messages@) =~= Seq::empty());
        let squad_id = *pending.squad_index();
        if squad_id.0 < self.battle_state.squads.len() {
            let leader = self.battle_state.squad(squad_id).leader();
            if leader.0 < self.battle_state.soldiers.len() {
                let order = self.committed_order(pending, cursor);
                push_engine(
                    &mut messages,
                    EngineMessage::BattleState(
                        BattleStateMessage::Soldier(leader, SoldierMessage::SetOrder(order)),
                    ),
                );
            }
        }
        push_gui(&mut messages, GuiStateMessage::SetPendingOrder(None));
        let shown: Vec<(WorldPaths, SquadUuid)> = Vec::new();
        assert(display_paths_view(shown@) =~= Seq::empty());
        push_gui(&mut messages, GuiStateMessage::SetDisplayPaths(shown));
        assert(engine_views(messages@) =~= commit_messages(
            self.battle_state@,
            self.gui_state@,
            pending@,
            cursor,
        ));
        messages
    }

    /// The soldiers of the observer's side under a world point.
    fn own_soldiers_at(&self, point: WorldPoint) -> (own: Vec<SoldierIndex>)
        ensures
            own@ == own_soldiers_at(self.battle_state@, self.gui_state@, point),
    {
        self.filter_entities_by_side(self.get_entities_at_point(point))
    }

    /// The messages of a left click on a pixel.
    pub fn digest_left_click(&self, point: WindowPoint) -> (messages: Vec<EngineMessage>)
        ensures
            engine_views(messages@) == left_click_messages(
                self.battle_state@,
                self.gui_state@,
                point,
            ),
    {
        let world = self.gui_state.world_point_from_window_point(point);
        match &self.gui_state.pending_order {
            Some(pending) => {
                if pending.expect_path_finding() {
                    let mut messages: Vec<EngineMessage> = Vec::new();
                    assert(engine_views(messages@) =~= Seq::empty());
                    push_gui(&mut messages, GuiStateMessage::AddCachePointToPendingOrder(world));
                    assert(engine_views(messages@) =~= left_click_messages(
                        self.battle_state@,
                        self.gui_state@,
                        point,
                    ));
                    messages
                } else {
                    self.commit_pending_order(pending, world)
                }
            },
            None => {
                let mut messages: Vec<EngineMessage> = Vec::new();
                assert(engine_views(messages@) =~= Seq::empty());
                match self.gui_state.squad_menu {
                    Some((menu_point, squad)) => {
                        if let Some(item) = which_item_clicked(menu_point, point) {
                            push_gui(
                                &mut messages,
                                GuiStateMessage::SetPendingOrder(Some(item.pending_order(squad))),
                            );
                        }
                        push_gui(&mut messages, GuiStateMessage::SetSquadMenu(None));
                    },
                    None => {
                        let own = self.own_soldiers_at(world);
                        let first = if own.len() > 0 {
                            Some(own[0])
                        } else {
                            None
                        };
                        let squads = self.squad_ids_from_entities(own);
                        push_gui(&mut messages, GuiStateMessage::SetSelectedSquads(first, squads));
                    },
                }
                assert(engine_views(messages@) =~= left_click_messages(
                    self.battle_state@,
                    self.gui_state@,
                    point,
                ));
                messages
            },
        }
    }

    /// Whether a squad is among those selected.
    fn is_selected(&self, squad: SquadUuid) -> (selected: bool)
        ensures
            selected == self.gui_state@.selected_squads.contains(squad),
    {
        let mut k: usize = 0;
        while k < self.gui_state.selected_squads.len()
            invariant
                k <= self.gui_state.selected_squads.len(),
                forall|j: int| 0 <= j < k ==> self.gui_state.selected_squads@[j] != squad,
            decreases self.gui_state.selected_squads.len() - k,
        {
            if self.gui_state.selected_squads[k] == squad {
                return true;
            }
            k += 1;
        }
        false
    }

    /// The messages of a right click on a pixel.
    pub fn digest_right_click(&self, point: WindowPoint) -> (messages: Vec<EngineMessage>)
        ensures
            engine_views(messages@) == right_click_messages(
                self.battle_state@,
                self.gui_state@,
                point,
            ),
    {
        let world = self.gui_state.world_point_from_window_point(point);
        match &self.gui_state.pending_order {
            Some(pending) => {
                if pending.expect_path_finding() {
                    self.commit_pending_order(pending, world)
                } else {
                    let mut messages: Vec<EngineMessage> = Vec::new();
                    assert(engine_views(messages@) =~= Seq::empty());
                    push_gui(&mut messages, GuiStateMessage::SetPendingOrder(None));
                    assert(engine_views(messages@) =~= right_click_messages(
                        self.battle_state@,
                        self.gui_state@,
                        point,
                    ));
                    messages
                }
            },
            None => {
                let own = self.own_soldiers_at(world);
                let mut messages: Vec<EngineMessage> = Vec::new();
                assert(engine_views(messages@) =~= Seq::empty());
                let mut menu: Option<(WindowPoint, SquadUuid)> = None;
                if own.len() > 0 {
                    proof {
                        lemma_of_side_held(
                            self.battle_state@,
                            self.gui_state@.side,
                            soldiers_at_point_upto(
                                self.battle_state@,
                                world,
                                self.battle_state@.soldiers.len() as int,
                            ),
                            soldiers_at_point_upto(
                                self.battle_state@,
                                world,
                                self.battle_state@.soldiers.len() as int,
                            ).len() as int,
                            0,
                        );
                    }
                    let squad = self.battle_state.soldier(own[0]).squad_uuid();
                    if self.is_selected(squad) {
                        menu = Some((point, squad));
                    }
                }
                push_gui(&mut messages, GuiStateMessage::SetSquadMenu(menu));
                assert(engine_views(messages@) =~= right_click_messages(
                    self.battle_state@,
                    self.gui_state@,
                    point,
                ));
                messages
            },
        }
    }

    /// The messages of a drag that ended.
    pub fn digest_cursor_vector(&self, start: WindowPoint, end: WindowPoint) -> (messages: Vec<
        EngineMessage,
    >)
        ensures
            engine_views(messages@) == cursor_vector_messages(
                self.battle_state@,
                self.gui_state@,
                start,
                end,
            ),
    {
        let world_start = self.gui_state.world_point_from_window_point(start);
        let world_end = self.gui_state.world_point_from_window_point(end);
        if let Some(pending) = &self.gui_state.pending_order {
            if pending.order_marker_index().is_some() {
                return self.commit_pending_order(pending, world_end);
            }
        }
        let own = self.filter_entities_by_side(self.get_entities_in_area(world_start, world_end));
        let squads = self.squad_ids_from_entities(own);
        let mut messages: Vec<EngineMessage> = Vec::new();
        assert(engine_views(messages@) =~= Seq::empty());
        push_gui(&mut messages, GuiStateMessage::SetSelectedSquads(None, squads));
        assert(engine_views(messages@) =~= cursor_vector_messages(
            self.battle_state@,
            self.gui_state@,
            start,
            end,
        ));
        messages
    }

    /// The messages of a squad dropped on a point.
    pub fn digest_drop_squad(&self, squad: SquadUuid, point: WorldPoint) -> (messages: Vec<EngineMessage>)
        ensures
            engine_views(messages@) == drop_squad_messages(
                self.battle_state@,
                self.config,
                squad,
                point,
            ),
    {
        let mut messages: Vec<EngineMessage> = Vec::new();
        assert(engine_views(messages@) =~= Seq::empty());
        if self.battle_state.phase().placement() && squad.0 < self.battle_state.squads.len() {
            let members = self.battle_state.squad(squad).members();
            let mut k: usize = 0;
            while k < members.len()
                invariant
                    k <= members.len(),
                    squad.0 < self.battle_state@.squads.len(),
                    members@ == self.battle_state@.squads[squad.0 as int].members,
                    engine_views(messages@) == drop_messages_upto(
                        self.battle_state@,
                        self.config,
                        squad,
                        point,
                        k as int,
                    ),
                decreases members.len() - k,
            {
                let place = if k == 0 {
                    point
                } else {
                    offset_point_of(point, formation_offset_of(self.config.formation_spacing, k - 1))
                };
                push_engine(
                    &mut messages,
                    EngineMessage::BattleState(
                        BattleStateMessage::Soldier(members[k], SoldierMessage::SetWorldPosition(place)),
                    ),
                );
                k += 1;
            }
        }
        messages
    }

    /// The message of a move of the cursor.
    pub fn digest_cursor_move(&self) -> (messages: Vec<EngineMessage>)
        ensures
            engine_views(messages@) == cursor_move_messages(self.gui_state@),
    {
        let mut messages: Vec<EngineMessage> = Vec::new();
        assert(engine_views(messages@) =~= Seq::empty());
        let prepares_route = match &self.gui_state.pending_order {
            Some(pending) => pending.expect_path_finding(),
            None => false,
        };
        if prepares_route {
            let mut waits: bool = false;
            let mut k: usize = 0;
            while k < self.gui_state.waiting_cursor.len()
                invariant
                    k <= self.gui_state.waiting_cursor.len(),
                    waits == exists|j: int|
                        0 <= j < k && self.gui_state.waiting_cursor@[j] == (
                            PREVIEW_DELAY_FRAMES,
                            UIEvent::DrawMovePaths,
                        ),
                decreases self.gui_state.waiting_cursor.len() - k,
            {
                let (frames, event) = self.gui_state.waiting_cursor[k];
                if frames == PREVIEW_DELAY_FRAMES && event == UIEvent::DrawMovePaths {
                    waits = true;
                }
                k += 1;
            }
            if !waits {
                push_gui(
                    &mut messages,
                    GuiStateMessage::PushWaitingCursor(PREVIEW_DELAY_FRAMES, UIEvent::DrawMovePaths),
                );
            }
        }
        assert(engine_views(messages@) =~= cursor_move_messages(self.gui_state@));
        messages
    }

    /// The messages of the cursor having been still for `n` frames.
    pub fn digest_immobile_cursor(&self, n: u64) -> (messages: Vec<EngineMessage>)
        ensures
            engine_views(messages@) == immobile_messages(self.gui_state@, n),
    {
        let waiting = &self.gui_state.waiting_cursor;
        let mut messages: Vec<EngineMessage> = Vec::new();
        let mut still: Vec<(u64, UIEvent)> = Vec::new();
        assert(engine_views(messages@) =~= Seq::empty());
        let mut k: usize = 0;
        while k < waiting.len()
            invariant
                k <= waiting.len(),
                engine_views(messages@) == fired_upto(waiting@, n, k as int),
                still@ == still_waiting_upto(waiting@, n, k as int),
            decreases waiting.len() - k,
        {
            let (frames, event) = waiting[k];
            if n >= frames {
                push_gui(&mut messages, GuiStateMessage::PushUIEvent(event));
            } else {
                still.push((frames, event));
            }
            k += 1;
        }
        push_gui(&mut messages, GuiStateMessage::SetWaitingCursor(still));
        messages
    }

    /// The message that shows the route of the order under preparation.
    pub fn preview_paths(&self) -> (messages: Vec<EngineMessage>)
        requires
            self.wf(),
        ensures
            preview_ok(self.battle_state@, self.gui_state@, engine_views(messages@)),
    {
        let mut messages: Vec<EngineMessage> = Vec::new();
        assert(engine_views(messages@) =~= Seq::empty());
        if let Some(pending) = &self.gui_state.pending_order {
            if pending.expect_path_finding() {
                let squad_id = *pending.squad_index();
                if squad_id.0 < self.battle_state.squads.len() {
                    if self.battle_state.squad(squad_id).leader().0
                        < self.battle_state.soldiers.len() {
                        let cached = pending.cached_points();
                        let found = self.create_world_paths_from_context(
                            squad_id,
                            *pending.order_marker_index(),
                            &cached,
                        );
                        let ghost route = route_view(found);
                        match found {
                            Some(paths) => {
                                let mut shown: Vec<(WorldPaths, SquadUuid)> = Vec::new();
                                let ghost value = paths@;
                                shown.push((paths, squad_id));
                                assert(display_paths_view(shown@) =~= seq![(value, squad_id)]);
                                push_gui(&mut messages, GuiStateMessage::SetDisplayPaths(shown));
                                assert(engine_views(messages@) =~= seq![
                                    gui(
                                        GuiStateMessageView::SetDisplayPaths(
                                            seq![(value, squad_id)],
                                        ),
                                    ),
                                ]);
                            },
                            None => {},
                        }
                        assert(context_route_ok(
                            self.battle_state@,
                            self.gui_state@,
                            pending@.squad_index(),
                            pending@.order_marker_index(),
                            pending@.cached_points(),
                            route,
                        ));
                    }
                }
            }
        }
        messages
    }

    /// The messages of an event of the cursor.
    pub fn digest_ui_event(&self, event: &UIEvent) -> (messages: Vec<EngineMessage>)
        requires
            self.wf(),
        ensures
            *event != UIEvent::DrawMovePaths ==> engine_views(messages@) == ui_event_messages(
                self.battle_state@,
                self.gui_state@,
                self.config,
                *event,
            ),
            *event == UIEvent::DrawMovePaths ==> preview_ok(
                self.battle_state@,
                self.gui_state@,
                engine_views(messages@),
            ),
    {
        match event {
            UIEvent::FinishedCursorLeftClick(point) => self.digest_left_click(*point),
            UIEvent::FinishedCursorRightClick(point) => self.digest_right_click(*point),
            UIEvent::FinishedCursorVector(start, end) => self.digest_cursor_vector(*start, *end),
            UIEvent::DropSquadTo(squad, point) => self.digest_drop_squad(*squad, *point),
            UIEvent::CursorMove(_) => self.digest_cursor_move(),
            UIEvent::ImmobileCursorSince(n) => self.digest_immobile_cursor(*n),
            UIEvent::DrawMovePaths => self.preview_paths(),
        }
    }
}

/// The first soldier of a side in a list is the first that the filter keeps.
proof fn lemma_of_side_first(
    battle: BattleStateView,
    side: crate::game::Side,
    indexes: Seq<SoldierIndex>,
    k: int,
    n: int,
)
    requires
        0 <= k < n <= indexes.len(),
        of_side_upto(battle, side, indexes, k).len() == 0,
        indexes[k].0 < battle.soldiers.len(),
        battle.soldiers[indexes[k].0 as int].side == side,
    ensures
        of_side_upto(battle, side, indexes, n).len() > 0,
        of_side_upto(battle, side, indexes, n)[0] == indexes[k],
    decreases n - k,
{
    if n == k + 1 {
        assert(of_side_upto(battle, side, indexes, n) == of_side_upto(battle, side, indexes, k).push(
            indexes[k],
        ));
    } else {
        lemma_of_side_first(battle, side, indexes, k, n - 1);
    }
}

/// Every soldier that the filter keeps is held by the state.
proof fn lemma_of_side_held(
    battle: BattleStateView,
    side: crate::game::Side,
    indexes: Seq<SoldierIndex>,
    n: int,
    j: int,
)
    requires
        0 <= n <= indexes.len(),
        0 <= j < of_side_upto(battle, side, indexes, n).len(),
    ensures
        of_side_upto(battle, side, indexes, n)[j].0 < battle.soldiers.len(),
        battle.soldiers[of_side_upto(battle, side, indexes, n)[j].0 as int].side == side,
    decreases n,
{
    if n > 0 {
        let before = of_side_upto(battle, side, indexes, n - 1);
        if j < before.len() {
            lemma_of_side_held(battle, side, indexes, n - 1, j);
        }
    }
}

} // verus!
