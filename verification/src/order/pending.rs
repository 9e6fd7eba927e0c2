//! Orders that an observer is still preparing.

use vstd::prelude::*;
use crate::order::marker::OrderMarker;
use crate::types::{OrderMarkerIndex, SquadUuid, WorldPoint};

verus! {

/// An order under preparation: the squad it is for and, for a movement, the
/// marker being edited and the waypoints chosen so far.
#[derive(Debug)]
pub enum PendingOrder {
    MoveTo(SquadUuid, Option<OrderMarkerIndex>, Vec<WorldPoint>),
    MoveFastTo(SquadUuid, Option<OrderMarkerIndex>, Vec<WorldPoint>),
    SneakTo(SquadUuid, Option<OrderMarkerIndex>, Vec<WorldPoint>),
    Defend(SquadUuid),
    Hide(SquadUuid),
    EngageOrFire(SquadUuid),
}

/// Mathematical value of a [`PendingOrder`].
pub enum PendingOrderView {
    MoveTo(SquadUuid, Option<OrderMarkerIndex>, Seq<WorldPoint>),
    MoveFastTo(SquadUuid, Option<OrderMarkerIndex>, Seq<WorldPoint>),
    SneakTo(SquadUuid, Option<OrderMarkerIndex>, Seq<WorldPoint>),
    Defend(SquadUuid),
    Hide(SquadUuid),
    EngageOrFire(SquadUuid),
}

impl View for PendingOrder {
    type V = PendingOrderView;

    open spec fn view(&self) -> PendingOrderView {
        match self {
            PendingOrder::MoveTo(squad, marker, points) => PendingOrderView::MoveTo(
                *squad,
                *marker,
                points@,
            ),
            PendingOrder::MoveFastTo(squad, marker, points) => PendingOrderView::MoveFastTo(
                *squad,
                *marker,
                points@,
            ),
            PendingOrder::SneakTo(squad, marker, points) => PendingOrderView::SneakTo(
                *squad,
                *marker,
                points@,
            ),
            PendingOrder::Defend(squad) => PendingOrderView::Defend(*squad),
            PendingOrder::Hide(squad) => PendingOrderView::Hide(*squad),
            PendingOrder::EngageOrFire(squad) => PendingOrderView::EngageOrFire(*squad),
        }
    }
}

impl PendingOrderView {
    /// Whether the order needs a route, found by the path-finder.
    pub open spec fn expect_path_finding(self) -> bool {
        self is MoveTo || self is MoveFastTo || self is SneakTo
    }

    pub open spec fn squad_index(self) -> SquadUuid {
        match self {
            PendingOrderView::MoveTo(squad, _, _)
            | PendingOrderView::MoveFastTo(squad, _, _)
            | PendingOrderView::SneakTo(squad, _, _)
            | PendingOrderView::Defend(squad)
            | PendingOrderView::Hide(squad)
            | PendingOrderView::EngageOrFire(squad) => squad,
        }
    }

    pub open spec fn cached_points(self) -> Seq<WorldPoint> {
        match self {
            PendingOrderView::MoveTo(_, _, points)
            | PendingOrderView::MoveFastTo(_, _, points)
            | PendingOrderView::SneakTo(_, _, points) => points,
            _ => Seq::empty(),
        }
    }

    pub open spec fn order_marker_index(self) -> Option<OrderMarkerIndex> {
        match self {
            PendingOrderView::MoveTo(_, marker, _)
            | PendingOrderView::MoveFastTo(_, marker, _)
            | PendingOrderView::SneakTo(_, marker, _) => marker,
            _ => None,
        }
    }

    /// The icon under which the order is prepared.
    pub open spec fn marker(self) -> OrderMarker {
        match self {
            PendingOrderView::MoveTo(_, _, _) => OrderMarker::MoveTo,
            PendingOrderView::MoveFastTo(_, _, _) => OrderMarker::MoveFastTo,
            PendingOrderView::SneakTo(_, _, _) => OrderMarker::SneakTo,
            PendingOrderView::Defend(_) => OrderMarker::Defend,
            PendingOrderView::Hide(_) => OrderMarker::Hide,
            PendingOrderView::EngageOrFire(_) => OrderMarker::EngageSquad,
        }
    }

    /// The order with one more chosen waypoint; an order without a route is
    /// left as it is.
    pub open spec fn with_cached_point(self, point: WorldPoint) -> PendingOrderView {
        match self {
            PendingOrderView::MoveTo(squad, marker, points) => PendingOrderView::MoveTo(
                squad,
                marker,
                points.push(point),
            ),
            PendingOrderView::MoveFastTo(squad, marker, points) => PendingOrderView::MoveFastTo(
                squad,
                marker,
                points.push(point),
            ),
            PendingOrderView::SneakTo(squad, marker, points) => PendingOrderView::SneakTo(
                squad,
                marker,
                points.push(point),
            ),
            _ => self,
        }
    }
}

/// A copy of a list of waypoints.
pub fn clone_points(points: &Vec<WorldPoint>) -> (copy: Vec<WorldPoint>)
    ensures
        copy@ == points@,
{
    let mut copy: Vec<WorldPoint> = Vec::new();
    let mut i: usize = 0;
    while i < points.len()
        invariant
            i <= points.len(),
            copy@ == points@.subrange(0, i as int),
        decreases points.len() - i,
    {
        copy.push(points[i]);
        i += 1;
    }
    assert(points@.subrange(0, i as int) == points@);
    copy
}

impl Clone for PendingOrder {
    fn clone(&self) -> (copy: PendingOrder)
        ensures
            copy@ == self@,
    {
        match self {
            PendingOrder::MoveTo(squad, marker, points) => PendingOrder::MoveTo(
                *squad,
                *marker,
                clone_points(points),
            ),
            PendingOrder::MoveFastTo(squad, marker, points) => PendingOrder::MoveFastTo(
                *squad,
                *marker,
                clone_points(points),
            ),
            PendingOrder::SneakTo(squad, marker, points) => PendingOrder::SneakTo(
                *squad,
                *marker,
                clone_points(points),
            ),
            PendingOrder::Defend(squad) => PendingOrder::Defend(*squad),
            PendingOrder::Hide(squad) => PendingOrder::Hide(*squad),
            PendingOrder::EngageOrFire(squad) => PendingOrder::EngageOrFire(*squad),
        }
    }
}

impl PendingOrder {
    /// Whether the order needs a route, found by the path-finder.
    pub fn expect_path_finding(&self) -> (expected: bool)
        ensures
            expected == self@.expect_path_finding(),
    {
        match self {
            PendingOrder::MoveTo(_, _, _)
            | PendingOrder::MoveFastTo(_, _, _)
            | PendingOrder::SneakTo(_, _, _) => true,
            _ => false,
        }
    }

    /// The squad that the order is for.
    pub fn squad_index(&self) -> (squad: &SquadUuid)
        ensures
            *squad == self@.squad_index(),
    {
        match self {
            PendingOrder::MoveTo(squad_index, _, _) => squad_index,
            PendingOrder::MoveFastTo(squad_index, _, _) => squad_index,
            PendingOrder::SneakTo(squad_index, _, _) => squad_index,
            PendingOrder::Defend(squad_index) => squad_index,
            PendingOrder::Hide(squad_index) => squad_index,
            PendingOrder::EngageOrFire(squad_index) => squad_index,
        }
    }

    /// The waypoints chosen so far; none for an order without a route.
    pub fn cached_points(&self) -> (points: Vec<WorldPoint>)
        ensures
            points@ == self@.cached_points(),
    {
        match self {
            PendingOrder::MoveTo(_, _, cached_points) => clone_points(cached_points),
            PendingOrder::MoveFastTo(_, _, cached_points) => clone_points(cached_points),
            PendingOrder::SneakTo(_, _, cached_points) => clone_points(cached_points),
            PendingOrder::Defend(_) => Vec::new(),
            PendingOrder::Hide(_) => Vec::new(),
            PendingOrder::EngageOrFire(_) => Vec::new(),
        }
    }

    /// The marker being edited, if the order changes an existing one.
    pub fn order_marker_index(&self) -> (index: &Option<OrderMarkerIndex>)
        ensures
            *index == self@.order_marker_index(),
    {
        match self {
            PendingOrder::MoveTo(_, order_marker_index, _) => order_marker_index,
            PendingOrder::MoveFastTo(_, order_marker_index, _) => order_marker_index,
            PendingOrder::SneakTo(_, order_marker_index, _) => order_marker_index,
            PendingOrder::Defend(_) => &None,
            PendingOrder::Hide(_) => &None,
            PendingOrder::EngageOrFire(_) => &None,
        }
    }

    /// The icon under which the order is prepared.
    pub fn marker(&self) -> (marker: OrderMarker)
        ensures
            marker == self@.marker(),
    {
        match self {
            PendingOrder::MoveTo(_, _, _) => OrderMarker::MoveTo,
            PendingOrder::MoveFastTo(_, _, _) => OrderMarker::MoveFastTo,
            PendingOrder::SneakTo(_, _, _) => OrderMarker::SneakTo,
            PendingOrder::Defend(_) => OrderMarker::Defend,
            PendingOrder::Hide(_) => OrderMarker::Hide,
            PendingOrder::EngageOrFire(_) => OrderMarker::EngageSquad,
        }
    }

    /// Adds a chosen waypoint to an order that has a route.
    pub fn push_cached_point(&mut self, point: WorldPoint)
        ensures
            final(self)@ == old(self)@.with_cached_point(point),
    {
        match self {
            PendingOrder::MoveTo(_, _, points) => {
                points.push(point);
            },
            PendingOrder::MoveFastTo(_, _, points) => {
                points.push(point);
            },
            PendingOrder::SneakTo(_, _, points) => {
                points.push(point);
            },
            _ => {},
        }
    }

    /// The name of the order's kind.
    pub fn name(&self) -> (name: &'static str)
        ensures
            name@ == match self@ {
                PendingOrderView::MoveTo(_, _, _) => "MoveTo"@,
                PendingOrderView::MoveFastTo(_, _, _) => "MoveFastTo"@,
                PendingOrderView::SneakTo(_, _, _) => "SneakTo"@,
                PendingOrderView::Defend(_) => "Defend"@,
                PendingOrderView::Hide(_) => "Hide"@,
                PendingOrderView::EngageOrFire(_) => "EngageOrFire"@,
            },
    {
        match self {
            PendingOrder::MoveTo(_, _, _) => "MoveTo",
            PendingOrder::MoveFastTo(_, _, _) => "MoveFastTo",
            PendingOrder::SneakTo(_, _, _) => "SneakTo",
            PendingOrder::Defend(_) => "Defend",
            PendingOrder::Hide(_) => "Hide",
            PendingOrder::EngageOrFire(_) => "EngageOrFire",
        }
    }
}

} // verus!
