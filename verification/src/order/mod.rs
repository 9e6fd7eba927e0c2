//! Orders: what a player wants a soldier or a squad to do.

pub mod marker;
pub mod path;
pub mod pending;

use vstd::prelude::*;
use crate::order::marker::OrderMarker;
use crate::order::path::{
    lemma_paths_without_next, paths_next_point, paths_wf, paths_without_next, WorldPaths,
};
use crate::types::{Angle, SquadUuid, WorldPoint};

verus! {

/// What a player wants a soldier to do. A movement order may carry the order
/// that takes its place once the movement is finished.
#[derive(Debug)]
pub enum Order {
    Idle,
    MoveTo(WorldPaths, Option<Box<Order>>),
    MoveFastTo(WorldPaths, Option<Box<Order>>),
    SneakTo(WorldPaths, Option<Box<Order>>),
    Defend(Angle),
    Hide(Angle),
    EngageSquad(SquadUuid),
    SuppressFire(WorldPoint),
}

/// Mathematical value of an [`Order`].
pub enum OrderView {
    Idle,
    MoveTo(Seq<Seq<WorldPoint>>, Option<Box<OrderView>>),
    MoveFastTo(Seq<Seq<WorldPoint>>, Option<Box<OrderView>>),
    SneakTo(Seq<Seq<WorldPoint>>, Option<Box<OrderView>>),
    Defend(Angle),
    Hide(Angle),
    EngageSquad(SquadUuid),
    SuppressFire(WorldPoint),
}

impl Order {
    /// The mathematical value of the order, follow-up orders included.
    pub open spec fn model(&self) -> OrderView
        decreases self,
    {
        match self {
            Order::Idle => OrderView::Idle,
            Order::MoveTo(paths, follow) => OrderView::MoveTo(
                paths@,
                match follow {
                    Some(next) => Some(Box::new(next.model())),
                    None => None,
                },
            ),
            Order::MoveFastTo(paths, follow) => OrderView::MoveFastTo(
                paths@,
                match follow {
                    Some(next) => Some(Box::new(next.model())),
                    None => None,
                },
            ),
            Order::SneakTo(paths, follow) => OrderView::SneakTo(
                paths@,
                match follow {
                    Some(next) => Some(Box::new(next.model())),
                    None => None,
                },
            ),
            Order::Defend(angle) => OrderView::Defend(*angle),
            Order::Hide(angle) => OrderView::Hide(*angle),
            Order::EngageSquad(squad) => OrderView::EngageSquad(*squad),
            Order::SuppressFire(point) => OrderView::SuppressFire(*point),
        }
    }
}

impl View for Order {
    type V = OrderView;

    open spec fn view(&self) -> OrderView {
        self.model()
    }
}

impl OrderView {
    /// The route of a movement order.
    pub open spec fn paths(self) -> Option<Seq<Seq<WorldPoint>>> {
        match self {
            OrderView::MoveTo(paths, _)
            | OrderView::MoveFastTo(paths, _)
            | OrderView::SneakTo(paths, _) => Some(paths),
            _ => None,
        }
    }

    /// The order that follows a movement order, if it carries one.
    pub open spec fn follow_up(self) -> Option<OrderView> {
        match self {
            OrderView::MoveTo(_, Some(next))
            | OrderView::MoveFastTo(_, Some(next))
            | OrderView::SneakTo(_, Some(next)) => Some(*next),
            _ => None,
        }
    }

    /// The same order on another route.
    pub open spec fn with_paths(self, paths: Seq<Seq<WorldPoint>>) -> OrderView {
        match self {
            OrderView::MoveTo(_, follow) => OrderView::MoveTo(paths, follow),
            OrderView::MoveFastTo(_, follow) => OrderView::MoveFastTo(paths, follow),
            OrderView::SneakTo(_, follow) => OrderView::SneakTo(paths, follow),
            _ => self,
        }
    }

    /// The icon that shows the order; an idle soldier shows none.
    pub open spec fn marker(self) -> Option<OrderMarker> {
        match self {
            OrderView::Idle => None,
            OrderView::MoveTo(_, _) => Some(OrderMarker::MoveTo),
            OrderView::MoveFastTo(_, _) => Some(OrderMarker::MoveFastTo),
            OrderView::SneakTo(_, _) => Some(OrderMarker::SneakTo),
            OrderView::Defend(_) => Some(OrderMarker::Defend),
            OrderView::Hide(_) => Some(OrderMarker::Hide),
            OrderView::EngageSquad(_) => Some(OrderMarker::EngageSquad),
            OrderView::SuppressFire(_) => Some(OrderMarker::SuppressFire),
        }
    }

    /// The direction that the order asks to face.
    pub open spec fn angle(self) -> Option<Angle> {
        match self {
            OrderView::Defend(angle) | OrderView::Hide(angle) => Some(angle),
            _ => None,
        }
    }

    /// A movement order is well formed when no part of its route is empty,
    /// and so for the orders that follow it.
    pub open spec fn wf(self) -> bool
        decreases self,
    {
        match self {
            OrderView::MoveTo(paths, follow)
            | OrderView::MoveFastTo(paths, follow)
            | OrderView::SneakTo(paths, follow) => paths_wf(paths) && match follow {
                Some(next) => next.wf(),
                None => true,
            },
            _ => true,
        }
    }

    /// The order once the soldier has reached the next waypoint.
    pub open spec fn after_step(self) -> OrderView {
        match self.paths() {
            Some(paths) => self.with_paths(paths_without_next(paths)),
            None => self,
        }
    }

    /// Whether reaching the next waypoint completes the order's route.
    pub open spec fn step_finishes(self) -> bool {
        match self.paths() {
            Some(paths) => paths_next_point(paths_without_next(paths)) is None,
            None => false,
        }
    }
}

impl Clone for Order {
    fn clone(&self) -> (copy: Order)
        ensures
            copy@ == self@,
        decreases self,
    {
        match self {
            Order::Idle => Order::Idle,
            Order::MoveTo(paths, follow) => Order::MoveTo(
                paths.clone(),
                match follow {
                    Some(next) => Some(Box::new((&**next).clone())),
                    None => None,
                },
            ),
            Order::MoveFastTo(paths, follow) => Order::MoveFastTo(
                paths.clone(),
                match follow {
                    Some(next) => Some(Box::new((&**next).clone())),
                    None => None,
                },
            ),
            Order::SneakTo(paths, follow) => Order::SneakTo(
                paths.clone(),
                match follow {
                    Some(next) => Some(Box::new((&**next).clone())),
                    None => None,
                },
            ),
            Order::Defend(angle) => Order::Defend(*angle),
            Order::Hide(angle) => Order::Hide(*angle),
            Order::EngageSquad(squad) => Order::EngageSquad(*squad),
            Order::SuppressFire(point) => Order::SuppressFire(*point),
        }
    }
}

/// Whether two optional follow-up orders are the same.
fn same_follow_up(a: &Option<Box<Order>>, b: &Option<Box<Order>>) -> (same: bool)
    ensures
        same == (match a {
            Some(x) => Some(x@),
            None => None,
        } == match b {
            Some(y) => Some(y@),
            None => None,
        }),
    decreases a,
{
    match (a, b) {
        (Some(x), Some(y)) => (&**x).same_as(&**y),
        (None, None) => true,
        _ => false,
    }
}

impl Order {
    pub open spec fn wf(&self) -> bool {
        self@.wf()
    }

    /// The icon that shows the order; an idle soldier shows none.
    pub fn marker(&self) -> (marker: Option<OrderMarker>)
        ensures
            marker == self@.marker(),
    {
        match self {
            Order::MoveTo(_, _) => Some(OrderMarker::MoveTo),
            Order::MoveFastTo(_, _) => Some(OrderMarker::MoveFastTo),
            Order::SneakTo(_, _) => Some(OrderMarker::SneakTo),
            Order::Defend(_) => Some(OrderMarker::Defend),
            Order::Hide(_) => Some(OrderMarker::Hide),
            Order::EngageSquad(_) => Some(OrderMarker::EngageSquad),
            Order::SuppressFire(_) => Some(OrderMarker::SuppressFire),
            Order::Idle => None,
        }
    }

    /// The direction that the order asks to face.
    pub fn angle(&self) -> (angle: Option<Angle>)
        ensures
            angle == self@.angle(),
    {
        match self {
            Order::MoveTo(_, _) | Order::MoveFastTo(_, _) | Order::SneakTo(_, _) => None,
            Order::Defend(angle) => Some(*angle),
            Order::Hide(angle) => Some(*angle),
            Order::SuppressFire(_) => None,
            Order::EngageSquad(_) => None,
            Order::Idle => None,
        }
    }

    /// The order that takes this one's place when its route is completed.
    pub fn follow_up(&self) -> (next: Option<Order>)
        ensures
            match next {
                Some(order) => self@.follow_up() == Some(order@),
                None => self@.follow_up() is None,
            },
    {
        match self {
            Order::MoveTo(_, Some(next))
            | Order::MoveFastTo(_, Some(next))
            | Order::SneakTo(_, Some(next)) => Some((&**next).clone()),
            _ => None,
        }
    }

    /// The route of a movement order.
    pub fn paths(&self) -> (paths: Option<&WorldPaths>)
        ensures
            match paths {
                Some(p) => self@.paths() == Some(p@),
                None => self@.paths() is None,
            },
    {
        match self {
            Order::MoveTo(paths, _) | Order::MoveFastTo(paths, _) | Order::SneakTo(paths, _) => {
                Some(paths)
            },
            _ => None,
        }
    }

    /// The name of the order's kind.
    pub fn name(&self) -> (name: &'static str)
        ensures
            name@ == match self@ {
                OrderView::MoveTo(_, _) => "MoveTo"@,
                OrderView::MoveFastTo(_, _) => "MoveFastTo"@,
                OrderView::SneakTo(_, _) => "SneakTo"@,
                OrderView::Defend(_) => "Defend"@,
                OrderView::Hide(_) => "Hide"@,
                OrderView::Idle => "Idle"@,
                OrderView::EngageSquad(_) => "Engage"@,
                OrderView::SuppressFire(_) => "SuppressFire"@,
            },
    {
        match self {
            Order::MoveTo(_, _) => "MoveTo",
            Order::MoveFastTo(_, _) => "MoveFastTo",
            Order::SneakTo(_, _) => "SneakTo",
            Order::Defend(_) => "Defend",
            Order::Hide(_) => "Hide",
            Order::Idle => "Idle",
            Order::EngageSquad(_) => "Engage",
            Order::SuppressFire(_) => "SuppressFire",
        }
    }

    /// Records that the soldier reached the next waypoint of a movement
    /// order, and tells whether that completed the route. Other orders are
    /// left as they are.
    pub fn reach_step(&mut self) -> (finished: bool)
        requires
            old(self)@.paths() matches Some(paths) ==> paths_next_point(paths) is Some,
        ensures
            final(self)@ == old(self)@.after_step(),
            finished == old(self)@.step_finishes(),
            old(self).wf() ==> final(self).wf(),
    {
        proof {
            if let Some(paths) = self@.paths() {
                if paths_wf(paths) {
                    lemma_paths_without_next(paths);
                }
            }
        }
        match self {
            Order::MoveTo(paths, _) => {
                paths.remove_next_point();
                if paths.next_point().is_none() {
                    return true;
                }
            },
            Order::MoveFastTo(paths, _) => {
                paths.remove_next_point();
                if paths.next_point().is_none() {
                    return true;
                }
            },
            Order::SneakTo(paths, _) => {
                paths.remove_next_point();
                if paths.next_point().is_none() {
                    return true;
                }
            },
            Order::Defend(_) => {},
            Order::Hide(_) => {},
            Order::Idle => {},
            Order::EngageSquad(_) => {},
            Order::SuppressFire(_) => {},
        }
        false
    }

    /// Whether both orders are the same, follow-up orders included.
    pub fn same_as(&self, other: &Order) -> (same: bool)
        ensures
            same == (self@ == other@),
        decreases self,
    {
        match (self, other) {
            (Order::Idle, Order::Idle) => true,
            (Order::MoveTo(p1, t1), Order::MoveTo(p2, t2)) => p1.same_as(p2) && same_follow_up(t1, t2),
            (Order::MoveFastTo(p1, t1), Order::MoveFastTo(p2, t2)) => p1.same_as(p2) && same_follow_up(
                t1,
                t2,
            ),
            (Order::SneakTo(p1, t1), Order::SneakTo(p2, t2)) => p1.same_as(p2) && same_follow_up(
                t1,
                t2,
            ),
            (Order::Defend(a1), Order::Defend(a2)) => *a1 == *a2,
            (Order::Hide(a1), Order::Hide(a2)) => *a1 == *a2,
            (Order::EngageSquad(s1), Order::EngageSquad(s2)) => *s1 == *s2,
            (Order::SuppressFire(p1), Order::SuppressFire(p2)) => *p1 == *p2,
            _ => false,
        }
    }
}

} // verus!
