//! Behaviors: what a soldier is doing right now.

use vstd::prelude::*;
use crate::order::path::{
    lemma_paths_without_next, paths_next_point, paths_wf, paths_without_next, WorldPaths,
};
use crate::order::{Order, OrderView};
use crate::types::{Angle, SoldierIndex, WorldPoint};

verus! {

/// Posture of an idle soldier.
#[derive(Clone, Copy, Debug, PartialEq, Eq, Structural)]
pub enum Body {
    StandUp,
    Crouched,
    Lying,
}

/// Whether a soldier acts on foot or drives a vehicle.
#[derive(Clone, Copy, Debug, PartialEq, Eq, Structural)]
pub enum BehaviorMode {
    Ground,
    Vehicle,
}

/// When a squad leader's behavior is passed on to the squad as orders.
#[derive(Clone, Copy, Debug, PartialEq, Eq, Structural)]
pub enum BehaviorPropagation {
    /// The behavior is never passed on.
    Never,
    /// Passed on when the leader's behavior changes.
    OnChange,
    /// Passed on at every tick while the behavior lasts.
    Regularly,
}

/// What a soldier is doing.
#[derive(Debug)]
pub enum Behavior {
    Idle(Body),
    MoveTo(WorldPaths),
    MoveFastTo(WorldPaths),
    SneakTo(WorldPaths),
    DriveTo(WorldPaths),
    RotateTo(Angle),
    Defend(Angle),
    Hide(Angle),
    EngageSoldier(SoldierIndex),
    SuppressFire(WorldPoint),
    Dead,
    Unconscious,
}

/// Mathematical value of a [`Behavior`].
pub enum BehaviorView {
    Idle(Body),
    MoveTo(Seq<Seq<WorldPoint>>),
    MoveFastTo(Seq<Seq<WorldPoint>>),
    SneakTo(Seq<Seq<WorldPoint>>),
    DriveTo(Seq<Seq<WorldPoint>>),
    RotateTo(Angle),
    Defend(Angle),
    Hide(Angle),
    EngageSoldier(SoldierIndex),
    SuppressFire(WorldPoint),
    Dead,
    Unconscious,
}

impl View for Behavior {
    type V = BehaviorView;

    open spec fn view(&self) -> BehaviorView {
        match self {
            Behavior::Idle(body) => BehaviorView::Idle(*body),
            Behavior::MoveTo(paths) => BehaviorView::MoveTo(paths@),
            Behavior::MoveFastTo(paths) => BehaviorView::MoveFastTo(paths@),
            Behavior::SneakTo(paths) => BehaviorView::SneakTo(paths@),
            Behavior::DriveTo(paths) => BehaviorView::DriveTo(paths@),
            Behavior::RotateTo(angle) => BehaviorView::RotateTo(*angle),
            Behavior::Defend(angle) => BehaviorView::Defend(*angle),
            Behavior::Hide(angle) => BehaviorView::Hide(*angle),
            Behavior::EngageSoldier(soldier) => BehaviorView::EngageSoldier(*soldier),
            Behavior::SuppressFire(point) => BehaviorView::SuppressFire(*point),
            Behavior::Dead => BehaviorView::Dead,
            Behavior::Unconscious => BehaviorView::Unconscious,
        }
    }
}

impl BehaviorView {
    /// The route of a movement behavior.
    pub open spec fn paths(self) -> Option<Seq<Seq<WorldPoint>>> {
        match self {
            BehaviorView::MoveTo(paths)
            | BehaviorView::MoveFastTo(paths)
            | BehaviorView::SneakTo(paths)
            | BehaviorView::DriveTo(paths) => Some(paths),
            _ => None,
        }
    }

    /// The same behavior on another route.
    pub open spec fn with_paths(self, paths: Seq<Seq<WorldPoint>>) -> BehaviorView {
        match self {
            BehaviorView::MoveTo(_) => BehaviorView::MoveTo(paths),
            BehaviorView::MoveFastTo(_) => BehaviorView::MoveFastTo(paths),
            BehaviorView::SneakTo(_) => BehaviorView::SneakTo(paths),
            BehaviorView::DriveTo(_) => BehaviorView::DriveTo(paths),
            _ => self,
        }
    }

    /// A movement behavior is well formed when its route has a waypoint left
    /// and no empty part.
    pub open spec fn wf(self) -> bool {
        match self.paths() {
            Some(paths) => paths_wf(paths) && paths.len() > 0,
            None => true,
        }
    }

    /// When a leader's behavior is passed on to the squad.
    pub open spec fn propagation(self) -> BehaviorPropagation {
        match self {
            BehaviorView::Idle(_) | BehaviorView::Dead | BehaviorView::Unconscious => {
                BehaviorPropagation::Never
            },
            BehaviorView::MoveTo(_)
            | BehaviorView::MoveFastTo(_)
            | BehaviorView::SneakTo(_)
            | BehaviorView::DriveTo(_)
            | BehaviorView::RotateTo(_)
            | BehaviorView::Defend(_)
            | BehaviorView::Hide(_) => BehaviorPropagation::OnChange,
            BehaviorView::EngageSoldier(_) | BehaviorView::SuppressFire(_) => {
                BehaviorPropagation::Regularly
            },
        }
    }

    /// The direction that the behavior fixes by itself.
    pub open spec fn fixed_angle(self) -> Option<Angle> {
        match self {
            BehaviorView::RotateTo(angle)
            | BehaviorView::Defend(angle)
            | BehaviorView::Hide(angle) => Some(angle),
            _ => None,
        }
    }

    /// The point that a soldier under this behavior turns to.
    pub open spec fn looks_at(self) -> Option<WorldPoint> {
        match self {
            BehaviorView::SuppressFire(point) => Some(point),
            _ => match self.paths() {
                Some(paths) => paths_next_point(paths),
                None => None,
            },
        }
    }

    /// The order that amounts to this behavior, for behaviors that a player
    /// could have ordered.
    pub open spec fn to_order(self) -> Option<OrderView> {
        match self {
            BehaviorView::MoveTo(paths) | BehaviorView::DriveTo(paths) => Some(
                OrderView::MoveTo(paths, None),
            ),
            BehaviorView::MoveFastTo(paths) => Some(OrderView::MoveFastTo(paths, None)),
            BehaviorView::SneakTo(paths) => Some(OrderView::SneakTo(paths, None)),
            BehaviorView::Defend(angle) => Some(OrderView::Defend(angle)),
            BehaviorView::Hide(angle) => Some(OrderView::Hide(angle)),
            BehaviorView::SuppressFire(point) => Some(OrderView::SuppressFire(point)),
            _ => None,
        }
    }

    /// The behavior that carries out an order, for a soldier of the given
    /// mode and posture. An engagement starts idle until an opponent is in
    /// sight, and a movement without a waypoint has nothing to carry out.
    pub open spec fn from_order(order: OrderView, mode: BehaviorMode, body: Body) -> BehaviorView {
        match order {
            OrderView::Idle | OrderView::EngageSquad(_) => BehaviorView::Idle(body),
            OrderView::MoveTo(paths, _) => if !(paths_wf(paths) && paths.len() > 0) {
                BehaviorView::Idle(body)
            } else if mode == BehaviorMode::Vehicle {
                BehaviorView::DriveTo(paths)
            } else {
                BehaviorView::MoveTo(paths)
            },
            OrderView::MoveFastTo(paths, _) => if !(paths_wf(paths) && paths.len() > 0) {
                BehaviorView::Idle(body)
            } else {
                BehaviorView::MoveFastTo(paths)
            },
            OrderView::SneakTo(paths, _) => if !(paths_wf(paths) && paths.len() > 0) {
                BehaviorView::Idle(body)
            } else {
                BehaviorView::SneakTo(paths)
            },
            OrderView::Defend(angle) => BehaviorView::Defend(angle),
            OrderView::Hide(angle) => BehaviorView::Hide(angle),
            OrderView::SuppressFire(point) => BehaviorView::SuppressFire(point),
        }
    }

    /// The behavior once the soldier has reached the next waypoint.
    pub open spec fn after_step(self) -> BehaviorView {
        match self.paths() {
            Some(paths) => self.with_paths(paths_without_next(paths)),
            None => self,
        }
    }

    /// Whether the next waypoint is the last of the behavior's route.
    pub open spec fn on_last_point(self) -> bool {
        match self.paths() {
            Some(paths) => paths.len() == 1 && paths[0].len() == 1,
            None => false,
        }
    }
}

/// What `from_order` builds is well formed and is neither death nor
/// unconsciousness.
pub proof fn lemma_from_order_wf(order: OrderView, mode: BehaviorMode, body: Body)
    ensures
        BehaviorView::from_order(order, mode, body).wf(),
        !(BehaviorView::from_order(order, mode, body) is Dead),
        !(BehaviorView::from_order(order, mode, body) is Unconscious),
{
}

/// A well formed movement behavior that is not on its last point stays well
/// formed after a step.
pub proof fn lemma_after_step_wf(behavior: BehaviorView)
    requires
        behavior.wf(),
        !behavior.on_last_point(),
    ensures
        behavior.after_step().wf(),
{
    if let Some(paths) = behavior.paths() {
        lemma_paths_without_next(paths);
        let after = paths_without_next(paths);
        if paths[0].len() <= 1 {
            assert(paths[0].len() == 1);
            assert(paths.len() > 1);
        }
    }
}

impl Clone for Behavior {
    fn clone(&self) -> (copy: Behavior)
        ensures
            copy@ == self@,
    {
        match self {
            Behavior::Idle(body) => Behavior::Idle(*body),
            Behavior::MoveTo(paths) => Behavior::MoveTo(paths.clone()),
            Behavior::MoveFastTo(paths) => Behavior::MoveFastTo(paths.clone()),
            Behavior::SneakTo(paths) => Behavior::SneakTo(paths.clone()),
            Behavior::DriveTo(paths) => Behavior::DriveTo(paths.clone()),
            Behavior::RotateTo(angle) => Behavior::RotateTo(*angle),
            Behavior::Defend(angle) => Behavior::Defend(*angle),
            Behavior::Hide(angle) => Behavior::Hide(*angle),
            Behavior::EngageSoldier(soldier) => Behavior::EngageSoldier(*soldier),
            Behavior::SuppressFire(point) => Behavior::SuppressFire(*point),
            Behavior::Dead => Behavior::Dead,
            Behavior::Unconscious => Behavior::Unconscious,
        }
    }
}

impl Behavior {
    pub open spec fn wf(&self) -> bool {
        self@.wf()
    }

    /// When a leader's behavior is passed on to the squad.
    pub fn propagation(&self) -> (kind: BehaviorPropagation)
        ensures
            kind == self@.propagation(),
    {
        match self {
            Behavior::Idle(_) | Behavior::Dead | Behavior::Unconscious => {
                BehaviorPropagation::Never
            },
            Behavior::MoveTo(_)
            | Behavior::MoveFastTo(_)
            | Behavior::SneakTo(_)
            | Behavior::DriveTo(_)
            | Behavior::RotateTo(_)
            | Behavior::Defend(_)
            | Behavior::Hide(_) => BehaviorPropagation::OnChange,
            Behavior::EngageSoldier(_) | Behavior::SuppressFire(_) => {
                BehaviorPropagation::Regularly
            },
        }
    }

    /// The route of a movement behavior.
    pub fn paths(&self) -> (paths: Option<&WorldPaths>)
        ensures
            match paths {
                Some(p) => self@.paths() == Some(p@),
                None => self@.paths() is None,
            },
    {
        match self {
            Behavior::MoveTo(paths)
            | Behavior::MoveFastTo(paths)
            | Behavior::SneakTo(paths)
            | Behavior::DriveTo(paths) => Some(paths),
            _ => None,
        }
    }

    /// The direction that the behavior fixes by itself.
    pub fn fixed_angle(&self) -> (angle: Option<Angle>)
        ensures
            angle == self@.fixed_angle(),
    {
        match self {
            Behavior::RotateTo(angle) | Behavior::Defend(angle) | Behavior::Hide(angle) => Some(
                *angle,
            ),
            _ => None,
        }
    }

    /// The point that a soldier under this behavior turns to.
    pub fn looks_at(&self) -> (point: Option<WorldPoint>)
        ensures
            point == self@.looks_at(),
    {
        match self {
            Behavior::SuppressFire(point) => Some(*point),
            Behavior::MoveTo(paths)
            | Behavior::MoveFastTo(paths)
            | Behavior::SneakTo(paths)
            | Behavior::DriveTo(paths) => paths.next_point(),
            _ => None,
        }
    }

    /// The order that amounts to this behavior, for behaviors that a player
    /// could have ordered.
    pub fn to_order(&self) -> (order: Option<Order>)
        ensures
            match order {
                Some(o) => self@.to_order() == Some(o@),
                None => self@.to_order() is None,
            },
    {
        match self {
            Behavior::MoveTo(paths) | Behavior::DriveTo(paths) => Some(
                Order::MoveTo(paths.clone(), None),
            ),
            Behavior::MoveFastTo(paths) => Some(Order::MoveFastTo(paths.clone(), None)),
            Behavior::SneakTo(paths) => Some(Order::SneakTo(paths.clone(), None)),
            Behavior::Defend(angle) => Some(Order::Defend(*angle)),
            Behavior::Hide(angle) => Some(Order::Hide(*angle)),
            Behavior::SuppressFire(point) => Some(Order::SuppressFire(*point)),
            _ => None,
        }
    }

    /// The behavior that carries out an order.
    pub fn from_order(order: &Order, mode: BehaviorMode, body: Body) -> (behavior: Behavior)
        ensures
            behavior@ == BehaviorView::from_order(order@, mode, body),
    {
        match order {
            Order::Idle | Order::EngageSquad(_) => Behavior::Idle(body),
            Order::MoveTo(paths, _) => {
                if !(paths.is_wf() && paths.paths.len() > 0) {
                    Behavior::Idle(body)
                } else if mode == BehaviorMode::Vehicle {
                    Behavior::DriveTo(paths.clone())
                } else {
                    Behavior::MoveTo(paths.clone())
                }
            },
            Order::MoveFastTo(paths, _) => {
                if !(paths.is_wf() && paths.paths.len() > 0) {
                    Behavior::Idle(body)
                } else {
                    Behavior::MoveFastTo(paths.clone())
                }
            },
            Order::SneakTo(paths, _) => {
                if !(paths.is_wf() && paths.paths.len() > 0) {
                    Behavior::Idle(body)
                } else {
                    Behavior::SneakTo(paths.clone())
                }
            },
            Order::Defend(angle) => Behavior::Defend(*angle),
            Order::Hide(angle) => Behavior::Hide(*angle),
            Order::SuppressFire(point) => Behavior::SuppressFire(*point),
        }
    }

    /// Whether the behavior is well formed.
    pub fn is_wf(&self) -> (ok: bool)
        ensures
            ok == self.wf(),
    {
        match self {
            Behavior::MoveTo(paths)
            | Behavior::MoveFastTo(paths)
            | Behavior::SneakTo(paths)
            | Behavior::DriveTo(paths) => paths.is_wf() && paths.paths.len() > 0,
            _ => true,
        }
    }

    /// Whether the next waypoint is the last of the behavior's route.
    pub fn on_last_point(&self) -> (last: bool)
        ensures
            last == self@.on_last_point(),
    {
        match self {
            Behavior::MoveTo(paths)
            | Behavior::MoveFastTo(paths)
            | Behavior::SneakTo(paths)
            | Behavior::DriveTo(paths) => paths.paths.len() == 1 && paths.paths[0].len() == 1,
            _ => false,
        }
    }

    /// Records that the soldier reached the next waypoint.
    pub fn reach_step(&mut self)
        ensures
            final(self)@ == old(self)@.after_step(),
    {
        match self {
            Behavior::MoveTo(paths) => {
                paths.remove_next_point();
            },
            Behavior::MoveFastTo(paths) => {
                paths.remove_next_point();
            },
            Behavior::SneakTo(paths) => {
                paths.remove_next_point();
            },
            Behavior::DriveTo(paths) => {
                paths.remove_next_point();
            },
            _ => {},
        }
    }

    /// Whether both behaviors are the same.
    pub fn same_as(&self, other: &Behavior) -> (same: bool)
        ensures
            same == (self@ == other@),
    {
        match (self, other) {
            (Behavior::Idle(b1), Behavior::Idle(b2)) => *b1 == *b2,
            (Behavior::MoveTo(p1), Behavior::MoveTo(p2)) => p1.same_as(p2),
            (Behavior::MoveFastTo(p1), Behavior::MoveFastTo(p2)) => p1.same_as(p2),
            (Behavior::SneakTo(p1), Behavior::SneakTo(p2)) => p1.same_as(p2),
            (Behavior::DriveTo(p1), Behavior::DriveTo(p2)) => p1.same_as(p2),
            (Behavior::RotateTo(a1), Behavior::RotateTo(a2)) => *a1 == *a2,
            (Behavior::Defend(a1), Behavior::Defend(a2)) => *a1 == *a2,
            (Behavior::Hide(a1), Behavior::Hide(a2)) => *a1 == *a2,
            (Behavior::EngageSoldier(s1), Behavior::EngageSoldier(s2)) => *s1 == *s2,
            (Behavior::SuppressFire(p1), Behavior::SuppressFire(p2)) => *p1 == *p2,
            (Behavior::Dead, Behavior::Dead) => true,
            (Behavior::Unconscious, Behavior::Unconscious) => true,
            _ => false,
        }
    }
}

} // verus!
