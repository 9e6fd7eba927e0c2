//! The soldier: the atomic combat unit.

use vstd::prelude::*;
use crate::behavior::{
    lemma_after_step_wf, lemma_from_order_wf, Behavior, BehaviorMode, BehaviorView, Body,
};
use crate::config::{UNDER_FIRE_DANGER, UNDER_FIRE_MAX, UNDER_FIRE_TICK, UNDER_FIRE_WARNING};
use crate::game::Side;
use crate::order::path::paths_next_point;
use crate::order::{Order, OrderView};
use crate::types::{Angle, SoldierIndex, SquadUuid, WorldPoint};

verus! {

/// Whether a soldier can still act. Death is final.
#[derive(Clone, Copy, Debug, PartialEq, Eq, Structural)]
pub enum Status {
    Alive,
    Unconscious,
    Dead,
}

/// How strongly a soldier feels under fire.
#[derive(Clone, Copy, Debug, PartialEq, Eq, Structural)]
pub struct UnderFire(pub u32);

/// A soldier, with the one order and the one behavior it has at any time.
#[derive(Debug)]
pub struct Soldier {
    pub uuid: SoldierIndex,
    pub side: Side,
    pub squad_uuid: SquadUuid,
    pub world_point: WorldPoint,
    pub looking_direction: Angle,
    pub order: Order,
    pub behavior: Behavior,
    pub status: Status,
    pub under_fire: UnderFire,
}

/// Mathematical value of a [`Soldier`].
pub struct SoldierView {
    pub uuid: SoldierIndex,
    pub side: Side,
    pub squad_uuid: SquadUuid,
    pub world_point: WorldPoint,
    pub looking_direction: Angle,
    pub order: OrderView,
    pub behavior: BehaviorView,
    pub status: Status,
    pub under_fire: UnderFire,
}

impl View for Soldier {
    type V = SoldierView;

    open spec fn view(&self) -> SoldierView {
        SoldierView {
            uuid: self.uuid,
            side: self.side,
            squad_uuid: self.squad_uuid,
            world_point: self.world_point,
            looking_direction: self.looking_direction,
            order: self.order@,
            behavior: self.behavior@,
            status: self.status,
            under_fire: self.under_fire,
        }
    }
}

impl UnderFire {
    pub open spec fn spec_exist(&self) -> bool {
        self.0 > 0
    }

    pub open spec fn spec_is_warning(&self) -> bool {
        UNDER_FIRE_WARNING <= self.0 < UNDER_FIRE_DANGER
    }

    pub open spec fn spec_is_danger(&self) -> bool {
        UNDER_FIRE_DANGER <= self.0 < UNDER_FIRE_MAX
    }

    pub open spec fn spec_is_max(&self) -> bool {
        self.0 >= UNDER_FIRE_MAX
    }

    /// The intensity one tick later: lower by the fixed amount, never under 0.
    pub open spec fn spec_decreased(&self) -> UnderFire {
        if self.0 >= UNDER_FIRE_TICK {
            UnderFire((self.0 - UNDER_FIRE_TICK) as u32)
        } else {
            UnderFire(0)
        }
    }

    /// The intensity after an event that adds to it, never over the maximum.
    pub open spec fn spec_increased(&self, value: u32) -> UnderFire {
        if self.0 + value >= UNDER_FIRE_MAX {
            UnderFire(UNDER_FIRE_MAX)
        } else {
            UnderFire((self.0 + value) as u32)
        }
    }

    /// Whether the soldier feels under fire at all.
    #[verifier::when_used_as_spec(spec_exist)]
    pub fn exist(&self) -> (b: bool)
        ensures
            b == self.spec_exist(),
    {
        self.0 > 0
    }

    #[verifier::when_used_as_spec(spec_is_warning)]
    pub fn is_warning(&self) -> (b: bool)
        ensures
            b == self.spec_is_warning(),
    {
        UNDER_FIRE_WARNING <= self.0 && self.0 < UNDER_FIRE_DANGER
    }

    #[verifier::when_used_as_spec(spec_is_danger)]
    pub fn is_danger(&self) -> (b: bool)
        ensures
            b == self.spec_is_danger(),
    {
        UNDER_FIRE_DANGER <= self.0 && self.0 < UNDER_FIRE_MAX
    }

    #[verifier::when_used_as_spec(spec_is_max)]
    pub fn is_max(&self) -> (b: bool)
        ensures
            b == self.spec_is_max(),
    {
        self.0 >= UNDER_FIRE_MAX
    }

    #[verifier::when_used_as_spec(spec_decreased)]
    pub fn decreased(&self) -> (lower: UnderFire)
        ensures
            lower == self.spec_decreased(),
            lower.0 <= self.0,
    {
        if self.0 >= UNDER_FIRE_TICK {
            UnderFire(self.0 - UNDER_FIRE_TICK)
        } else {
            UnderFire(0)
        }
    }

    #[verifier::when_used_as_spec(spec_increased)]
    pub fn increased(&self, value: u32) -> (higher: UnderFire)
        ensures
            higher == self.spec_increased(value),
    {
        if value >= UNDER_FIRE_MAX || self.0 >= UNDER_FIRE_MAX - value {
            UnderFire(UNDER_FIRE_MAX)
        } else {
            UnderFire(self.0 + value)
        }
    }
}

impl SoldierView {
    /// A soldier is consistent when its behavior tells its status: dead
    /// exactly when the behavior is `Dead`, unconscious exactly when it is
    /// `Unconscious`; when a movement behavior has a waypoint left; and when
    /// the intensity of fire is within its range.
    pub open spec fn wf(self) -> bool {
        &&& self.status == Status::Dead <==> self.behavior is Dead
        &&& self.status == Status::Unconscious <==> self.behavior is Unconscious
        &&& self.behavior.wf()
        &&& self.under_fire.0 <= UNDER_FIRE_MAX
    }

    pub open spec fn alive(self) -> bool {
        self.status != Status::Dead
    }

    /// Whether the soldier can act: neither dead nor unconscious.
    pub open spec fn able(self) -> bool {
        self.status == Status::Alive
    }

    /// The soldier at another place.
    pub open spec fn with_world_point(self, point: WorldPoint) -> SoldierView {
        SoldierView { world_point: point, ..self }
    }

    /// The soldier facing another way.
    pub open spec fn with_orientation(self, angle: Angle) -> SoldierView {
        SoldierView { looking_direction: angle, ..self }
    }

    /// The soldier under another behavior. A soldier who cannot act keeps the
    /// behavior of its status, and nobody is given `Dead`, `Unconscious` or a
    /// movement without a waypoint as a behavior.
    pub open spec fn with_behavior(self, behavior: BehaviorView) -> SoldierView {
        if self.able() && behavior.wf() && !(behavior is Dead) && !(behavior is Unconscious) {
            SoldierView { behavior, ..self }
        } else {
            self
        }
    }

    /// The soldier under another order. The dead take no order.
    pub open spec fn with_order(self, order: OrderView) -> SoldierView {
        if self.alive() {
            SoldierView { order, ..self }
        } else {
            self
        }
    }

    /// The soldier once the next waypoint of its movement is reached. On the
    /// last waypoint nothing changes here: finishing the behavior is a step
    /// of its own.
    pub open spec fn after_step(self) -> SoldierView {
        if self.able() && self.behavior.paths() is Some && !self.behavior.on_last_point() {
            SoldierView {
                behavior: self.behavior.after_step(),
                order: match self.order.paths() {
                    Some(paths) => if paths_next_point(paths) is Some {
                        self.order.after_step()
                    } else {
                        self.order
                    },
                    None => self.order,
                },
                ..self
            }
        } else {
            self
        }
    }

    /// Whether reaching the next waypoint finishes the soldier's behavior.
    pub open spec fn step_finishes(self) -> bool {
        self.able() && self.behavior.on_last_point()
    }

    /// The soldier once its behavior is finished: the follow-up order becomes
    /// the order, with the behavior that carries it out; without a follow-up
    /// the soldier is idle.
    pub open spec fn finished(self, follow: Option<OrderView>, mode: BehaviorMode, body: Body) -> SoldierView {
        if self.able() {
            match follow {
                Some(order) => SoldierView {
                    behavior: BehaviorView::from_order(order, mode, body),
                    order,
                    ..self
                },
                None => SoldierView {
                    behavior: BehaviorView::Idle(body),
                    order: OrderView::Idle,
                    ..self
                },
            }
        } else {
            self
        }
    }

    /// The soldier after `SetAlive`: `false` kills, for good; `true` changes
    /// nothing.
    pub open spec fn with_alive(self, alive: bool) -> SoldierView {
        if !alive && self.alive() {
            SoldierView {
                status: Status::Dead,
                behavior: BehaviorView::Dead,
                order: OrderView::Idle,
                ..self
            }
        } else {
            self
        }
    }

    /// The soldier after `SetUnconscious`: `true` stuns one who can act,
    /// `false` wakes one who is stunned.
    pub open spec fn with_unconscious(self, unconscious: bool) -> SoldierView {
        if unconscious && self.status == Status::Alive {
            SoldierView { status: Status::Unconscious, behavior: BehaviorView::Unconscious, ..self }
        } else if !unconscious && self.status == Status::Unconscious {
            SoldierView {
                status: Status::Alive,
                behavior: BehaviorView::Idle(Body::Lying),
                ..self
            }
        } else {
            self
        }
    }

    pub open spec fn with_under_fire(self, under_fire: UnderFire) -> SoldierView {
        SoldierView { under_fire, ..self }
    }
}

/// Every change that a soldier accepts keeps it consistent.
pub proof fn lemma_soldier_changes_keep_wf(s: SoldierView)
    requires
        s.wf(),
    ensures
        forall|p: WorldPoint| #[trigger] s.with_world_point(p).wf(),
        forall|a: Angle| #[trigger] s.with_orientation(a).wf(),
        forall|b: BehaviorView| #[trigger] s.with_behavior(b).wf(),
        forall|o: OrderView| #[trigger] s.with_order(o).wf(),
        s.after_step().wf(),
        forall|follow: Option<OrderView>, mode: BehaviorMode, body: Body| #[trigger]
            s.finished(follow, mode, body).wf(),
        forall|alive: bool| #[trigger] s.with_alive(alive).wf(),
        forall|u: bool| #[trigger] s.with_unconscious(u).wf(),
        s.with_under_fire(s.under_fire.spec_decreased()).wf(),
        forall|v: u32| #[trigger] s.with_under_fire(s.under_fire.spec_increased(v)).wf(),
{
    if s.able() && s.behavior.paths() is Some && !s.behavior.on_last_point() {
        lemma_after_step_wf(s.behavior);
    }
    assert forall|follow: Option<OrderView>, mode: BehaviorMode, body: Body| #[trigger]
        s.finished(follow, mode, body).wf() by {
        if let Some(order) = follow {
            lemma_from_order_wf(order, mode, body);
        }
    }
}

impl Clone for Soldier {
    fn clone(&self) -> (copy: Soldier)
        ensures
            copy@ == self@,
    {
        Soldier {
            uuid: self.uuid,
            side: self.side,
            squad_uuid: self.squad_uuid,
            world_point: self.world_point,
            looking_direction: self.looking_direction,
            order: self.order.clone(),
            behavior: self.behavior.clone(),
            status: self.status,
            under_fire: self.under_fire,
        }
    }
}

impl Soldier {
    pub open spec fn wf(&self) -> bool {
        self@.wf()
    }

    /// A soldier who has just joined: standing idle, facing 0, not under fire.
    pub fn new(uuid: SoldierIndex, side: Side, squad_uuid: SquadUuid, world_point: WorldPoint) -> (s:
        Soldier)
        ensures
            s@ == (SoldierView {
                uuid,
                side,
                squad_uuid,
                world_point,
                looking_direction: Angle(0),
                order: OrderView::Idle,
                behavior: BehaviorView::Idle(Body::StandUp),
                status: Status::Alive,
                under_fire: UnderFire(0),
            }),
            s.wf(),
    {
        Soldier {
            uuid,
            side,
            squad_uuid,
            world_point,
            looking_direction: Angle(0),
            order: Order::Idle,
            behavior: Behavior::Idle(Body::StandUp),
            status: Status::Alive,
            under_fire: UnderFire(0),
        }
    }

    /// Whether the soldier is consistent.
    pub fn is_wf(&self) -> (ok: bool)
        ensures
            ok == self.wf(),
    {
        let dead = match self.status {
            Status::Dead => true,
            _ => false,
        };
        let unconscious = match self.status {
            Status::Unconscious => true,
            _ => false,
        };
        let behaves_dead = match &self.behavior {
            Behavior::Dead => true,
            _ => false,
        };
        let behaves_unconscious = match &self.behavior {
            Behavior::Unconscious => true,
            _ => false,
        };
        dead == behaves_dead && unconscious == behaves_unconscious && self.behavior.is_wf()
            && self.under_fire.0 <= UNDER_FIRE_MAX
    }

    pub fn uuid(&self) -> (uuid: SoldierIndex)
        ensures
            uuid == self@.uuid,
    {
        self.uuid
    }

    pub fn side(&self) -> (side: &Side)
        ensures
            *side == self@.side,
    {
        &self.side
    }

    pub fn squad_uuid(&self) -> (squad: SquadUuid)
        ensures
            squad == self@.squad_uuid,
    {
        self.squad_uuid
    }

    pub fn world_point(&self) -> (point: WorldPoint)
        ensures
            point == self@.world_point,
    {
        self.world_point
    }

    pub fn looking_direction(&self) -> (angle: Angle)
        ensures
            angle == self@.looking_direction,
    {
        self.looking_direction
    }

    pub fn order(&self) -> (order: &Order)
        ensures
            order@ == self@.order,
    {
        &self.order
    }

    pub fn behavior(&self) -> (behavior: &Behavior)
        ensures
            behavior@ == self@.behavior,
    {
        &self.behavior
    }

    pub fn status(&self) -> (status: Status)
        ensures
            status == self@.status,
    {
        self.status
    }

    pub fn under_fire(&self) -> (under_fire: &UnderFire)
        ensures
            *under_fire == self@.under_fire,
    {
        &self.under_fire
    }

    pub fn alive(&self) -> (alive: bool)
        ensures
            alive == self@.alive(),
    {
        match self.status {
            Status::Dead => false,
            _ => true,
        }
    }

    /// Whether the soldier can act: neither dead nor unconscious.
    pub fn able(&self) -> (able: bool)
        ensures
            able == self@.able(),
    {
        match self.status {
            Status::Alive => true,
            _ => false,
        }
    }

    /// Only the living feel an explosion.
    pub fn can_feel_explosion(&self) -> (feels: bool)
        ensures
            feels == self@.alive(),
    {
        self.alive()
    }

    /// Only those who can act cry out.
    pub fn can_produce_sound(&self) -> (sounds: bool)
        ensures
            sounds == self@.able(),
    {
        self.able()
    }

    pub fn set_world_point(&mut self, point: WorldPoint)
        ensures
            final(self)@ == old(self)@.with_world_point(point),
    {
        self.world_point = point;
    }

    pub fn set_looking_direction(&mut self, angle: Angle)
        ensures
            final(self)@ == old(self)@.with_orientation(angle),
    {
        self.looking_direction = angle;
    }

    pub fn set_behavior(&mut self, behavior: Behavior)
        ensures
            final(self)@ == old(self)@.with_behavior(behavior@),
    {
        let admissible = match &behavior {
            Behavior::Dead | Behavior::Unconscious => false,
            _ => behavior.is_wf(),
        };
        if self.able() && admissible {
            self.behavior = behavior;
        }
    }

    pub fn set_order(&mut self, order: Order)
        ensures
            final(self)@ == old(self)@.with_order(order@),
    {
        if self.alive() {
            self.order = order;
        }
    }

    /// Records that the next waypoint is reached, and tells whether that
    /// finishes the behavior.
    pub fn reach_behavior_step(&mut self) -> (finished: bool)
        ensures
            final(self)@ == old(self)@.after_step(),
            finished == old(self)@.step_finishes(),
    {
        if !self.able() {
            return false;
        }
        if self.behavior.on_last_point() {
            return true;
        }
        if self.behavior.paths().is_some() {
            self.behavior.reach_step();
            let advance = match self.order.paths() {
                Some(paths) => paths.next_point().is_some(),
                None => false,
            };
            if advance {
                self.order.reach_step();
            }
        }
        false
    }

    /// Ends the behavior and takes up what follows.
    pub fn finish_behavior(&mut self, follow: Option<Order>, mode: BehaviorMode, body: Body)
        ensures
            final(self)@ == old(self)@.finished(
                match follow {
                    Some(o) => Some(o@),
                    None => None,
                },
                mode,
                body,
            ),
    {
        if self.able() {
            match follow {
                Some(order) => {
                    self.behavior = Behavior::from_order(&order, mode, body);
                    self.order = order;
                },
                None => {
                    self.behavior = Behavior::Idle(body);
                    self.order = Order::Idle;
                },
            }
        }
    }

    pub fn set_alive(&mut self, alive: bool)
        ensures
            final(self)@ == old(self)@.with_alive(alive),
    {
        if !alive && self.alive() {
            self.status = Status::Dead;
            self.behavior = Behavior::Dead;
            self.order = Order::Idle;
        }
    }

    pub fn set_unconscious(&mut self, unconscious: bool)
        ensures
            final(self)@ == old(self)@.with_unconscious(unconscious),
    {
        if unconscious && self.able() {
            self.status = Status::Unconscious;
            self.behavior = Behavior::Unconscious;
        } else if !unconscious && self.status == Status::Unconscious {
            self.status = Status::Alive;
            self.behavior = Behavior::Idle(Body::Lying);
        }
    }

    pub fn increase_under_fire(&mut self, value: u32)
        ensures
            final(self)@ == old(self)@.with_under_fire(old(self)@.under_fire.spec_increased(value)),
    {
        self.under_fire = self.under_fire.increased(value);
    }

    pub fn decrease_under_fire(&mut self)
        ensures
            final(self)@ == old(self)@.with_under_fire(old(self)@.under_fire.spec_decreased()),
    {
        self.under_fire = self.under_fire.decreased();
    }
}

} // verus!
