//! Messages that change the battle state, one entity at a time.

use vstd::prelude::*;
use crate::behavior::{Behavior, BehaviorView};
use crate::game::Phase;
use crate::order::{Order, OrderView};
use crate::physics::event::{Explosion, Projectile};
use crate::types::{Angle, SoldierIndex, WorldPoint};

verus! {

/// A change to one soldier.
#[derive(Debug)]
pub enum SoldierMessage {
    SetWorldPosition(WorldPoint),
    SetBehavior(Behavior),
    SetOrder(Order),
    SetOrientation(Angle),
    ReachBehaviorStep,
    SetAlive(bool),
    SetUnconscious(bool),
    IncreaseUnderFire(u32),
    DecreaseUnderFire,
}

/// Mathematical value of a [`SoldierMessage`].
pub enum SoldierMessageView {
    SetWorldPosition(WorldPoint),
    SetBehavior(BehaviorView),
    SetOrder(OrderView),
    SetOrientation(Angle),
    ReachBehaviorStep,
    SetAlive(bool),
    SetUnconscious(bool),
    IncreaseUnderFire(u32),
    DecreaseUnderFire,
}

/// A change to the battle state.
#[derive(Debug)]
pub enum BattleStateMessage {
    IncrementFrameI,
    SetPhase(Phase),
    Soldier(SoldierIndex, SoldierMessage),
    PushExplosion(Explosion),
    RemoveExplosion(Explosion),
    PushProjectile(Projectile),
    RemoveProjectile(Projectile),
}

/// Mathematical value of a [`BattleStateMessage`].
pub enum BattleStateMessageView {
    IncrementFrameI,
    SetPhase(Phase),
    Soldier(SoldierIndex, SoldierMessageView),
    PushExplosion(Explosion),
    RemoveExplosion(Explosion),
    PushProjectile(Projectile),
    RemoveProjectile(Projectile),
}

/// What a reaction leaves to be done after it.
#[derive(Debug)]
pub enum SideEffect {
    /// The soldier reached the end of its route: its behavior ends and the
    /// given order, if any, follows.
    SoldierFinishHisBehavior(SoldierIndex, Option<Order>),
    /// The soldier's look changed; only observers act on it.
    RefreshEntityAnimation(SoldierIndex),
}

/// Mathematical value of a [`SideEffect`].
pub enum SideEffectView {
    SoldierFinishHisBehavior(SoldierIndex, Option<OrderView>),
    RefreshEntityAnimation(SoldierIndex),
}

impl View for SoldierMessage {
    type V = SoldierMessageView;

    open spec fn view(&self) -> SoldierMessageView {
        match self {
            SoldierMessage::SetWorldPosition(p) => SoldierMessageView::SetWorldPosition(*p),
            SoldierMessage::SetBehavior(b) => SoldierMessageView::SetBehavior(b@),
            SoldierMessage::SetOrder(o) => SoldierMessageView::SetOrder(o@),
            SoldierMessage::SetOrientation(a) => SoldierMessageView::SetOrientation(*a),
            SoldierMessage::ReachBehaviorStep => SoldierMessageView::ReachBehaviorStep,
            SoldierMessage::SetAlive(b) => SoldierMessageView::SetAlive(*b),
            SoldierMessage::SetUnconscious(b) => SoldierMessageView::SetUnconscious(*b),
            SoldierMessage::IncreaseUnderFire(v) => SoldierMessageView::IncreaseUnderFire(*v),
            SoldierMessage::DecreaseUnderFire => SoldierMessageView::DecreaseUnderFire,
        }
    }
}

impl View for BattleStateMessage {
    type V = BattleStateMessageView;

    open spec fn view(&self) -> BattleStateMessageView {
        match self {
            BattleStateMessage::IncrementFrameI => BattleStateMessageView::IncrementFrameI,
            BattleStateMessage::SetPhase(p) => BattleStateMessageView::SetPhase(*p),
            BattleStateMessage::Soldier(i, m) => BattleStateMessageView::Soldier(*i, m@),
            BattleStateMessage::PushExplosion(e) => BattleStateMessageView::PushExplosion(*e),
            BattleStateMessage::RemoveExplosion(e) => BattleStateMessageView::RemoveExplosion(*e),
            BattleStateMessage::PushProjectile(p) => BattleStateMessageView::PushProjectile(*p),
            BattleStateMessage::RemoveProjectile(p) => BattleStateMessageView::RemoveProjectile(*p),
        }
    }
}

impl View for SideEffect {
    type V = SideEffectView;

    open spec fn view(&self) -> SideEffectView {
        match self {
            SideEffect::SoldierFinishHisBehavior(i, follow) => {
                SideEffectView::SoldierFinishHisBehavior(
                    *i,
                    match follow {
                        Some(o) => Some(o@),
                        None => None,
                    },
                )
            },
            SideEffect::RefreshEntityAnimation(i) => SideEffectView::RefreshEntityAnimation(*i),
        }
    }
}

impl BattleStateMessageView {
    /// The soldier that the message is for, if it is for one.
    pub open spec fn target(self) -> Option<SoldierIndex> {
        match self {
            BattleStateMessageView::Soldier(i, _) => Some(i),
            _ => None,
        }
    }
}

impl Clone for SoldierMessage {
    fn clone(&self) -> (copy: SoldierMessage)
        ensures
            copy@ == self@,
    {
        match self {
            SoldierMessage::SetWorldPosition(p) => SoldierMessage::SetWorldPosition(*p),
            SoldierMessage::SetBehavior(b) => SoldierMessage::SetBehavior(b.clone()),
            SoldierMessage::SetOrder(o) => SoldierMessage::SetOrder(o.clone()),
            SoldierMessage::SetOrientation(a) => SoldierMessage::SetOrientation(*a),
            SoldierMessage::ReachBehaviorStep => SoldierMessage::ReachBehaviorStep,
            SoldierMessage::SetAlive(b) => SoldierMessage::SetAlive(*b),
            SoldierMessage::SetUnconscious(b) => SoldierMessage::SetUnconscious(*b),
            SoldierMessage::IncreaseUnderFire(v) => SoldierMessage::IncreaseUnderFire(*v),
            SoldierMessage::DecreaseUnderFire => SoldierMessage::DecreaseUnderFire,
        }
    }
}

impl Clone for BattleStateMessage {
    fn clone(&self) -> (copy: BattleStateMessage)
        ensures
            copy@ == self@,
    {
        match self {
            BattleStateMessage::IncrementFrameI => BattleStateMessage::IncrementFrameI,
            BattleStateMessage::SetPhase(p) => BattleStateMessage::SetPhase(*p),
            BattleStateMessage::Soldier(i, m) => BattleStateMessage::Soldier(*i, m.clone()),
            BattleStateMessage::PushExplosion(e) => BattleStateMessage::PushExplosion(*e),
            BattleStateMessage::RemoveExplosion(e) => BattleStateMessage::RemoveExplosion(*e),
            BattleStateMessage::PushProjectile(p) => BattleStateMessage::PushProjectile(*p),
            BattleStateMessage::RemoveProjectile(p) => BattleStateMessage::RemoveProjectile(*p),
        }
    }
}

impl Clone for SideEffect {
    fn clone(&self) -> (copy: SideEffect)
        ensures
            copy@ == self@,
    {
        match self {
            SideEffect::SoldierFinishHisBehavior(i, follow) => SideEffect::SoldierFinishHisBehavior(
                *i,
                match follow {
                    Some(o) => Some(o.clone()),
                    None => None,
                },
            ),
            SideEffect::RefreshEntityAnimation(i) => SideEffect::RefreshEntityAnimation(*i),
        }
    }
}

} // verus!
