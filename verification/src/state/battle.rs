//! The authoritative store of a battle: soldiers, squads, vehicles and the
//! events in progress, changed only by reacting to messages.

use vstd::prelude::*;
use crate::behavior::{BehaviorMode, Body};
use crate::entity::soldier::{lemma_soldier_changes_keep_wf, Soldier, SoldierView};
use crate::entity::squad::{Squad, SquadView};
use crate::entity::vehicle::{OnBoardPlace, Vehicle, VehicleView};
use crate::game::{Phase, Side};
use crate::map::{BattleMap, BattleMapView};
use crate::order::OrderView;
use crate::physics::event::{Explosion, Projectile};
use crate::state::message::{
    BattleStateMessage, BattleStateMessageView, SideEffect, SideEffectView, SoldierMessage,
    SoldierMessageView,
};
use crate::types::{SoldierIndex, SquadUuid, VehicleIndex, WorldPoint};

verus! {

/// A soldier's place aboard a vehicle.
#[derive(Clone, Copy, Debug, PartialEq, Eq, Structural)]
pub struct OnBoard {
    pub soldier: SoldierIndex,
    pub vehicle: VehicleIndex,
    pub place: OnBoardPlace,
}

/// The whole of a battle.
#[derive(Debug)]
pub struct BattleState {
    pub map: BattleMap,
    pub frame_i: u64,
    pub phase: Phase,
    pub soldiers: Vec<Soldier>,
    pub squads: Vec<Squad>,
    pub vehicles: Vec<Vehicle>,
    pub soldier_on_board: Vec<OnBoard>,
    pub explosions: Vec<Explosion>,
    pub projectiles: Vec<Projectile>,
}

/// Mathematical value of a [`BattleState`].
pub struct BattleStateView {
    pub map: BattleMapView,
    pub frame_i: u64,
    pub phase: Phase,
    pub soldiers: Seq<SoldierView>,
    pub squads: Seq<SquadView>,
    pub vehicles: Seq<VehicleView>,
    pub soldier_on_board: Seq<OnBoard>,
    pub explosions: Seq<Explosion>,
    pub projectiles: Seq<Projectile>,
}

impl View for BattleState {
    type V = BattleStateView;

    open spec fn view(&self) -> BattleStateView {
        BattleStateView {
            map: self.map@,
            frame_i: self.frame_i,
            phase: self.phase,
            soldiers: self.soldiers@.map_values(|s: Soldier| s@),
            squads: self.squads@.map_values(|s: Squad| s@),
            vehicles: self.vehicles@.map_values(|v: Vehicle| v@),
            soldier_on_board: self.soldier_on_board@,
            explosions: self.explosions@,
            projectiles: self.projectiles@,
        }
    }
}

/// Whether a soldier of the list is alive.
pub open spec fn alive_in(soldiers: Seq<SoldierView>, i: SoldierIndex) -> bool {
    i.0 < soldiers.len() && soldiers[i.0 as int].alive()
}

/// The first living member from position `from` on, in the squad's order.
pub open spec fn first_alive_from(
    soldiers: Seq<SoldierView>,
    members: Seq<SoldierIndex>,
    from: int,
) -> Option<SoldierIndex>
    decreases members.len() - from,
{
    if from < 0 || from >= members.len() {
        None
    } else if alive_in(soldiers, members[from]) {
        Some(members[from])
    } else {
        first_alive_from(soldiers, members, from + 1)
    }
}

/// Who leads a squad: its leader as long as that soldier is a living member,
/// else the first living member in the squad's order; a squad without a
/// living member keeps the leader it had.
pub open spec fn elected_leader(soldiers: Seq<SoldierView>, squad: SquadView) -> SoldierIndex {
    if alive_in(soldiers, squad.leader) && squad.members.contains(squad.leader) {
        squad.leader
    } else {
        match first_alive_from(soldiers, squad.members, 0) {
            Some(m) => m,
            None => squad.leader,
        }
    }
}

/// Whether a squad has a living member.
pub open spec fn has_alive_member(soldiers: Seq<SoldierView>, squad: SquadView) -> bool {
    exists|k: int| 0 <= k < squad.members.len() && alive_in(soldiers, #[trigger] squad.members[k])
}

/// The first living member is a living member, and there is none exactly
/// when no member lives.
pub proof fn lemma_first_alive(soldiers: Seq<SoldierView>, members: Seq<SoldierIndex>, from: int)
    requires
        0 <= from,
    ensures
        match first_alive_from(soldiers, members, from) {
            Some(m) => alive_in(soldiers, m) && exists|k: int|
                from <= k < members.len() && #[trigger] members[k] == m && forall|j: int|
                    from <= j < k ==> !alive_in(soldiers, #[trigger] members[j]),
            None => forall|k: int|
                from <= k < members.len() ==> !alive_in(soldiers, #[trigger] members[k]),
        },
    decreases members.len() - from,
{
    if from < members.len() {
        if !alive_in(soldiers, members[from]) {
            lemma_first_alive(soldiers, members, from + 1);
            match first_alive_from(soldiers, members, from + 1) {
                Some(m) => {
                    let k = choose|k: int|
                        from + 1 <= k < members.len() && #[trigger] members[k] == m && forall|j: int|
                            from + 1 <= j < k ==> !alive_in(soldiers, #[trigger] members[j]);
                    assert(from <= k < members.len() && members[k] == m);
                },
                None => {},
            }
        } else {
            assert(members[from] == members[from]);
        }
    }
}

impl SoldierView {
    /// The soldier after a message for it.
    pub open spec fn react(self, message: SoldierMessageView) -> SoldierView {
        match message {
            SoldierMessageView::SetWorldPosition(p) => self.with_world_point(p),
            SoldierMessageView::SetBehavior(b) => self.with_behavior(b),
            SoldierMessageView::SetOrder(o) => self.with_order(o),
            SoldierMessageView::SetOrientation(a) => self.with_orientation(a),
            SoldierMessageView::ReachBehaviorStep => self.after_step(),
            SoldierMessageView::SetAlive(alive) => self.with_alive(alive),
            SoldierMessageView::SetUnconscious(u) => self.with_unconscious(u),
            SoldierMessageView::IncreaseUnderFire(v) => self.with_under_fire(
                self.under_fire.spec_increased(v),
            ),
            SoldierMessageView::DecreaseUnderFire => self.with_under_fire(
                self.under_fire.spec_decreased(),
            ),
        }
    }

    /// What is left to do after the soldier took a message.
    pub open spec fn side_effects(self, message: SoldierMessageView) -> Seq<SideEffectView> {
        match message {
            SoldierMessageView::ReachBehaviorStep => if self.step_finishes() {
                seq![SideEffectView::SoldierFinishHisBehavior(self.uuid, self.order.follow_up())]
            } else {
                Seq::empty()
            },
            SoldierMessageView::SetBehavior(_) => seq![
                SideEffectView::RefreshEntityAnimation(self.uuid),
            ],
            _ => Seq::empty(),
        }
    }
}

/// A soldier keeps its identity, side and squad through every message, stays
/// consistent, and never comes back from the dead.
pub proof fn lemma_soldier_react(s: SoldierView, message: SoldierMessageView)
    requires
        s.wf(),
    ensures
        s.react(message).wf(),
        s.react(message).uuid == s.uuid,
        s.react(message).side == s.side,
        s.react(message).squad_uuid == s.squad_uuid,
        !s.alive() ==> s.react(message) == s.with_world_point(s.react(message).world_point)
            .with_orientation(s.react(message).looking_direction).with_under_fire(
            s.react(message).under_fire,
        ),
        s.react(message).alive() ==> s.alive(),
        !(message matches SoldierMessageView::SetAlive(false)) ==> s.react(message).alive()
            == s.alive(),
{
    lemma_soldier_changes_keep_wf(s);
}

impl BattleStateView {
    /// The soldier's place aboard a vehicle: that of its first entry in the
    /// list of places taken.
    pub open spec fn vehicle_place_from(self, i: SoldierIndex, from: int) -> Option<OnBoard>
        decreases self.soldier_on_board.len() - from,
    {
        if from < 0 || from >= self.soldier_on_board.len() {
            None
        } else if self.soldier_on_board[from].soldier == i {
            Some(self.soldier_on_board[from])
        } else {
            self.vehicle_place_from(i, from + 1)
        }
    }

    pub open spec fn soldier_vehicle_place(self, i: SoldierIndex) -> Option<OnBoard> {
        self.vehicle_place_from(i, 0)
    }

    /// A soldier is in vehicle mode exactly when it sits at a driver's place.
    pub open spec fn soldier_behavior_mode(self, i: SoldierIndex) -> BehaviorMode {
        match self.soldier_vehicle_place(i) {
            Some(on_board) => if on_board.place == OnBoardPlace::Driver {
                BehaviorMode::Vehicle
            } else {
                BehaviorMode::Ground
            },
            None => BehaviorMode::Ground,
        }
    }

    /// Posture of a soldier at rest: crouched aboard a vehicle, standing
    /// elsewhere.
    pub open spec fn soldier_body(self, i: SoldierIndex) -> Body {
        if self.soldier_vehicle_place(i) is Some {
            Body::Crouched
        } else {
            Body::StandUp
        }
    }

    /// One squad is in order when it carries its own identity, its members
    /// are soldiers of the state who name it as their squad, and, as long as
    /// one member lives, its leader is a living member.
    pub open spec fn squad_ok(self, q: int) -> bool {
        let squad = self.squads[q];
        &&& squad.uuid.0 == q
        &&& forall|k: int|
            0 <= k < squad.members.len() ==> (#[trigger] squad.members[k]).0 < self.soldiers.len()
                && self.soldiers[squad.members[k].0 as int].squad_uuid.0 == q
        &&& has_alive_member(self.soldiers, squad) ==> alive_in(self.soldiers, squad.leader)
            && squad.members.contains(squad.leader)
    }

    /// The state is consistent.
    pub open spec fn wf(self) -> bool {
        &&& self.map.wf()
        &&& forall|i: int|
            0 <= i < self.soldiers.len() ==> {
                &&& (#[trigger] self.soldiers[i]).uuid.0 == i
                &&& self.soldiers[i].wf()
                &&& self.soldiers[i].squad_uuid.0 < self.squads.len()
            }
        &&& forall|q: int| 0 <= q < self.squads.len() ==> #[trigger] self.squad_ok(q)
        &&& forall|v: int| 0 <= v < self.vehicles.len() ==> (#[trigger] self.vehicles[v]).uuid.0 == v
        &&& forall|k: int|
            0 <= k < self.soldier_on_board.len() ==> {
                &&& (#[trigger] self.soldier_on_board[k]).soldier.0 < self.soldiers.len()
                &&& self.soldier_on_board[k].vehicle.0 < self.vehicles.len()
            }
    }

    /// Whether the soldier leads the squad it names as its own.
    pub open spec fn is_squad_leader(self, i: SoldierIndex) -> bool {
        &&& i.0 < self.soldiers.len()
        &&& self.soldiers[i.0 as int].squad_uuid.0 < self.squads.len()
        &&& self.squads[self.soldiers[i.0 as int].squad_uuid.0 as int].leader == i
    }

    /// The state with one more soldier, new in the given squad.
    pub open spec fn with_soldier(self, side: Side, squad: SquadUuid, world_point: WorldPoint) -> BattleStateView {
        let uuid = SoldierIndex(self.soldiers.len() as usize);
        let soldiers = self.soldiers.push(
            SoldierView {
                uuid,
                side,
                squad_uuid: squad,
                world_point,
                looking_direction: crate::types::Angle(0),
                order: OrderView::Idle,
                behavior: crate::behavior::BehaviorView::Idle(Body::StandUp),
                status: crate::entity::soldier::Status::Alive,
                under_fire: crate::entity::soldier::UnderFire(0),
            },
        );
        let joined = SquadView {
            members: self.squads[squad.0 as int].members.push(uuid),
            ..self.squads[squad.0 as int]
        };
        BattleStateView {
            soldiers,
            squads: self.squads.update(
                squad.0 as int,
                SquadView { leader: elected_leader(soldiers, joined), ..joined },
            ),
            ..self
        }
    }

    /// The squads once the leaders are settled again after soldier `i`
    /// died: only the squad of that soldier can get a new leader.
    pub open spec fn squads_after(self, soldiers: Seq<SoldierView>, i: SoldierIndex) -> Seq<
        SquadView,
    > {
        if i.0 < soldiers.len() && soldiers[i.0 as int].squad_uuid.0 < self.squads.len() {
            let q = soldiers[i.0 as int].squad_uuid.0 as int;
            self.squads.update(
                q,
                SquadView { leader: elected_leader(soldiers, self.squads[q]), ..self.squads[q] },
            )
        } else {
            self.squads
        }
    }

    /// The state after a message. A message for a soldier that the state does
    /// not hold changes nothing; an event that is already over at `frame_i`
    /// is not taken in.
    pub open spec fn react(self, message: BattleStateMessageView, frame_i: u64) -> BattleStateView {
        match message {
            BattleStateMessageView::IncrementFrameI => BattleStateView {
                frame_i: if self.frame_i == u64::MAX {
                    0
                } else {
                    (self.frame_i + 1) as u64
                },
                ..self
            },
            BattleStateMessageView::SetPhase(phase) => BattleStateView { phase, ..self },
            BattleStateMessageView::Soldier(i, m) => if i.0 < self.soldiers.len() {
                let soldiers = self.soldiers.update(i.0 as int, self.soldiers[i.0 as int].react(m));
                BattleStateView {
                    soldiers,
                    squads: if m == SoldierMessageView::SetAlive(false) {
                        self.squads_after(soldiers, i)
                    } else {
                        self.squads
                    },
                    ..self
                }
            } else {
                self
            },
            BattleStateMessageView::PushExplosion(e) => if e.spec_finished(frame_i) {
                self
            } else {
                BattleStateView { explosions: self.explosions.push(e), ..self }
            },
            BattleStateMessageView::RemoveExplosion(e) => BattleStateView {
                explosions: self.explosions.remove_value(e),
                ..self
            },
            BattleStateMessageView::PushProjectile(p) => if p.spec_finished(frame_i) {
                self
            } else {
                BattleStateView { projectiles: self.projectiles.push(p), ..self }
            },
            BattleStateMessageView::RemoveProjectile(p) => BattleStateView {
                projectiles: self.projectiles.remove_value(p),
                ..self
            },
        }
    }

    /// What a message leaves to be done once the state has reacted to it.
    pub open spec fn side_effects(self, message: BattleStateMessageView) -> Seq<SideEffectView> {
        match message {
            BattleStateMessageView::Soldier(i, m) => if i.0 < self.soldiers.len() {
                self.soldiers[i.0 as int].side_effects(m)
            } else {
                Seq::empty()
            },
            _ => Seq::empty(),
        }
    }

    /// The state once a side effect is carried out.
    pub open spec fn apply(self, effect: SideEffectView) -> BattleStateView {
        match effect {
            SideEffectView::SoldierFinishHisBehavior(i, follow) => if i.0 < self.soldiers.len() {
                BattleStateView {
                    soldiers: self.soldiers.update(
                        i.0 as int,
                        self.soldiers[i.0 as int].finished(
                            follow,
                            self.soldier_behavior_mode(i),
                            self.soldier_body(i),
                        ),
                    ),
                    ..self
                }
            } else {
                self
            },
            SideEffectView::RefreshEntityAnimation(_) => self,
        }
    }

    /// The state after each message of a sequence has been reacted to, in
    /// order and at the frame that the state then has, together with the
    /// side effects gathered on the way.
    pub open spec fn react_each(self, messages: Seq<BattleStateMessageView>) -> (
        BattleStateView,
        Seq<SideEffectView>,
    )
        decreases messages.len(),
    {
        if messages.len() == 0 {
            (self, Seq::empty())
        } else {
            let (state, effects) = self.react_each(messages.drop_last());
            (
                state.react(messages.last(), state.frame_i),
                effects + state.side_effects(messages.last()),
            )
        }
    }

    /// The state after a batch of messages: all are reacted to, then the side
    /// effects that they left are carried out.
    pub open spec fn react_all(self, messages: Seq<BattleStateMessageView>) -> BattleStateView {
        let (state, effects) = self.react_each(messages);
        state.apply_all(effects)
    }

    /// The state after one message and the side effects it leaves.
    pub open spec fn react_with_effects(self, message: BattleStateMessageView, frame_i: u64) -> BattleStateView {
        self.react(message, frame_i).apply_all(self.side_effects(message))
    }

    /// The state once a sequence of side effects is carried out.
    pub open spec fn apply_all(self, effects: Seq<SideEffectView>) -> BattleStateView
        decreases effects.len(),
    {
        if effects.len() == 0 {
            self
        } else {
            self.apply_all(effects.drop_last()).apply(effects.last())
        }
    }
}

/// A consistent state stays consistent when a soldier joins a squad of it.
pub proof fn lemma_with_soldier_keeps_wf(
    state: BattleStateView,
    side: Side,
    squad: SquadUuid,
    world_point: WorldPoint,
)
    requires
        state.wf(),
        squad.0 < state.squads.len(),
        state.soldiers.len() < usize::MAX,
    ensures
        state.with_soldier(side, squad, world_point).wf(),
{
    let after = state.with_soldier(side, squad, world_point);
    let uuid = SoldierIndex(state.soldiers.len() as usize);
    assert forall|j: SoldierIndex| j != uuid implies alive_in(after.soldiers, j) == alive_in(
        state.soldiers,
        j,
    ) by {}
    assert forall|q: int| 0 <= q < after.squads.len() implies #[trigger] after.squad_ok(q) by {
        assert(state.squad_ok(q));
        let before = state.squads[q];
        let now = after.squads[q];
        if q == squad.0 {
            let joined = SquadView { members: before.members.push(uuid), ..before };
            assert(now.members == joined.members);
            assert forall|k: int| 0 <= k < now.members.len() implies (#[trigger] now.members[k]).0
                < after.soldiers.len() && after.soldiers[now.members[k].0 as int].squad_uuid.0
                == q by {
                if k < before.members.len() {
                    assert(now.members[k] == before.members[k]);
                }
            }
            lemma_first_alive(after.soldiers, joined.members, 0);
            assert(joined.members[before.members.len() as int] == uuid);
            assert(alive_in(after.soldiers, uuid));
            if alive_in(after.soldiers, before.leader) && joined.members.contains(before.leader) {
                assert(now.leader == before.leader);
            }
        } else {
            assert(now == before);
            if has_alive_member(after.soldiers, now) {
                let k = choose|k: int|
                    0 <= k < now.members.len() && alive_in(after.soldiers, #[trigger] now.members[k]);
                assert(alive_in(state.soldiers, before.members[k]));
            }
        }
    }
}

/// Reacting keeps a consistent state consistent.
pub proof fn lemma_react_keeps_wf(state: BattleStateView, message: BattleStateMessageView, frame_i: u64)
    requires
        state.wf(),
    ensures
        state.react(message, frame_i).wf(),
{
    let after = state.react(message, frame_i);
    match message {
        BattleStateMessageView::Soldier(i, m) => {
            if i.0 < state.soldiers.len() {
                let old_soldier = state.soldiers[i.0 as int];
                lemma_soldier_react(old_soldier, m);
                assert forall|q: int| 0 <= q < after.squads.len() implies #[trigger] after.squad_ok(
                    q,
                ) by {
                    lemma_squad_ok_after(state, i, m, q);
                }
            }
        },
        _ => {
            assert forall|q: int| 0 <= q < after.squads.len() implies #[trigger] after.squad_ok(
                q,
            ) by {
                assert(state.squad_ok(q));
            }
        },
    }
}

proof fn lemma_squad_ok_after(state: BattleStateView, i: SoldierIndex, m: SoldierMessageView, q: int)
    requires
        state.wf(),
        i.0 < state.soldiers.len(),
        0 <= q < state.squads.len(),
    ensures
        state.react(BattleStateMessageView::Soldier(i, m), 0).squad_ok(q),
{
    let after = state.react(BattleStateMessageView::Soldier(i, m), 0);
    let old_soldier = state.soldiers[i.0 as int];
    let new_soldier = old_soldier.react(m);
    lemma_soldier_react(old_soldier, m);
    assert(state.squad_ok(q));
    let own = old_soldier.squad_uuid.0 as int;
    let squad = state.squads[q];
    let new_squad = after.squads[q];
    assert(new_squad.members == squad.members);
    assert(new_squad.uuid == squad.uuid);
    // Whoever lives after the message lived before it.
    assert forall|j: SoldierIndex| alive_in(after.soldiers, j) implies alive_in(
        state.soldiers,
        j,
    ) by {}
    if has_alive_member(after.soldiers, new_squad) {
        let k = choose|k: int|
            0 <= k < new_squad.members.len() && alive_in(
                after.soldiers,
                #[trigger] new_squad.members[k],
            );
        assert(alive_in(state.soldiers, squad.members[k]));
        assert(has_alive_member(state.soldiers, squad));
        if m == SoldierMessageView::SetAlive(false) && q == own {
            lemma_first_alive(after.soldiers, squad.members, 0);
            if !(alive_in(after.soldiers, squad.leader) && squad.members.contains(squad.leader)) {
                let chosen = first_alive_from(after.soldiers, squad.members, 0);
                assert(chosen is Some);
            }
        } else if m == SoldierMessageView::SetAlive(false) {
            // The dead soldier belongs to another squad: no member of this one changed.
            assert(squad.members.contains(squad.leader));
            let l = choose|l: int| 0 <= l < squad.members.len() && squad.members[l] == squad.leader;
            assert(squad.members[l].0 != i.0);
        } else {
            assert(after.soldiers[squad.leader.0 as int].alive());
        }
    }
}

/// The dead stay dead, with `Dead` as their behavior, whatever message comes.
pub proof fn lemma_dead_is_final(
    state: BattleStateView,
    message: BattleStateMessageView,
    frame_i: u64,
    i: int,
)
    requires
        state.wf(),
        0 <= i < state.soldiers.len(),
        state.soldiers[i].status == crate::entity::soldier::Status::Dead,
    ensures
        state.react(message, frame_i).soldiers.len() == state.soldiers.len(),
        state.react(message, frame_i).soldiers[i].status == crate::entity::soldier::Status::Dead,
        state.react(message, frame_i).soldiers[i].behavior == state.soldiers[i].behavior,
        state.soldiers[i].behavior is Dead,
{
    if let BattleStateMessageView::Soldier(j, m) = message {
        if j.0 < state.soldiers.len() {
            lemma_soldier_react(state.soldiers[j.0 as int], m);
        }
    }
}

/// Carrying out a side effect keeps a consistent state consistent and leaves
/// the dead as they are.
pub proof fn lemma_apply_keeps_wf(state: BattleStateView, effect: SideEffectView)
    requires
        state.wf(),
    ensures
        state.apply(effect).wf(),
        forall|i: int|
            0 <= i < state.soldiers.len() && !(#[trigger] state.soldiers[i]).alive()
                ==> state.apply(effect).soldiers[i] == state.soldiers[i],
{
    let after = state.apply(effect);
    if let SideEffectView::SoldierFinishHisBehavior(i, follow) = effect {
        if i.0 < state.soldiers.len() {
            lemma_soldier_changes_keep_wf(state.soldiers[i.0 as int]);
            assert forall|q: int| 0 <= q < after.squads.len() implies #[trigger] after.squad_ok(
                q,
            ) by {
                assert(state.squad_ok(q));
                let squad = state.squads[q];
                assert forall|j: SoldierIndex| alive_in(after.soldiers, j) == alive_in(
                    state.soldiers,
                    j,
                ) by {}
                if has_alive_member(after.soldiers, squad) {
                    let k = choose|k: int|
                        0 <= k < squad.members.len() && alive_in(
                            after.soldiers,
                            #[trigger] squad.members[k],
                        );
                    assert(alive_in(state.soldiers, squad.members[k]));
                }
            }
        }
    } else {
        assert forall|q: int| 0 <= q < after.squads.len() implies #[trigger] after.squad_ok(q) by {
            assert(state.squad_ok(q));
        }
    }
}

impl Clone for BattleState {
    fn clone(&self) -> (copy: BattleState)
        ensures
            copy@ == self@,
    {
        let mut soldiers: Vec<Soldier> = Vec::new();
        let mut i: usize = 0;
        while i < self.soldiers.len()
            invariant
                i <= self.soldiers.len(),
                soldiers.len() == i,
                forall|j: int| 0 <= j < i ==> (#[trigger] soldiers[j])@ == self.soldiers[j]@,
            decreases self.soldiers.len() - i,
        {
            soldiers.push(self.soldiers[i].clone());
            i += 1;
        }
        let mut squads: Vec<Squad> = Vec::new();
        let mut i: usize = 0;
        while i < self.squads.len()
            invariant
                i <= self.squads.len(),
                squads.len() == i,
                forall|j: int| 0 <= j < i ==> (#[trigger] squads[j])@ == self.squads[j]@,
            decreases self.squads.len() - i,
        {
            squads.push(self.squads[i].clone());
            i += 1;
        }
        let mut vehicles: Vec<Vehicle> = Vec::new();
        let mut i: usize = 0;
        while i < self.vehicles.len()
            invariant
                i <= self.vehicles.len(),
                vehicles.len() == i,
                forall|j: int| 0 <= j < i ==> (#[trigger] vehicles[j])@ == self.vehicles[j]@,
            decreases self.vehicles.len() - i,
        {
            vehicles.push(self.vehicles[i].clone());
            i += 1;
        }
        let mut soldier_on_board: Vec<OnBoard> = Vec::new();
        let mut i: usize = 0;
        while i < self.soldier_on_board.len()
            invariant
                i <= self.soldier_on_board.len(),
                soldier_on_board@ == self.soldier_on_board@.subrange(0, i as int),
            decreases self.soldier_on_board.len() - i,
        {
            soldier_on_board.push(self.soldier_on_board[i]);
            i += 1;
        }
        let mut explosions: Vec<Explosion> = Vec::new();
        let mut i: usize = 0;
        while i < self.explosions.len()
            invariant
                i <= self.explosions.len(),
                explosions@ == self.explosions@.subrange(0, i as int),
            decreases self.explosions.len() - i,
        {
            explosions.push(self.explosions[i]);
            i += 1;
        }
        let mut projectiles: Vec<Projectile> = Vec::new();
        let mut i: usize = 0;
        while i < self.projectiles.len()
            invariant
                i <= self.projectiles.len(),
                projectiles@ == self.projectiles@.subrange(0, i as int),
            decreases self.projectiles.len() - i,
        {
            projectiles.push(self.projectiles[i]);
            i += 1;
        }
        let copy = BattleState {
            map: self.map.clone(),
            frame_i: self.frame_i,
            phase: self.phase,
            soldiers,
            squads,
            vehicles,
            soldier_on_board,
            explosions,
            projectiles,
        };
        proof {
            assert(self.soldier_on_board@.subrange(0, self.soldier_on_board@.len() as int)
                == self.soldier_on_board@);
            assert(self.explosions@.subrange(0, self.explosions@.len() as int) == self.explosions@);
            assert(self.projectiles@.subrange(0, self.projectiles@.len() as int)
                == self.projectiles@);
            assert(copy@.soldiers =~= self@.soldiers);
            assert(copy@.squads =~= self@.squads);
            assert(copy@.vehicles =~= self@.vehicles);
        }
        copy
    }
}

impl BattleState {
    pub open spec fn wf(&self) -> bool {
        self@.wf()
    }

    /// A battle on the given map with nobody on it, in its placement phase.
    pub fn empty(map: BattleMap) -> (state: BattleState)
        requires
            map.wf(),
        ensures
            state.wf(),
            state@ == (BattleStateView {
                map: map@,
                frame_i: 0,
                phase: Phase::Placement,
                soldiers: Seq::empty(),
                squads: Seq::empty(),
                vehicles: Seq::empty(),
                soldier_on_board: Seq::empty(),
                explosions: Seq::empty(),
                projectiles: Seq::empty(),
            }),
    {
        let state = BattleState {
            map,
            frame_i: 0,
            phase: Phase::Placement,
            soldiers: Vec::new(),
            squads: Vec::new(),
            vehicles: Vec::new(),
            soldier_on_board: Vec::new(),
            explosions: Vec::new(),
            projectiles: Vec::new(),
        };
        assert(state@.soldiers =~= Seq::empty());
        assert(state@.squads =~= Seq::empty());
        assert(state@.vehicles =~= Seq::empty());
        state
    }

    /// Adds a squad without members and gives its identity.
    pub fn push_squad(&mut self) -> (uuid: SquadUuid)
        requires
            old(self).wf(),
        ensures
            final(self).wf(),
            uuid.0 == old(self)@.squads.len(),
            final(self)@ == (BattleStateView {
                squads: old(self)@.squads.push(
                    SquadView { uuid, leader: SoldierIndex(0), members: Seq::empty() },
                ),
                ..old(self)@
            }),
    {
        let uuid = SquadUuid(self.squads.len());
        self.squads.push(Squad { uuid, leader: SoldierIndex(0), members: Vec::new() });
        proof {
            assert(self@.squads =~= old(self)@.squads.push(
                SquadView { uuid, leader: SoldierIndex(0), members: Seq::empty() },
            ));
            assert forall|q: int| 0 <= q < self@.squads.len() implies #[trigger] self@.squad_ok(
                q,
            ) by {
                if q < old(self)@.squads.len() {
                    assert(old(self)@.squad_ok(q));
                    assert(self@.squads[q] == old(self)@.squads[q]);
                    if has_alive_member(self@.soldiers, self@.squads[q]) {
                        assert(has_alive_member(old(self)@.soldiers, old(self)@.squads[q]));
                    }
                }
            }
        }
        uuid
    }

    /// Adds a soldier to a squad, as its last member, and gives its identity.
    /// The first soldier of a squad leads it; a living soldier who joins a
    /// squad whose members are all dead takes the lead. Nothing is added for
    /// a squad that the state does not hold.
    pub fn push_soldier(&mut self, side: Side, squad: SquadUuid, world_point: WorldPoint) -> (uuid:
        Option<SoldierIndex>)
        requires
            old(self).wf(),
        ensures
            final(self).wf(),
            squad.0 >= old(self)@.squads.len() ==> uuid is None && final(self)@ == old(self)@,
            squad.0 < old(self)@.squads.len() ==> uuid == Some(
                SoldierIndex(old(self)@.soldiers.len() as usize),
            ) && final(self)@ == old(self)@.with_soldier(side, squad, world_point),
    {
        if squad.0 >= self.squads.len() {
            return None;
        }
        let uuid = SoldierIndex(self.soldiers.len());
        let soldier = Soldier::new(uuid, side, squad, world_point);
        self.soldiers.push(soldier);
        let count: usize = self.soldiers.len();
        assert(old(self).soldiers.len() < usize::MAX);
        self.squads[squad.0].members.push(uuid);
        let leader = self.elect_leader(squad.0);
        self.squads[squad.0].leader = leader;
        proof {
            let target = old(self)@.with_soldier(side, squad, world_point);
            assert(self@.soldiers =~= target.soldiers);
            assert(self@.squads[squad.0 as int].members =~= target.squads[squad.0 as int].members);
            assert(self@.squads =~= target.squads);
            lemma_with_soldier_keeps_wf(old(self)@, side, squad, world_point);
        }
        Some(uuid)
    }

    /// Adds a vehicle and gives its identity.
    pub fn push_vehicle(&mut self, world_point: WorldPoint, chassis: Vec<WorldPoint>) -> (uuid:
        VehicleIndex)
        requires
            old(self).wf(),
        ensures
            final(self).wf(),
            uuid.0 == old(self)@.vehicles.len(),
            final(self)@ == (BattleStateView {
                vehicles: old(self)@.vehicles.push(
                    VehicleView { uuid, world_point, chassis: chassis@ },
                ),
                ..old(self)@
            }),
    {
        let uuid = VehicleIndex(self.vehicles.len());
        self.vehicles.push(Vehicle { uuid, world_point, chassis });
        proof {
            assert(self@.vehicles =~= old(self)@.vehicles.push(
                VehicleView { uuid, world_point, chassis: chassis@ },
            ));
            assert forall|q: int| 0 <= q < self@.squads.len() implies #[trigger] self@.squad_ok(
                q,
            ) by {
                assert(old(self)@.squad_ok(q));
                if has_alive_member(self@.soldiers, self@.squads[q]) {
                    assert(has_alive_member(old(self)@.soldiers, old(self)@.squads[q]));
                }
            }
        }
        uuid
    }

    /// Seats a soldier in a vehicle. Refused, with nothing changed, when the
    /// state does not hold the soldier or the vehicle.
    pub fn board(&mut self, soldier: SoldierIndex, vehicle: VehicleIndex, place: OnBoardPlace) -> (done:
        bool)
        requires
            old(self).wf(),
        ensures
            final(self).wf(),
            done == (soldier.0 < old(self)@.soldiers.len() && vehicle.0 < old(self)@.vehicles.len()),
            done ==> final(self)@ == (BattleStateView {
                soldier_on_board: old(self)@.soldier_on_board.push(
                    OnBoard { soldier, vehicle, place },
                ),
                ..old(self)@
            }),
            !done ==> final(self)@ == old(self)@,
    {
        if soldier.0 < self.soldiers.len() && vehicle.0 < self.vehicles.len() {
            self.soldier_on_board.push(OnBoard { soldier, vehicle, place });
            proof {
                assert forall|q: int| 0 <= q < self@.squads.len() implies #[trigger] self@.squad_ok(
                    q,
                ) by {
                    assert(old(self)@.squad_ok(q));
                    if has_alive_member(self@.soldiers, self@.squads[q]) {
                        assert(has_alive_member(old(self)@.soldiers, old(self)@.squads[q]));
                    }
                }
            }
            true
        } else {
            false
        }
    }

    pub fn map(&self) -> (map: &BattleMap)
        ensures
            map@ == self@.map,
    {
        &self.map
    }

    pub fn frame_i(&self) -> (frame_i: &u64)
        ensures
            *frame_i == self@.frame_i,
    {
        &self.frame_i
    }

    pub fn phase(&self) -> (phase: &Phase)
        ensures
            *phase == self@.phase,
    {
        &self.phase
    }

    pub fn soldiers(&self) -> (soldiers: &Vec<Soldier>)
        ensures
            soldiers@.map_values(|s: Soldier| s@) == self@.soldiers,
    {
        &self.soldiers
    }

    pub fn squads(&self) -> (squads: &Vec<Squad>)
        ensures
            squads@.map_values(|s: Squad| s@) == self@.squads,
    {
        &self.squads
    }

    pub fn vehicles(&self) -> (vehicles: &Vec<Vehicle>)
        ensures
            vehicles@.map_values(|v: Vehicle| v@) == self@.vehicles,
    {
        &self.vehicles
    }

    pub fn explosions(&self) -> (explosions: &Vec<Explosion>)
        ensures
            explosions@ == self@.explosions,
    {
        &self.explosions
    }

    pub fn projectiles(&self) -> (projectiles: &Vec<Projectile>)
        ensures
            projectiles@ == self@.projectiles,
    {
        &self.projectiles
    }

    /// The soldier of the given identity.
    pub fn soldier(&self, soldier_index: SoldierIndex) -> (soldier: &Soldier)
        requires
            soldier_index.0 < self@.soldiers.len(),
        ensures
            soldier@ == self@.soldiers[soldier_index.0 as int],
    {
        &self.soldiers[soldier_index.0]
    }

    /// The squad of the given identity.
    pub fn squad(&self, squad_index: SquadUuid) -> (squad: &Squad)
        requires
            squad_index.0 < self@.squads.len(),
        ensures
            squad@ == self@.squads[squad_index.0 as int],
    {
        &self.squads[squad_index.0]
    }

    /// The place that a soldier has aboard a vehicle, if it has one.
    pub fn soldier_vehicle_place(&self, soldier_index: SoldierIndex) -> (place: Option<OnBoardPlace>)
        ensures
            place == match self@.soldier_vehicle_place(soldier_index) {
                Some(on_board) => Some(on_board.place),
                None => None,
            },
    {
        let mut k: usize = 0;
        while k < self.soldier_on_board.len()
            invariant
                k <= self.soldier_on_board.len(),
                self@.soldier_vehicle_place(soldier_index) == self@.vehicle_place_from(
                    soldier_index,
                    k as int,
                ),
            decreases self.soldier_on_board.len() - k,
        {
            if self.soldier_on_board[k].soldier == soldier_index {
                return Some(self.soldier_on_board[k].place);
            }
            k += 1;
        }
        None
    }

    /// Whether the soldier acts on foot or drives: it drives exactly when it
    /// sits at a driver's place.
    pub fn soldier_behavior_mode(&self, soldier: &Soldier) -> (mode: BehaviorMode)
        ensures
            mode == self@.soldier_behavior_mode(soldier@.uuid),
    {
        match self.soldier_vehicle_place(soldier.uuid) {
            Some(OnBoardPlace::Driver) => BehaviorMode::Vehicle,
            _ => BehaviorMode::Ground,
        }
    }

    /// Posture of a soldier at rest.
    pub fn soldier_body(&self, soldier_index: SoldierIndex) -> (body: Body)
        ensures
            body == self@.soldier_body(soldier_index),
    {
        match self.soldier_vehicle_place(soldier_index) {
            Some(_) => Body::Crouched,
            None => Body::StandUp,
        }
    }

    /// Whether the soldier leads its squad.
    pub fn soldier_is_squad_leader(&self, soldier_index: SoldierIndex) -> (leads: bool)
        ensures
            leads == self@.is_squad_leader(soldier_index),
    {
        if soldier_index.0 >= self.soldiers.len() {
            return false;
        }
        let squad = self.soldiers[soldier_index.0].squad_uuid;
        if squad.0 >= self.squads.len() {
            return false;
        }
        self.squads[squad.0].leader == soldier_index
    }

    fn alive_at(&self, i: SoldierIndex) -> (alive: bool)
        ensures
            alive == alive_in(self@.soldiers, i),
    {
        i.0 < self.soldiers.len() && self.soldiers[i.0].alive()
    }

    /// Who leads the squad at position `q` by the rule of succession.
    fn elect_leader(&self, q: usize) -> (leader: SoldierIndex)
        requires
            q < self.squads.len(),
        ensures
            leader == elected_leader(self@.soldiers, self@.squads[q as int]),
    {
        let squad = &self.squads[q];
        assert(squad@ == self@.squads[q as int]);
        if self.alive_at(squad.leader) {
            let mut m: usize = 0;
            while m < squad.members.len()
                invariant
                    m <= squad.members.len(),
                    squad@ == self@.squads[q as int],
                    alive_in(self@.soldiers, squad.leader),
                    forall|j: int| 0 <= j < m ==> squad.members@[j] != squad.leader,
                decreases squad.members.len() - m,
            {
                if squad.members[m] == squad.leader {
                    assert(squad@.members[m as int] == squad.leader);
                    return squad.leader;
                }
                m += 1;
            }
            assert(!squad@.members.contains(squad.leader));
        }
        let mut k: usize = 0;
        while k < squad.members.len()
            invariant
                k <= squad.members.len(),
                squad@ == self@.squads[q as int],
                !(alive_in(self@.soldiers, squad.leader) && squad@.members.contains(squad.leader)),
                first_alive_from(self@.soldiers, squad@.members, 0) == first_alive_from(
                    self@.soldiers,
                    squad@.members,
                    k as int,
                ),
            decreases squad.members.len() - k,
        {
            if self.alive_at(squad.members[k]) {
                return squad.members[k];
            }
            k += 1;
        }
        squad.leader
    }

    /// Changes the state as a message asks, and returns what is left to do.
    /// A message for a soldier that the state does not hold changes nothing.
    pub fn react(&mut self, message: &BattleStateMessage, frame_i: u64) -> (side_effects: Vec<
        SideEffect,
    >)
        ensures
            final(self)@ == old(self)@.react(message@, frame_i),
            side_effects@.map_values(|e: SideEffect| e@) == old(self)@.side_effects(message@),
            old(self).wf() ==> final(self).wf(),
    {
        proof {
            if self.wf() {
                lemma_react_keeps_wf(self@, message@, frame_i);
            }
        }
        let mut side_effects: Vec<SideEffect> = Vec::new();
        match message {
            BattleStateMessage::IncrementFrameI => {
                self.frame_i = if self.frame_i == u64::MAX {
                    0
                } else {
                    self.frame_i + 1
                };
            },
            BattleStateMessage::SetPhase(phase) => {
                self.phase = *phase;
            },
            BattleStateMessage::Soldier(i, soldier_message) => {
                if i.0 < self.soldiers.len() {
                    let ghost before = self.soldiers[i.0 as int]@;
                    match soldier_message {
                        SoldierMessage::SetWorldPosition(p) => {
                            self.soldiers[i.0].set_world_point(*p);
                        },
                        SoldierMessage::SetBehavior(b) => {
                            side_effects.push(
                                SideEffect::RefreshEntityAnimation(self.soldiers[i.0].uuid),
                            );
                            self.soldiers[i.0].set_behavior(b.clone());
                        },
                        SoldierMessage::SetOrder(o) => {
                            self.soldiers[i.0].set_order(o.clone());
                        },
                        SoldierMessage::SetOrientation(a) => {
                            self.soldiers[i.0].set_looking_direction(*a);
                        },
                        SoldierMessage::ReachBehaviorStep => {
                            let follow = self.soldiers[i.0].order.follow_up();
                            let uuid = self.soldiers[i.0].uuid;
                            if self.soldiers[i.0].reach_behavior_step() {
                                side_effects.push(SideEffect::SoldierFinishHisBehavior(uuid, follow));
                            }
                        },
                        SoldierMessage::SetAlive(alive) => {
                            self.soldiers[i.0].set_alive(*alive);
                        },
                        SoldierMessage::SetUnconscious(u) => {
                            self.soldiers[i.0].set_unconscious(*u);
                        },
                        SoldierMessage::IncreaseUnderFire(v) => {
                            self.soldiers[i.0].increase_under_fire(*v);
                        },
                        SoldierMessage::DecreaseUnderFire => {
                            self.soldiers[i.0].decrease_under_fire();
                        },
                    }
                    assert(self.soldiers[i.0 as int]@ == before.react(soldier_message@));
                    assert(self@.soldiers =~= old(self)@.soldiers.update(
                        i.0 as int,
                        before.react(soldier_message@),
                    ));
                    if let SoldierMessage::SetAlive(false) = soldier_message {
                        let q = self.soldiers[i.0].squad_uuid.0;
                        if q < self.squads.len() {
                            let leader = self.elect_leader(q);
                            self.squads[q].leader = leader;
                            assert(self@.squads =~= old(self)@.squads_after(self@.soldiers, *i));
                        }
                    }
                    assert(side_effects@.map_values(|e: SideEffect| e@) =~= old(self)@.side_effects(
                        message@,
                    ));
                } else {
                    assert(side_effects@.map_values(|e: SideEffect| e@) =~= old(self)@.side_effects(
                        message@,
                    ));
                }
            },
            BattleStateMessage::PushExplosion(e) => {
                if !e.finished(frame_i) {
                    self.explosions.push(*e);
                }
            },
            BattleStateMessage::RemoveExplosion(e) => {
                let mut k: usize = 0;
                while k < self.explosions.len() && self.explosions[k] != *e
                    invariant
                        k <= self.explosions.len(),
                        self.explosions@ == old(self).explosions@,
                        forall|j: int| 0 <= j < k ==> self.explosions@[j] != *e,
                    decreases self.explosions.len() - k,
                {
                    k += 1;
                }
                proof {
                    let before = old(self).explosions@;
                    before.index_of_first_ensures(*e);
                    if k < before.len() {
                        assert(before[k as int] == *e);
                        assert(before.contains(*e));
                        let first = before.index_of_first(*e).unwrap();
                        assert(before[first] == *e);
                        assert(first == k);
                    } else {
                        assert(!before.contains(*e));
                    }
                }
                if k < self.explosions.len() {
                    self.explosions.remove(k);
                }
            },
            BattleStateMessage::PushProjectile(p) => {
                if !p.finished(frame_i) {
                    self.projectiles.push(*p);
                }
            },
            BattleStateMessage::RemoveProjectile(p) => {
                let mut k: usize = 0;
                while k < self.projectiles.len() && self.projectiles[k] != *p
                    invariant
                        k <= self.projectiles.len(),
                        self.projectiles@ == old(self).projectiles@,
                        forall|j: int| 0 <= j < k ==> self.projectiles@[j] != *p,
                    decreases self.projectiles.len() - k,
                {
                    k += 1;
                }
                proof {
                    let before = old(self).projectiles@;
                    before.index_of_first_ensures(*p);
                    if k < before.len() {
                        assert(before[k as int] == *p);
                        assert(before.contains(*p));
                        let first = before.index_of_first(*p).unwrap();
                        assert(before[first] == *p);
                        assert(first == k);
                    } else {
                        assert(!before.contains(*p));
                    }
                }
                if k < self.projectiles.len() {
                    self.projectiles.remove(k);
                }
            },
        }
        assert(side_effects@.map_values(|e: SideEffect| e@) =~= old(self)@.side_effects(message@));
        side_effects
    }

    /// Carries out a side effect.
    pub fn apply_side_effect(&mut self, side_effect: &SideEffect)
        ensures
            final(self)@ == old(self)@.apply(side_effect@),
            old(self).wf() ==> final(self).wf(),
    {
        proof {
            if self.wf() {
                lemma_apply_keeps_wf(self@, side_effect@);
            }
        }
        match side_effect {
            SideEffect::SoldierFinishHisBehavior(soldier_index, follow) => {
                if soldier_index.0 < self.soldiers.len() {
                    let mode = self.soldier_behavior_mode_of(*soldier_index);
                    let body = self.soldier_body(*soldier_index);
                    let follow_order = match follow {
                        Some(order) => Some(order.clone()),
                        None => None,
                    };
                    self.soldiers[soldier_index.0].finish_behavior(follow_order, mode, body);
                    assert(self@.soldiers =~= old(self)@.apply(side_effect@).soldiers);
                }
            },
            SideEffect::RefreshEntityAnimation(_) => {},
        }
    }

    fn soldier_behavior_mode_of(&self, soldier_index: SoldierIndex) -> (mode: BehaviorMode)
        ensures
            mode == self@.soldier_behavior_mode(soldier_index),
    {
        match self.soldier_vehicle_place(soldier_index) {
            Some(OnBoardPlace::Driver) => BehaviorMode::Vehicle,
            _ => BehaviorMode::Ground,
        }
    }
}

} // verus!
