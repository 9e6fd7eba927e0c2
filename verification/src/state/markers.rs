//! The order markers that a side sees on the scene.

use vstd::prelude::*;
use crate::entity::soldier::Soldier;
use crate::entity::squad::Squad;
use crate::game::Side;
use crate::order::marker::OrderMarker;
use crate::order::{Order, OrderView};
use crate::state::battle::{BattleState, BattleStateView};
use crate::types::{OrderMarkerIndex, SquadUuid, WorldPoint};

verus! {

/// A marker on the scene: its icon, the squad whose order it shows, the
/// point where it stands, and its rank among the markers of that order.
#[derive(Clone, Copy, Debug, PartialEq, Eq, Structural)]
pub struct OrderMarkerEntry {
    pub marker: OrderMarker,
    pub squad: SquadUuid,
    pub point: WorldPoint,
    pub index: OrderMarkerIndex,
}

/// The one marker of an order that has a single place.
pub open spec fn single_marker(marker: OrderMarker, squad: SquadUuid, point: WorldPoint) -> Seq<
    OrderMarkerEntry,
> {
    seq![OrderMarkerEntry { marker, squad, point, index: OrderMarkerIndex(0) }]
}

/// The markers of a route: one at the end of each part, or at the leader's
/// place for a part without points.
pub open spec fn route_markers(
    marker: OrderMarker,
    squad: SquadUuid,
    paths: Seq<Seq<WorldPoint>>,
    leader_point: WorldPoint,
) -> Seq<OrderMarkerEntry> {
    Seq::new(
        paths.len(),
        |k: int|
            OrderMarkerEntry {
                marker,
                squad,
                point: if paths[k].len() > 0 {
                    paths[k].last()
                } else {
                    leader_point
                },
                index: OrderMarkerIndex(k as usize),
            },
    )
}

impl BattleStateView {
    /// The markers of the order of the squad at position `q`, which its
    /// leader carries: along the route of a movement, at the leader's place
    /// for defending and hiding, at the place of the engaged squad's leader,
    /// at the point under fire. A squad whose leader the state does not hold
    /// shows none.
    pub open spec fn squad_markers(self, q: int) -> Seq<OrderMarkerEntry> {
        let squad = self.squads[q];
        if squad.leader.0 < self.soldiers.len() {
            let leader = self.soldiers[squad.leader.0 as int];
            match leader.order {
                OrderView::Idle => Seq::empty(),
                OrderView::MoveTo(paths, _) => route_markers(
                    OrderMarker::MoveTo,
                    squad.uuid,
                    paths,
                    leader.world_point,
                ),
                OrderView::MoveFastTo(paths, _) => route_markers(
                    OrderMarker::MoveFastTo,
                    squad.uuid,
                    paths,
                    leader.world_point,
                ),
                OrderView::SneakTo(paths, _) => route_markers(
                    OrderMarker::SneakTo,
                    squad.uuid,
                    paths,
                    leader.world_point,
                ),
                OrderView::Defend(_) => single_marker(
                    OrderMarker::Defend,
                    squad.uuid,
                    leader.world_point,
                ),
                OrderView::Hide(_) => single_marker(
                    OrderMarker::Hide,
                    squad.uuid,
                    leader.world_point,
                ),
                OrderView::EngageSquad(target) => if target.0 < self.squads.len()
                    && self.squads[target.0 as int].leader.0 < self.soldiers.len() {
                    single_marker(
                        OrderMarker::EngageSquad,
                        squad.uuid,
                        self.soldiers[self.squads[target.0 as int].leader.0 as int].world_point,
                    )
                } else {
                    Seq::empty()
                },
                OrderView::SuppressFire(point) => single_marker(
                    OrderMarker::SuppressFire,
                    squad.uuid,
                    point,
                ),
            }
        } else {
            Seq::empty()
        }
    }

    /// Whether the squad at position `q` is led by a soldier of the side.
    pub open spec fn squad_of_side(self, q: int, side: Side) -> bool {
        self.squads[q].leader.0 < self.soldiers.len() && self.soldiers[self.squads[q].leader.0 as int].side
            == side
    }

    /// The markers of the first `k` squads that a side sees: those of its
    /// own squads.
    pub open spec fn order_markers_upto(self, side: Side, k: int) -> Seq<OrderMarkerEntry>
        decreases k,
    {
        if k <= 0 {
            Seq::empty()
        } else {
            self.order_markers_upto(side, k - 1) + if self.squad_of_side(k - 1, side) {
                self.squad_markers(k - 1)
            } else {
                Seq::empty()
            }
        }
    }

    /// All the markers that a side sees.
    pub open spec fn order_markers(self, side: Side) -> Seq<OrderMarkerEntry> {
        self.order_markers_upto(side, self.squads.len() as int)
    }
}

impl BattleState {
    fn route_markers(marker: OrderMarker, squad: SquadUuid, paths: &crate::order::path::WorldPaths, leader_point: WorldPoint) -> (entries:
        Vec<OrderMarkerEntry>)
        ensures
            entries@ == route_markers(marker, squad, paths@, leader_point),
    {
        let mut entries: Vec<OrderMarkerEntry> = Vec::new();
        let mut k: usize = 0;
        while k < paths.paths.len()
            invariant
                k <= paths.paths.len(),
                entries@.len() == k,
                forall|j: int|
                    0 <= j < k ==> #[trigger] entries@[j] == route_markers(
                        marker,
                        squad,
                        paths@,
                        leader_point,
                    )[j],
            decreases paths.paths.len() - k,
        {
            let point = match paths.paths[k].last_point() {
                Some(p) => p,
                None => leader_point,
            };
            assert(paths@[k as int] == paths.paths[k as int]@);
            entries.push(OrderMarkerEntry { marker, squad, point, index: OrderMarkerIndex(k) });
            k += 1;
        }
        assert(entries@ =~= route_markers(marker, squad, paths@, leader_point));
        entries
    }

    fn squad_markers(&self, q: usize) -> (entries: Vec<OrderMarkerEntry>)
        requires
            q < self.squads.len(),
        ensures
            entries@ == self@.squad_markers(q as int),
    {
        let squad = &self.squads[q];
        assert(squad@ == self@.squads[q as int]);
        if squad.leader.0 >= self.soldiers.len() {
            return Vec::new();
        }
        let leader = &self.soldiers[squad.leader.0];
        assert(leader@ == self@.soldiers[squad.leader.0 as int]);
        let mut entries: Vec<OrderMarkerEntry> = Vec::new();
        match &leader.order {
            Order::Idle => {},
            Order::MoveTo(paths, _) => {
                entries = Self::route_markers(OrderMarker::MoveTo, squad.uuid, paths, leader.world_point);
            },
            Order::MoveFastTo(paths, _) => {
                entries = Self::route_markers(
                    OrderMarker::MoveFastTo,
                    squad.uuid,
                    paths,
                    leader.world_point,
                );
            },
            Order::SneakTo(paths, _) => {
                entries = Self::route_markers(
                    OrderMarker::SneakTo,
                    squad.uuid,
                    paths,
                    leader.world_point,
                );
            },
            Order::Defend(_) => {
                entries.push(
                    OrderMarkerEntry {
                        marker: OrderMarker::Defend,
                        squad: squad.uuid,
                        point: leader.world_point,
                        index: OrderMarkerIndex(0),
                    },
                );
            },
            Order::Hide(_) => {
                entries.push(
                    OrderMarkerEntry {
                        marker: OrderMarker::Hide,
                        squad: squad.uuid,
                        point: leader.world_point,
                        index: OrderMarkerIndex(0),
                    },
                );
            },
            Order::EngageSquad(target) => {
                if target.0 < self.squads.len() {
                    let other = self.squads[target.0].leader;
                    assert(self@.squads[target.0 as int] == self.squads[target.0 as int]@);
                    if other.0 < self.soldiers.len() {
                        assert(self@.soldiers[other.0 as int] == self.soldiers[other.0 as int]@);
                        entries.push(
                            OrderMarkerEntry {
                                marker: OrderMarker::EngageSquad,
                                squad: squad.uuid,
                                point: self.soldiers[other.0].world_point,
                                index: OrderMarkerIndex(0),
                            },
                        );
                    }
                }
            },
            Order::SuppressFire(point) => {
                entries.push(
                    OrderMarkerEntry {
                        marker: OrderMarker::SuppressFire,
                        squad: squad.uuid,
                        point: *point,
                        index: OrderMarkerIndex(0),
                    },
                );
            },
        }
        assert(entries@ =~= self@.squad_markers(q as int));
        entries
    }

    /// The order markers that a side sees: those of the orders of its
    /// squads, squad by squad.
    pub fn order_markers(&self, side: &Side) -> (entries: Vec<OrderMarkerEntry>)
        ensures
            entries@ == self@.order_markers(*side),
    {
        let mut entries: Vec<OrderMarkerEntry> = Vec::new();
        let mut q: usize = 0;
        while q < self.squads.len()
            invariant
                q <= self.squads.len(),
                entries@ == self@.order_markers_upto(*side, q as int),
            decreases self.squads.len() - q,
        {
            let leader = self.squads[q].leader;
            assert(self@.squads[q as int] == self.squads[q as int]@);
            let ghost before = entries@;
            if leader.0 < self.soldiers.len() {
                assert(self@.soldiers[leader.0 as int] == self.soldiers[leader.0 as int]@);
                if self.soldiers[leader.0].side == *side {
                    let mut more = self.squad_markers(q);
                    entries.append(&mut more);
                }
            }
            assert(entries@ =~= before + if self@.squad_of_side(q as int, *side) {
                self@.squad_markers(q as int)
            } else {
                Seq::empty()
            });
            q += 1;
        }
        entries
    }
}

} // verus!
