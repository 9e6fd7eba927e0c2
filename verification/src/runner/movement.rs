//! Moving a soldier along its route, a tick at a time.

use vstd::prelude::*;
use crate::behavior::BehaviorView;
use crate::config::ServerConfig;
use crate::math::{abs_diff, abs_diff_i32, is_isqrt, lemma_isqrt_exists};
use crate::order::path::{paths_next_point, WorldPaths};
use crate::runner::message::{views, RunnerMessage, RunnerMessageView};
use crate::runner::Runner;
use crate::state::battle::BattleStateView;
use crate::state::message::{
    BattleStateMessage, BattleStateMessageView, SideEffectView, SoldierMessage, SoldierMessageView,
};
use crate::types::{distance_between_points, distance_mm, sq_dist, SoldierIndex, WorldPoint};

verus! {

/// Whether a soldier at `position` reaches `next` within one tick at the
/// given speed: the point is no farther than the speed.
pub open spec fn reached(position: WorldPoint, next: WorldPoint, velocity: u32) -> bool {
    sq_dist(position, next) <= velocity * velocity
}

/// Length of one tick's move along one axis: the share of the speed that
/// falls to that axis. A soldier too slow to cover a millimetre on either
/// axis covers one on the axis that has the longer way to go.
pub open spec fn axis_moves(position: WorldPoint, next: WorldPoint, velocity: u32) -> (int, int) {
    let d = distance_mm(position, next);
    let ax = abs_diff(next.x as int, position.x as int);
    let ay = abs_diff(next.y as int, position.y as int);
    let mx = (ax * velocity) / d;
    let my = (ay * velocity) / d;
    if mx == 0 && my == 0 {
        if ax >= ay {
            (1, 0)
        } else {
            (0, 1)
        }
    } else {
        (mx, my)
    }
}

/// Where a soldier stands after one tick on its way from `position` to
/// `next`, which it does not reach yet.
pub open spec fn step_toward(position: WorldPoint, next: WorldPoint, velocity: u32) -> WorldPoint {
    let (mx, my) = axis_moves(position, next, velocity);
    WorldPoint {
        x: (if next.x >= position.x {
            position.x + mx
        } else {
            position.x - mx
        }) as i32,
        y: (if next.y >= position.y {
            position.y + my
        } else {
            position.y - my
        }) as i32,
    }
}

/// The one message of a soldier's tick of movement: `ReachBehaviorStep` when
/// the next waypoint is within reach, else the new position.
pub open spec fn movement_message(
    position: WorldPoint,
    next: WorldPoint,
    velocity: u32,
    i: SoldierIndex,
) -> RunnerMessageView {
    if reached(position, next, velocity) {
        RunnerMessageView::BattleState(
            BattleStateMessageView::Soldier(i, SoldierMessageView::ReachBehaviorStep),
        )
    } else {
        RunnerMessageView::BattleState(
            BattleStateMessageView::Soldier(
                i,
                SoldierMessageView::SetWorldPosition(step_toward(position, next, velocity)),
            ),
        )
    }
}

/// A move that does not reach the waypoint stays between the soldier and the
/// waypoint on both axes and brings the soldier strictly nearer.
pub proof fn lemma_step_properties(position: WorldPoint, next: WorldPoint, velocity: u32)
    requires
        !reached(position, next, velocity),
    ensures
        ({
            let (mx, my) = axis_moves(position, next, velocity);
            &&& 0 <= mx <= abs_diff(next.x as int, position.x as int)
            &&& 0 <= my <= abs_diff(next.y as int, position.y as int)
            &&& mx > 0 || my > 0
        }),
        sq_dist(step_toward(position, next, velocity), next) < sq_dist(position, next),
        distance_mm(position, next) >= 1,
{
    let sq = sq_dist(position, next);
    let ax = abs_diff(next.x as int, position.x as int);
    let ay = abs_diff(next.y as int, position.y as int);
    let v = velocity as int;
    assert(sq == ax * ax + ay * ay) by (nonlinear_arith)
        requires
            sq == (position.x - next.x) * (position.x - next.x) + (position.y - next.y) * (
            position.y - next.y),
            ax == next.x - position.x || ax == position.x - next.x,
            ay == next.y - position.y || ay == position.y - next.y,
    ;
    assert(sq >= 1) by (nonlinear_arith)
        requires
            sq > v * v,
    ;
    lemma_isqrt_exists(sq);
    let d = distance_mm(position, next);
    assert(is_isqrt(sq, d));
    assert(d >= v && d >= 1) by (nonlinear_arith)
        requires
            sq > v * v,
            sq >= 1,
            0 <= v,
            0 <= d,
            d * d <= sq,
            sq < (d + 1) * (d + 1),
    ;
    let mx0 = (ax * v) / d;
    let my0 = (ay * v) / d;
    assert(0 <= mx0 <= ax) by (nonlinear_arith)
        requires
            mx0 == (ax * v) / d,
            0 <= v <= d,
            d >= 1,
            0 <= ax,
    ;
    assert(0 <= my0 <= ay) by (nonlinear_arith)
        requires
            my0 == (ay * v) / d,
            0 <= v <= d,
            d >= 1,
            0 <= ay,
    ;
    assert(ax >= 1 || ay >= 1) by (nonlinear_arith)
        requires
            ax * ax + ay * ay >= 1,
            0 <= ax,
            0 <= ay,
    ;
    let (mx, my) = axis_moves(position, next, velocity);
    let after = step_toward(position, next, velocity);
    let bx = ax - mx;
    let by = ay - my;
    assert(sq_dist(after, next) == bx * bx + by * by) by (nonlinear_arith)
        requires
            sq_dist(after, next) == (after.x - next.x) * (after.x - next.x) + (after.y - next.y)
                * (after.y - next.y),
            bx == next.x - after.x || bx == after.x - next.x,
            by == next.y - after.y || by == after.y - next.y,
    ;
    assert(bx * bx + by * by < ax * ax + ay * ay) by (nonlinear_arith)
        requires
            0 <= bx <= ax,
            0 <= by <= ay,
            bx < ax || by < ay,
    ;
}

/// Where a soldier stands after one tick on its way to a point out of reach.
pub fn step_toward_of(position: WorldPoint, next: WorldPoint, velocity: u32) -> (after: WorldPoint)
    requires
        !reached(position, next, velocity),
    ensures
        after == step_toward(position, next, velocity),
        sq_dist(after, next) < sq_dist(position, next),
{
    proof {
        lemma_step_properties(position, next, velocity);
    }
    let d: u64 = distance_between_points(&position, &next).millimeters;
    let ax: u64 = abs_diff_i32(next.x, position.x);
    let ay: u64 = abs_diff_i32(next.y, position.y);
    assert(ax * velocity <= 0xffff_ffff * 0xffff_ffff) by (nonlinear_arith)
        requires
            0 <= ax <= 0xffff_ffff,
            0 <= velocity <= 0xffff_ffff,
    ;
    assert(ay * velocity <= 0xffff_ffff * 0xffff_ffff) by (nonlinear_arith)
        requires
            0 <= ay <= 0xffff_ffff,
            0 <= velocity <= 0xffff_ffff,
    ;
    let mut mx: u64 = ax * (velocity as u64) / d;
    let mut my: u64 = ay * (velocity as u64) / d;
    if mx == 0 && my == 0 {
        if ax >= ay {
            mx = 1;
        } else {
            my = 1;
        }
    }
    WorldPoint {
        x: if next.x >= position.x {
            (position.x as i64 + mx as i64) as i32
        } else {
            (position.x as i64 - mx as i64) as i32
        },
        y: if next.y >= position.y {
            (position.y as i64 + my as i64) as i32
        } else {
            (position.y as i64 - my as i64) as i32
        },
    }
}

/// Whether a soldier at `position` reaches `next` within one tick.
pub fn reached_of(position: WorldPoint, next: WorldPoint, velocity: u32) -> (within: bool)
    ensures
        within == reached(position, next, velocity),
{
    assert(velocity * velocity <= 0xffff_ffff * 0xffff_ffff) by (nonlinear_arith)
        requires
            0 <= velocity <= 0xffff_ffff,
    ;
    position.sq_dist_to(&next) <= (velocity as u128) * (velocity as u128)
}

impl Runner {
    /// The message of a moving soldier's tick: the soldier goes toward the
    /// next waypoint of `path` at the speed of its behavior, and tells when
    /// it is within reach of it.
    pub fn movement_updates(&self, soldier_index: SoldierIndex, path: &WorldPaths) -> (messages: Vec<
        RunnerMessage,
    >)
        requires
            soldier_index.0 < self.battle_state@.soldiers.len(),
            paths_next_point(path@) is Some,
            self.config.spec_behavior_velocity(
                self.battle_state@.soldiers[soldier_index.0 as int].behavior,
            ) is Some,
        ensures
            views(messages@) == seq![
                movement_message(
                    self.battle_state@.soldiers[soldier_index.0 as int].world_point,
                    paths_next_point(path@).unwrap(),
                    self.config.spec_behavior_velocity(
                        self.battle_state@.soldiers[soldier_index.0 as int].behavior,
                    ).unwrap(),
                    soldier_index,
                ),
            ],
    {
        let mut messages: Vec<RunnerMessage> = Vec::new();
        let soldier = self.battle_state.soldier(soldier_index);
        let point = path.next_point().unwrap();
        let velocity: u32 = self.config.behavior_velocity(soldier.behavior()).unwrap();

        if reached_of(soldier.world_point(), point, velocity) {
            messages.push(
                RunnerMessage::BattleState(
                    BattleStateMessage::Soldier(soldier_index, SoldierMessage::ReachBehaviorStep),
                ),
            );
        } else {
            let new_point = step_toward_of(soldier.world_point(), point, velocity);
            messages.push(
                RunnerMessage::BattleState(
                    BattleStateMessage::Soldier(
                        soldier_index,
                        SoldierMessage::SetWorldPosition(new_point),
                    ),
                ),
            );
        }
        assert(views(messages@) =~= seq![
            movement_message(
                self.battle_state@.soldiers[soldier_index.0 as int].world_point,
                paths_next_point(path@).unwrap(),
                self.config.spec_behavior_velocity(
                    self.battle_state@.soldiers[soldier_index.0 as int].behavior,
                ).unwrap(),
                soldier_index,
            ),
        ]);
        messages
    }
}

/// A soldier on the move makes progress at every tick: it gets strictly
/// nearer to its next waypoint, or it reaches it, and the reaction to
/// `ReachBehaviorStep` then takes the waypoint off the route or, on the last
/// one, leaves `SoldierFinishHisBehavior` as a side effect.
pub proof fn movement_makes_progress(
    state: BattleStateView,
    config: ServerConfig,
    i: SoldierIndex,
    frame_i: u64,
)
    requires
        state.wf(),
        i.0 < state.soldiers.len(),
        state.soldiers[i.0 as int].able(),
        state.soldiers[i.0 as int].behavior is MoveTo || state.soldiers[i.0 as int].behavior
            is MoveFastTo || state.soldiers[i.0 as int].behavior is SneakTo,
    ensures
        ({
            let s = state.soldiers[i.0 as int];
            let paths = s.behavior.paths().unwrap();
            let next = paths_next_point(paths).unwrap();
            let velocity = config.spec_behavior_velocity(s.behavior).unwrap();
            let message = movement_message(s.world_point, next, velocity, i);
            let step = BattleStateMessageView::Soldier(i, SoldierMessageView::ReachBehaviorStep);
            &&& paths_next_point(paths) is Some
            &&& config.spec_behavior_velocity(s.behavior) is Some
            &&& if reached(s.world_point, next, velocity) {
                &&& message == RunnerMessageView::BattleState(step)
                &&& if s.behavior.on_last_point() {
                    state.side_effects(step) == seq![
                        SideEffectView::SoldierFinishHisBehavior(i, s.order.follow_up()),
                    ]
                } else {
                    state.react(step, frame_i).soldiers[i.0 as int].behavior
                        == s.behavior.after_step()
                }
            } else {
                &&& message == RunnerMessageView::BattleState(
                    BattleStateMessageView::Soldier(
                        i,
                        SoldierMessageView::SetWorldPosition(
                            step_toward(s.world_point, next, velocity),
                        ),
                    ),
                )
                &&& sq_dist(step_toward(s.world_point, next, velocity), next) < sq_dist(
                    s.world_point,
                    next,
                )
            }
        }),
{
    let s = state.soldiers[i.0 as int];
    assert(s.wf());
    let paths = s.behavior.paths().unwrap();
    assert(paths.len() > 0 && paths[0].len() > 0);
    let next = paths_next_point(paths).unwrap();
    let velocity = config.spec_behavior_velocity(s.behavior).unwrap();
    if !reached(s.world_point, next, velocity) {
        lemma_step_properties(s.world_point, next, velocity);
    }
}

} // verus!
