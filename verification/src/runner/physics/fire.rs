//! Bullets: soldiers who engage or suppress fire at regular frames.

use vstd::prelude::*;
use crate::behavior::BehaviorView;
use crate::config::{FireConfig, ServerConfig, ROLL_SCALE};
use crate::entity::soldier::Soldier;
use crate::physics::event::Projectile;
use crate::physics::visibility::{spec_visibility, visibility};
use crate::runner::chance::random_below;
use crate::runner::message::{extend, views, RunnerMessage, RunnerMessageView};
use crate::runner::Runner;
use crate::state::battle::BattleStateView;
use crate::state::message::{
    BattleStateMessage, BattleStateMessageView, SoldierMessage, SoldierMessageView,
};
use crate::types::{sq_dist, SoldierIndex, WorldPoint};

verus! {

/// The chance of one shot: a roll for the hit and a roll for the kill, each
/// from 0 up to, but not including, `ROLL_SCALE`.
#[derive(Clone, Copy, Debug, PartialEq, Eq, Structural)]
pub struct FireRolls {
    pub hit: u32,
    pub kill: u32,
}

impl FireRolls {
    pub open spec fn wf(&self) -> bool {
        self.hit < ROLL_SCALE && self.kill < ROLL_SCALE
    }
}

/// Whether soldiers fire at a frame.
pub open spec fn fires_at(fire: FireConfig, frame_i: u64) -> bool {
    fire.interval > 0 && frame_i % fire.interval == 0
}

/// The frame at which a bullet fired at `frame_i` is over.
pub open spec fn bullet_end(fire: FireConfig, frame_i: u64) -> u64 {
    if frame_i + fire.bullet_frames > u64::MAX {
        u64::MAX
    } else {
        (frame_i + fire.bullet_frames) as u64
    }
}

/// Whether a roll is a hit over a line of the given opacity: the chance of a
/// hit on a clear line shrinks with the opacity, down to nothing at the
/// threshold of sight.
pub open spec fn is_hit(roll: u32, opacity: u64, threshold: u32, hit_chance: u32) -> bool {
    opacity < threshold && roll * threshold < hit_chance * (threshold - opacity)
}

/// What a hit does: it kills when the roll is within the chance of a kill,
/// else it stuns.
pub open spec fn wound(target: SoldierIndex, fire: FireConfig, kill_roll: u32) -> RunnerMessageView {
    RunnerMessageView::BattleState(
        BattleStateMessageView::Soldier(
            target,
            if kill_roll < fire.kill_chance {
                SoldierMessageView::SetAlive(false)
            } else {
                SoldierMessageView::SetUnconscious(true)
            },
        ),
    )
}

/// The bullet of a shot as a message.
pub open spec fn bullet(state: BattleStateView, fire: FireConfig, i: int, to: WorldPoint) -> RunnerMessageView {
    RunnerMessageView::BattleState(
        BattleStateMessageView::PushProjectile(
            Projectile {
                from: state.soldiers[i].world_point,
                to,
                side: state.soldiers[i].side,
                start: state.frame_i,
                end: bullet_end(fire, state.frame_i),
            },
        ),
    )
}

/// The messages of a soldier who engages a target: while the target lives
/// and is in sight there is a bullet, the target feels under fire, and a hit
/// wounds it.
pub open spec fn engage_messages(
    state: BattleStateView,
    config: ServerConfig,
    i: int,
    target: SoldierIndex,
    rolls: FireRolls,
) -> Seq<RunnerMessageView> {
    if target.0 < state.soldiers.len() && state.soldiers[target.0 as int].alive() {
        let seen = spec_visibility(
            state.map,
            config.visibility,
            state.soldiers[i].world_point,
            state.soldiers[target.0 as int].world_point,
        );
        if seen.visible {
            seq![
                bullet(state, config.fire, i, state.soldiers[target.0 as int].world_point),
                RunnerMessageView::BattleState(
                    BattleStateMessageView::Soldier(
                        target,
                        SoldierMessageView::IncreaseUnderFire(config.fire.under_fire),
                    ),
                ),
            ] + if is_hit(
                rolls.hit,
                seen.path_final_opacity,
                config.visibility.threshold,
                config.fire.hit_chance,
            ) {
                seq![wound(target, config.fire, rolls.kill)]
            } else {
                Seq::empty()
            }
        } else {
            Seq::empty()
        }
    } else {
        Seq::empty()
    }
}

/// Whether soldier `j` is pinned down by the fire of soldier `i` on a point:
/// it lives, is of another side and within reach of the point.
pub open spec fn pinned_down(
    state: BattleStateView,
    fire: FireConfig,
    i: int,
    point: WorldPoint,
    j: int,
) -> bool {
    &&& state.soldiers[j].alive()
    &&& state.soldiers[j].side != state.soldiers[i].side
    &&& sq_dist(state.soldiers[j].world_point, point) <= fire.suppress_radius * fire.suppress_radius
}

/// The messages by which the first `k` soldiers feel the fire on a point.
pub open spec fn pinned_messages_upto(
    state: BattleStateView,
    fire: FireConfig,
    i: int,
    point: WorldPoint,
    k: int,
) -> Seq<RunnerMessageView>
    decreases k,
{
    if k <= 0 {
        Seq::empty()
    } else if pinned_down(state, fire, i, point, k - 1) {
        pinned_messages_upto(state, fire, i, point, k - 1).push(
            RunnerMessageView::BattleState(
                BattleStateMessageView::Soldier(
                    SoldierIndex((k - 1) as usize),
                    SoldierMessageView::IncreaseUnderFire(fire.under_fire),
                ),
            ),
        )
    } else {
        pinned_messages_upto(state, fire, i, point, k - 1)
    }
}

/// The messages of one soldier's fire at a tick, for the chance of its
/// shot. Only a soldier who can act fires, at the frames of fire: at the
/// soldier that it engages, or on the point that it suppresses, where a
/// bullet goes and every opponent within reach feels under fire.
pub open spec fn fire_messages(
    state: BattleStateView,
    config: ServerConfig,
    i: int,
    rolls: FireRolls,
) -> Seq<RunnerMessageView> {
    let s = state.soldiers[i];
    if s.able() && fires_at(config.fire, state.frame_i) {
        match s.behavior {
            BehaviorView::EngageSoldier(target) => engage_messages(state, config, i, target, rolls),
            BehaviorView::SuppressFire(point) => seq![bullet(state, config.fire, i, point)]
                + pinned_messages_upto(state, config.fire, i, point, state.soldiers.len() as int),
            _ => Seq::empty(),
        }
    } else {
        Seq::empty()
    }
}

/// The messages of the fire of the first `k` soldiers.
pub open spec fn fires_messages_upto(
    state: BattleStateView,
    config: ServerConfig,
    rolls: Seq<FireRolls>,
    k: int,
) -> Seq<RunnerMessageView>
    decreases k,
{
    if k <= 0 {
        Seq::empty()
    } else {
        fires_messages_upto(state, config, rolls, k - 1) + fire_messages(
            state,
            config,
            k - 1,
            rolls[k - 1],
        )
    }
}

/// Whether every soldier has the chance of its shot.
pub open spec fn shots_cover(state: BattleStateView, rolls: Seq<FireRolls>) -> bool {
    &&& rolls.len() == state.soldiers.len()
    &&& forall|i: int| 0 <= i < rolls.len() ==> (#[trigger] rolls[i]).wf()
}

/// The messages of the first soldiers depend only on their own chance.
proof fn lemma_fires_upto_prefix(
    state: BattleStateView,
    config: ServerConfig,
    a: Seq<FireRolls>,
    b: Seq<FireRolls>,
    k: int,
)
    requires
        0 <= k <= a.len(),
        k <= b.len(),
        forall|i: int| 0 <= i < k ==> a[i] == b[i],
    ensures
        fires_messages_upto(state, config, a, k) == fires_messages_upto(state, config, b, k),
    decreases k,
{
    if k > 0 {
        lemma_fires_upto_prefix(state, config, a, b, k - 1);
    }
}

/// Whether a roll is a hit over a line of the given opacity.
pub fn is_hit_of(roll: u32, opacity: u64, threshold: u32, hit_chance: u32) -> (hit: bool)
    ensures
        hit == is_hit(roll, opacity, threshold, hit_chance),
{
    if opacity >= threshold as u64 {
        return false;
    }
    assert(roll * threshold <= 0xffff_ffff * 0xffff_ffff) by (nonlinear_arith)
        requires
            0 <= roll <= 0xffff_ffff,
            0 <= threshold <= 0xffff_ffff,
    ;
    assert(hit_chance * (threshold - opacity) <= 0xffff_ffff * 0xffff_ffff) by (nonlinear_arith)
        requires
            0 <= hit_chance <= 0xffff_ffff,
            0 <= threshold - opacity <= 0xffff_ffff,
    ;
    (roll as u64) * (threshold as u64) < (hit_chance as u64) * (threshold as u64 - opacity)
}

impl Runner {
    /// The bullet of a shot of a soldier at a point.
    fn bullet(&self, soldier: &Soldier, to: WorldPoint) -> (message: RunnerMessage)
        requires
            self.holds(soldier),
        ensures
            message@ == bullet(
                self.battle_state@,
                self.config.fire,
                soldier@.uuid.0 as int,
                to,
            ),
    {
        let frame_i: u64 = self.battle_state.frame_i;
        let end: u64 = if frame_i > u64::MAX - self.config.fire.bullet_frames {
            u64::MAX
        } else {
            frame_i + self.config.fire.bullet_frames
        };
        RunnerMessage::BattleState(
            BattleStateMessage::PushProjectile(
                Projectile { from: soldier.world_point, to, side: soldier.side, start: frame_i, end },
            ),
        )
    }

    /// The messages of one soldier's fire at a tick, for given rolls.
    pub fn soldier_fire_effects(&self, soldier_index: SoldierIndex, rolls: &FireRolls) -> (messages: Vec<
        RunnerMessage,
    >)
        requires
            self.wf(),
            soldier_index.0 < self.battle_state@.soldiers.len(),
        ensures
            views(messages@) == fire_messages(
                self.battle_state@,
                self.config,
                soldier_index.0 as int,
                *rolls,
            ),
    {
        let ghost state = self.battle_state@;
        let soldier = self.battle_state.soldier(soldier_index);
        assert(soldier@.uuid == soldier_index);
        let mut messages: Vec<RunnerMessage> = Vec::new();
        assert(views(messages@) =~= Seq::empty());
        let fire = &self.config.fire;
        if !soldier.able() || fire.interval == 0 || self.battle_state.frame_i % fire.interval != 0 {
            return messages;
        }
        match soldier.behavior() {
            crate::behavior::Behavior::EngageSoldier(target) => {
                if target.0 < self.battle_state.soldiers.len() {
                    let other = self.battle_state.soldier(*target);
                    if other.alive() {
                        let seen = visibility(
                            &self.config.visibility,
                            soldier.world_point(),
                            other.world_point(),
                            &self.battle_state.map,
                        );
                        if seen.visible {
                            messages.push(self.bullet(soldier, other.world_point()));
                            messages.push(
                                RunnerMessage::BattleState(
                                    BattleStateMessage::Soldier(
                                        *target,
                                        SoldierMessage::IncreaseUnderFire(fire.under_fire),
                                    ),
                                ),
                            );
                            if is_hit_of(
                                rolls.hit,
                                seen.path_final_opacity,
                                self.config.visibility.threshold,
                                fire.hit_chance,
                            ) {
                                let wound = if rolls.kill < fire.kill_chance {
                                    SoldierMessage::SetAlive(false)
                                } else {
                                    SoldierMessage::SetUnconscious(true)
                                };
                                messages.push(
                                    RunnerMessage::BattleState(
                                        BattleStateMessage::Soldier(*target, wound),
                                    ),
                                );
                            }
                        }
                    }
                }
                assert(views(messages@) =~= engage_messages(
                    state,
                    self.config,
                    soldier_index.0 as int,
                    *target,
                    *rolls,
                ));
            },
            crate::behavior::Behavior::SuppressFire(point) => {
                messages.push(self.bullet(soldier, *point));
                let ghost first = views(messages@);
                assert(first =~= seq![
                    bullet(state, self.config.fire, soldier_index.0 as int, *point),
                ]);
                assert(fire.suppress_radius * fire.suppress_radius <= 0xffff_ffff * 0xffff_ffff)
                    by (nonlinear_arith)
                    requires
                        0 <= fire.suppress_radius <= 0xffff_ffff,
                ;
                let reach: u128 = (fire.suppress_radius as u128) * (fire.suppress_radius as u128);
                let mut k: usize = 0;
                while k < self.battle_state.soldiers.len()
                    invariant
                        k <= self.battle_state.soldiers.len(),
                        state == self.battle_state@,
                        self.holds(soldier),
                        soldier@.uuid == soldier_index,
                        fire == &self.config.fire,
                        reach == fire.suppress_radius * fire.suppress_radius,
                        views(messages@) == first + pinned_messages_upto(
                            state,
                            self.config.fire,
                            soldier_index.0 as int,
                            *point,
                            k as int,
                        ),
                    decreases self.battle_state.soldiers.len() - k,
                {
                    let other = &self.battle_state.soldiers[k];
                    assert(other@ == state.soldiers[k as int]);
                    let ghost before = views(messages@);
                    if other.alive() && other.side != soldier.side && other.world_point.sq_dist_to(
                        point,
                    ) <= reach {
                        messages.push(
                            RunnerMessage::BattleState(
                                BattleStateMessage::Soldier(
                                    SoldierIndex(k),
                                    SoldierMessage::IncreaseUnderFire(fire.under_fire),
                                ),
                            ),
                        );
                        assert(views(messages@) =~= before.push(
                            RunnerMessageView::BattleState(
                                BattleStateMessageView::Soldier(
                                    SoldierIndex(k),
                                    SoldierMessageView::IncreaseUnderFire(fire.under_fire),
                                ),
                            ),
                        ));
                    }
                    k += 1;
                }
            },
            _ => {},
        }
        messages
    }

    /// The messages of the fire of every soldier at a tick. Chance is drawn
    /// for each shot; the messages are those of the fire for some such draw.
    pub fn tick_fires(&self) -> (messages: Vec<RunnerMessage>)
        requires
            self.wf(),
        ensures
            exists|rolls: Seq<FireRolls>|
                shots_cover(self.battle_state@, rolls) && views(messages@)
                    == #[trigger] fires_messages_upto(
                    self.battle_state@,
                    self.config,
                    rolls,
                    self.battle_state@.soldiers.len() as int,
                ),
    {
        let ghost state = self.battle_state@;
        let mut messages: Vec<RunnerMessage> = Vec::new();
        let ghost mut rolls: Seq<FireRolls> = Seq::empty();
        let mut k: usize = 0;
        assert(views(messages@) =~= Seq::empty());
        while k < self.battle_state.soldiers.len()
            invariant
                k <= self.battle_state.soldiers.len(),
                self.wf(),
                state == self.battle_state@,
                rolls.len() == k,
                forall|i: int| 0 <= i < k ==> (#[trigger] rolls[i]).wf(),
                views(messages@) == fires_messages_upto(state, self.config, rolls, k as int),
            decreases self.battle_state.soldiers.len() - k,
        {
            let engages = match self.battle_state.soldiers[k].behavior() {
                crate::behavior::Behavior::EngageSoldier(_) => true,
                _ => false,
            };
            let drawn = if engages {
                FireRolls { hit: random_below(ROLL_SCALE), kill: random_below(ROLL_SCALE) }
            } else {
                FireRolls { hit: 0, kill: 0 }
            };
            let ghost before = rolls;
            proof {
                rolls = rolls.push(drawn);
                lemma_fires_upto_prefix(state, self.config, before, rolls, k as int);
            }
            extend(&mut messages, self.soldier_fire_effects(SoldierIndex(k), &drawn));
            k += 1;
        }
        proof {
            assert(shots_cover(state, rolls));
        }
        messages
    }
}

} // verus!
