//! Effects of the explosions in progress, tick by tick.

use vstd::prelude::*;
use crate::config::{
    ExplosiveProfile, ServerConfig, EXPLOSION_FELT_METERS, ROLL_SCALE, UNDER_FIRE_BLAST,
};
use crate::entity::soldier::Soldier;
use crate::entity::vehicle::{polygon_contains, Vehicle};
use crate::game::{ExplosiveType, Sound};
use crate::physics::event::Explosion;
use crate::runner::chance::{choose_sound, random_below};
use crate::runner::message::{
    extend, views, ClientStateMessage, RunnerMessage, RunnerMessageView,
};
use crate::runner::Runner;
use crate::state::battle::BattleStateView;
use crate::state::message::{
    BattleStateMessage, BattleStateMessageView, SoldierMessage, SoldierMessageView,
};
use crate::types::{distance_between_points, distance_mm, Distance, SoldierIndex};

verus! {

/// What a blast does to a soldier.
#[derive(Clone, Copy, Debug, PartialEq, Eq, Structural)]
pub enum BlastEffect {
    Kill,
    Stun,
    Proximity,
    Untouched,
}

/// The chance that one soldier takes in one blast: a roll for death, a roll
/// for stunning, each from 0 up to, but not including, `ROLL_SCALE`, and the
/// cry of a soldier who dies.
#[derive(Clone, Copy, Debug, PartialEq, Eq, Structural)]
pub struct BlastRolls {
    pub kill: u32,
    pub stun: u32,
    pub scream: Sound,
}

/// The cries among which the cry of a dying soldier is picked.
pub open spec fn screams() -> Seq<Sound> {
    seq![
        Sound::MaleScreaming1,
        Sound::MaleScreaming2,
        Sound::MaleScreaming3,
        Sound::MaleScreaming4,
        Sound::MaleScreaming5,
        Sound::MaleDie1,
        Sound::MaleDie2,
        Sound::MaleDie3,
        Sound::MaleDie4,
        Sound::MaleDie5,
        Sound::MaleDie6,
        Sound::MaleDie7,
        Sound::MaleDie8,
    ]
}

impl BlastRolls {
    pub open spec fn wf(&self) -> bool {
        &&& self.kill < ROLL_SCALE
        &&& self.stun < ROLL_SCALE
        &&& screams().contains(self.scream)
    }
}

/// Whether a roll falls within the chance `1 - distance / radius`: the roll,
/// as a share of `ROLL_SCALE`, is at most that chance. Beyond the radius, and
/// for a radius of 0, there is no chance.
pub open spec fn within_chance(roll: u32, distance: Distance, radius: Distance) -> bool {
    &&& radius.millimeters > 0
    &&& roll * radius.millimeters <= (radius.millimeters - distance.millimeters) * ROLL_SCALE
}

/// Whether the rolls decide what happens at that distance: it is neither
/// within the radius of sure death nor beyond both other radii.
pub open spec fn in_regressive_zone(profile: ExplosiveProfile, distance: Distance) -> bool {
    &&& distance.millimeters >= profile.direct_death.millimeters
    &&& (distance.millimeters <= profile.regressive_death.millimeters || distance.millimeters
        <= profile.regressive_injured.millimeters)
}

/// What a blast does to a soldier at the given distance. Within the radius
/// of direct death the soldier dies. Up to the farther of the two other
/// radii the rolls decide: death with chance `1 - distance /
/// regressive_death`, else stunning with chance `1 - distance /
/// regressive_injured`, else the soldier only feels the blast. Farther away
/// the blast is felt up to `EXPLOSION_FELT_METERS`.
pub open spec fn blast_effect(
    profile: ExplosiveProfile,
    distance: Distance,
    kill_roll: u32,
    stun_roll: u32,
) -> BlastEffect {
    if distance.millimeters < profile.direct_death.millimeters {
        BlastEffect::Kill
    } else if in_regressive_zone(profile, distance) {
        if within_chance(kill_roll, distance, profile.regressive_death) {
            BlastEffect::Kill
        } else if within_chance(stun_roll, distance, profile.regressive_injured) {
            BlastEffect::Stun
        } else {
            BlastEffect::Proximity
        }
    } else if distance.millimeters / 1000 < EXPLOSION_FELT_METERS {
        BlastEffect::Proximity
    } else {
        BlastEffect::Untouched
    }
}

/// The messages of one blast for one soldier. The dead and those aboard a
/// vehicle are spared, and an explosive without radii in the settings does
/// nothing. A soldier who dies and could still act cries out.
pub open spec fn soldier_blast_messages(
    state: BattleStateView,
    config: ServerConfig,
    explosion: Explosion,
    i: int,
    rolls: BlastRolls,
) -> Seq<RunnerMessageView> {
    let soldier = state.soldiers[i];
    if !soldier.alive() || state.soldier_vehicle_place(soldier.uuid) is Some {
        Seq::empty()
    } else {
        match config.spec_explosive(explosion.type_) {
            None => Seq::empty(),
            Some(profile) => {
                let distance = Distance {
                    millimeters: distance_mm(soldier.world_point, explosion.point) as u64,
                };
                match blast_effect(profile, distance, rolls.kill, rolls.stun) {
                    BlastEffect::Kill => seq![
                        RunnerMessageView::BattleState(
                            BattleStateMessageView::Soldier(
                                soldier.uuid,
                                SoldierMessageView::SetAlive(false),
                            ),
                        ),
                    ] + if soldier.able() {
                        seq![
                            RunnerMessageView::ClientsState(
                                ClientStateMessage::PlayBattleSound(rolls.scream),
                            ),
                        ]
                    } else {
                        Seq::empty()
                    },
                    BlastEffect::Stun => seq![
                        RunnerMessageView::BattleState(
                            BattleStateMessageView::Soldier(
                                soldier.uuid,
                                SoldierMessageView::SetUnconscious(true),
                            ),
                        ),
                    ],
                    BlastEffect::Proximity => seq![
                        RunnerMessageView::BattleState(
                            BattleStateMessageView::Soldier(
                                soldier.uuid,
                                SoldierMessageView::IncreaseUnderFire(UNDER_FIRE_BLAST),
                            ),
                        ),
                    ],
                    BlastEffect::Untouched => Seq::empty(),
                }
            },
        }
    }
}

/// The messages of one blast for the first `k` soldiers.
pub open spec fn soldiers_blast_messages_upto(
    state: BattleStateView,
    config: ServerConfig,
    explosion: Explosion,
    rolls: Seq<BlastRolls>,
    k: int,
) -> Seq<RunnerMessageView>
    decreases k,
{
    if k <= 0 {
        Seq::empty()
    } else {
        soldiers_blast_messages_upto(state, config, explosion, rolls, k - 1)
            + soldier_blast_messages(state, config, explosion, k - 1, rolls[k - 1])
    }
}

/// The message of one blast for one vehicle: the sound of a hit when the
/// blast is within its chassis.
pub open spec fn vehicle_blast_messages(state: BattleStateView, explosion: Explosion, v: int) -> Seq<
    RunnerMessageView,
> {
    if polygon_contains(state.vehicles[v].chassis, explosion.point) {
        seq![RunnerMessageView::ClientsState(ClientStateMessage::PlayBattleSound(Sound::MetalHit1))]
    } else {
        Seq::empty()
    }
}

/// The messages of one blast for the first `k` vehicles.
pub open spec fn vehicles_blast_messages_upto(state: BattleStateView, explosion: Explosion, k: int) -> Seq<
    RunnerMessageView,
>
    decreases k,
{
    if k <= 0 {
        Seq::empty()
    } else {
        vehicles_blast_messages_upto(state, explosion, k - 1) + vehicle_blast_messages(
            state,
            explosion,
            k - 1,
        )
    }
}

/// The messages of one blast, given the chance of each soldier: those of the
/// soldiers, in their order, then those of the vehicles.
pub open spec fn explosion_messages(
    state: BattleStateView,
    config: ServerConfig,
    explosion: Explosion,
    rolls: Seq<BlastRolls>,
) -> Seq<RunnerMessageView> {
    soldiers_blast_messages_upto(state, config, explosion, rolls, state.soldiers.len() as int)
        + vehicles_blast_messages_upto(state, explosion, state.vehicles.len() as int)
}

/// The messages of the first `k` explosions of the state, of which only
/// those in effect at the current frame do anything.
pub open spec fn explosions_messages_upto(
    state: BattleStateView,
    config: ServerConfig,
    rolls: Seq<Seq<BlastRolls>>,
    k: int,
) -> Seq<RunnerMessageView>
    decreases k,
{
    if k <= 0 {
        Seq::empty()
    } else {
        explosions_messages_upto(state, config, rolls, k - 1) + if state.explosions[k
            - 1].spec_effective(state.frame_i) {
            explosion_messages(state, config, state.explosions[k - 1], rolls[k - 1])
        } else {
            Seq::empty()
        }
    }
}

/// Whether every soldier has its chance in every explosion.
pub open spec fn rolls_cover(state: BattleStateView, rolls: Seq<Seq<BlastRolls>>) -> bool {
    &&& rolls.len() == state.explosions.len()
    &&& forall|e: int|
        0 <= e < rolls.len() ==> (#[trigger] rolls[e]).len() == state.soldiers.len() && forall|i: int|
            0 <= i < rolls[e].len() ==> (#[trigger] rolls[e][i]).wf()
}

/// Whether a roll falls within the chance `1 - distance / radius`.
pub fn within_chance_of(roll: u32, distance: Distance, radius: Distance) -> (within: bool)
    ensures
        within == within_chance(roll, distance, radius),
{
    if radius.millimeters == 0 || distance.millimeters > radius.millimeters {
        assert(!within_chance(roll, distance, radius)) by (nonlinear_arith)
            requires
                radius.millimeters == 0 || distance.millimeters > radius.millimeters,
                roll >= 0,
                radius.millimeters >= 0,
                within_chance(roll, distance, radius) ==> radius.millimeters > 0 && roll
                    * radius.millimeters <= (radius.millimeters - distance.millimeters)
                    * ROLL_SCALE,
                ROLL_SCALE == 1000000,
        ;
        return false;
    }
    assert(roll * radius.millimeters <= 0xffff_ffff * 0xffff_ffff_ffff_ffff) by (nonlinear_arith)
        requires
            0 <= roll <= 0xffff_ffff,
            0 <= radius.millimeters <= 0xffff_ffff_ffff_ffff,
    ;
    assert((radius.millimeters - distance.millimeters) * ROLL_SCALE <= 0xffff_ffff_ffff_ffff
        * 0xffff_ffff) by (nonlinear_arith)
        requires
            0 <= radius.millimeters - distance.millimeters <= 0xffff_ffff_ffff_ffff,
            0 <= ROLL_SCALE <= 0xffff_ffff,
    ;
    let left: u128 = (roll as u128) * (radius.millimeters as u128);
    let right: u128 = ((radius.millimeters - distance.millimeters) as u128) * (ROLL_SCALE as u128);
    left <= right
}

/// What a blast does to a soldier at the given distance, for given rolls.
pub fn blast_effect_of(profile: &ExplosiveProfile, distance: Distance, kill_roll: u32, stun_roll: u32) -> (effect:
    BlastEffect)
    ensures
        effect == blast_effect(*profile, distance, kill_roll, stun_roll),
{
    if distance.millimeters < profile.direct_death.millimeters {
        BlastEffect::Kill
    } else if distance.millimeters <= profile.regressive_death.millimeters || distance.millimeters
        <= profile.regressive_injured.millimeters {
        if within_chance_of(kill_roll, distance, profile.regressive_death) {
            BlastEffect::Kill
        } else if within_chance_of(stun_roll, distance, profile.regressive_injured) {
            BlastEffect::Stun
        } else {
            BlastEffect::Proximity
        }
    } else if distance.meters() < EXPLOSION_FELT_METERS {
        BlastEffect::Proximity
    } else {
        BlastEffect::Untouched
    }
}

fn scream_list() -> (sounds: Vec<Sound>)
    ensures
        sounds@ == screams(),
{
    let mut sounds: Vec<Sound> = Vec::new();
    sounds.push(Sound::MaleScreaming1);
    sounds.push(Sound::MaleScreaming2);
    sounds.push(Sound::MaleScreaming3);
    sounds.push(Sound::MaleScreaming4);
    sounds.push(Sound::MaleScreaming5);
    sounds.push(Sound::MaleDie1);
    sounds.push(Sound::MaleDie2);
    sounds.push(Sound::MaleDie3);
    sounds.push(Sound::MaleDie4);
    sounds.push(Sound::MaleDie5);
    sounds.push(Sound::MaleDie6);
    sounds.push(Sound::MaleDie7);
    sounds.push(Sound::MaleDie8);
    assert(sounds@ =~= screams());
    sounds
}

/// Draws the chance of one soldier in one blast: only the rolls that the
/// distance makes necessary are drawn, the others are 0.
fn draw_rolls(profile: Option<ExplosiveProfile>, distance: Distance, cries: bool) -> (rolls: BlastRolls)
    ensures
        rolls.wf(),
{
    let mut rolls = BlastRolls { kill: 0, stun: 0, scream: Sound::MaleScreaming1 };
    assert(screams()[0] == Sound::MaleScreaming1);
    if let Some(profile) = profile {
        if distance.millimeters >= profile.direct_death.millimeters && (distance.millimeters
            <= profile.regressive_death.millimeters || distance.millimeters
            <= profile.regressive_injured.millimeters) {
            rolls.kill = random_below(ROLL_SCALE);
            if !within_chance_of(rolls.kill, distance, profile.regressive_death) {
                rolls.stun = random_below(ROLL_SCALE);
            }
        }
        let effect = blast_effect_of(&profile, distance, rolls.kill, rolls.stun);
        if cries && effect == BlastEffect::Kill {
            let sounds = scream_list();
            match choose_sound(&sounds) {
                Some(sound) => {
                    rolls.scream = sound;
                },
                None => {},
            }
        }
    }
    rolls
}

impl Runner {
    /// The messages of the explosions in effect at the current frame. Chance
    /// is drawn for each soldier in each of them; the messages are those
    /// that the explosions give for some such draw.
    pub fn tick_explosions(&self) -> (messages: Vec<RunnerMessage>)
        requires
            self.wf(),
        ensures
            exists|rolls: Seq<Seq<BlastRolls>>|
                rolls_cover(self.battle_state@, rolls) && views(messages@)
                    == #[trigger] explosions_messages_upto(
                    self.battle_state@,
                    self.config,
                    rolls,
                    self.battle_state@.explosions.len() as int,
                ),
    {
        let ghost state = self.battle_state@;
        let mut messages: Vec<RunnerMessage> = Vec::new();
        let ghost mut rolls: Seq<Seq<BlastRolls>> = Seq::empty();
        let explosions = self.battle_state.explosions();
        let mut k: usize = 0;
        assert(views(messages@) =~= Seq::empty());
        while k < explosions.len()
            invariant
                k <= explosions.len(),
                self.wf(),
                state == self.battle_state@,
                explosions@ == state.explosions,
                rolls.len() == k,
                forall|e: int|
                    0 <= e < k ==> (#[trigger] rolls[e]).len() == state.soldiers.len() && forall|i: int|
                        0 <= i < rolls[e].len() ==> (#[trigger] rolls[e][i]).wf(),
                views(messages@) == explosions_messages_upto(state, self.config, rolls, k as int),
            decreases explosions.len() - k,
        {
            let explosion = &explosions[k];
            let ghost before = rolls;
            if explosion.effective(*self.battle_state.frame_i()) {
                let (effects, drawn) = self.explosion_effects_drawn(explosion);
                extend(&mut messages, effects);
                proof {
                    rolls = rolls.push(drawn@);
                }
            } else {
                proof {
                    rolls = rolls.push(
                        Seq::new(
                            state.soldiers.len(),
                            |i: int|
                                BlastRolls { kill: 0, stun: 0, scream: Sound::MaleScreaming1 },
                        ),
                    );
                    assert(screams()[0] == Sound::MaleScreaming1);
                }
            }
            proof {
                lemma_explosions_upto_prefix(state, self.config, before, rolls, k as int);
            }
            k += 1;
        }
        proof {
            assert(rolls_cover(state, rolls));
        }
        messages
    }

    /// The messages of one explosion, with chance drawn for each soldier.
    pub fn explosion_effects(&self, explosion: &Explosion) -> (messages: Vec<RunnerMessage>)
        requires
            self.wf(),
        ensures
            exists|rolls: Seq<BlastRolls>|
                rolls.len() == self.battle_state@.soldiers.len() && (forall|i: int|
                    0 <= i < rolls.len() ==> (#[trigger] rolls[i]).wf()) && views(messages@)
                    == #[trigger] explosion_messages(
                    self.battle_state@,
                    self.config,
                    *explosion,
                    rolls,
                ),
    {
        let (messages, Ghost(rolls)) = self.explosion_effects_drawn(explosion);
        messages
    }

    fn explosion_effects_drawn(&self, explosion: &Explosion) -> (out: (
        Vec<RunnerMessage>,
        Ghost<Seq<BlastRolls>>,
    ))
        requires
            self.wf(),
        ensures
            out.1@.len() == self.battle_state@.soldiers.len(),
            forall|i: int| 0 <= i < out.1@.len() ==> (#[trigger] out.1@[i]).wf(),
            views(out.0@) == explosion_messages(
                self.battle_state@,
                self.config,
                *explosion,
                out.1@,
            ),
    {
        let rolls = self.draw_blast_rolls(explosion);
        let messages = self.explosion_effects_with(explosion, &rolls);
        (messages, Ghost(rolls@))
    }

    /// Draws the chance of every soldier in one blast, in the soldiers'
    /// order.
    fn draw_blast_rolls(&self, explosion: &Explosion) -> (rolls: Vec<BlastRolls>)
        ensures
            rolls@.len() == self.battle_state@.soldiers.len(),
            forall|i: int| 0 <= i < rolls@.len() ==> (#[trigger] rolls@[i]).wf(),
    {
        let mut rolls: Vec<BlastRolls> = Vec::new();
        let soldiers = self.battle_state.soldiers();
        let profile = self.config.explosive(explosion.type_);
        let mut k: usize = 0;
        while k < soldiers.len()
            invariant
                k <= soldiers.len(),
                soldiers@.len() == self.battle_state@.soldiers.len(),
                rolls@.len() == k,
                forall|i: int| 0 <= i < k ==> (#[trigger] rolls@[i]).wf(),
            decreases soldiers.len() - k,
        {
            let soldier = &soldiers[k];
            let distance = distance_between_points(&soldier.world_point(), explosion.point());
            rolls.push(draw_rolls(profile, distance, soldier.can_produce_sound()));
            k += 1;
        }
        rolls
    }

    /// The messages of one explosion for given chance, one set of rolls for
    /// each soldier in the soldiers' order.
    pub fn explosion_effects_with(&self, explosion: &Explosion, rolls: &Vec<BlastRolls>) -> (messages:
        Vec<RunnerMessage>)
        requires
            self.wf(),
            rolls@.len() == self.battle_state@.soldiers.len(),
        ensures
            views(messages@) == explosion_messages(
                self.battle_state@,
                self.config,
                *explosion,
                rolls@,
            ),
    {
        let ghost state = self.battle_state@;
        let mut messages: Vec<RunnerMessage> = Vec::new();
        let soldiers = self.battle_state.soldiers();
        let mut k: usize = 0;
        assert(views(messages@) =~= Seq::empty());
        while k < soldiers.len()
            invariant
                k <= soldiers.len(),
                self.wf(),
                state == self.battle_state@,
                soldiers@.map_values(|s: Soldier| s@) == state.soldiers,
                rolls@.len() == state.soldiers.len(),
                views(messages@) == soldiers_blast_messages_upto(
                    state,
                    self.config,
                    *explosion,
                    rolls@,
                    k as int,
                ),
            decreases soldiers.len() - k,
        {
            assert(soldiers@.len() == state.soldiers.len());
            extend(&mut messages, self.soldier_blast_effects(explosion, SoldierIndex(k), &rolls[k]));
            k += 1;
        }
        let ghost soldier_part = views(messages@);
        let vehicles = self.battle_state.vehicles();
        let mut v: usize = 0;
        while v < vehicles.len()
            invariant
                v <= vehicles.len(),
                state == self.battle_state@,
                vehicles@.map_values(|x: Vehicle| x@) == state.vehicles,
                views(messages@) == soldier_part + vehicles_blast_messages_upto(
                    state,
                    *explosion,
                    v as int,
                ),
            decreases vehicles.len() - v,
        {
            let vehicle = &vehicles[v];
            assert(vehicle@ == state.vehicles[v as int]);
            let ghost before = views(messages@);
            if vehicle.chassis_contains(explosion.point()) {
                extend(&mut messages, self.vehicle_shell_impact_effects(vehicle, explosion.type_()));
            }
            assert(views(messages@) =~= before + vehicle_blast_messages(
                state,
                *explosion,
                v as int,
            ));
            v += 1;
        }
        messages
    }

    /// The messages of one blast for one soldier, for given rolls.
    pub fn soldier_blast_effects(&self, explosion: &Explosion, soldier_index: SoldierIndex, rolls: &BlastRolls) -> (messages:
        Vec<RunnerMessage>)
        requires
            soldier_index.0 < self.battle_state@.soldiers.len(),
        ensures
            views(messages@) == soldier_blast_messages(
                self.battle_state@,
                self.config,
                *explosion,
                soldier_index.0 as int,
                *rolls,
            ),
    {
        let soldier = self.battle_state.soldier(soldier_index);
        let mut messages: Vec<RunnerMessage> = Vec::new();
        assert(views(messages@) =~= Seq::empty());
        if !soldier.can_feel_explosion() {
            return messages;
        }
        // Aboard a vehicle a soldier is out of the blast.
        if self.battle_state.soldier_vehicle_place(soldier.uuid()).is_some() {
            return messages;
        }
        let distance = distance_between_points(&soldier.world_point(), explosion.point());
        if let Some(profile) = self.config.explosive(explosion.type_) {
            match blast_effect_of(&profile, distance, rolls.kill, rolls.stun) {
                BlastEffect::Kill => {
                    return self.killing_blast_effects(soldier, rolls.scream);
                },
                BlastEffect::Stun => {
                    return self.stunning_blast_effects(soldier);
                },
                BlastEffect::Proximity => {
                    return self.proximity_blast_effects(soldier, distance);
                },
                BlastEffect::Untouched => {},
            }
        }
        messages
    }

    /// The messages of a soldier's death in a blast: the death, and the cry
    /// of a soldier who could still act.
    fn killing_blast_effects(&self, soldier: &Soldier, scream: Sound) -> (messages: Vec<RunnerMessage>)
        ensures
            views(messages@) == seq![
                RunnerMessageView::BattleState(
                    BattleStateMessageView::Soldier(soldier@.uuid, SoldierMessageView::SetAlive(false)),
                ),
            ] + if soldier@.able() {
                seq![RunnerMessageView::ClientsState(ClientStateMessage::PlayBattleSound(scream))]
            } else {
                Seq::empty()
            },
    {
        let mut messages = self.soldier_die(soldier.uuid());
        let ghost death = views(messages@);
        if soldier.can_produce_sound() {
            messages.push(RunnerMessage::ClientsState(ClientStateMessage::PlayBattleSound(scream)));
            assert(views(messages@) =~= death + seq![
                RunnerMessageView::ClientsState(ClientStateMessage::PlayBattleSound(scream)),
            ]);
        } else {
            assert(views(messages@) =~= death + Seq::empty());
        }
        messages
    }

    fn stunning_blast_effects(&self, soldier: &Soldier) -> (messages: Vec<RunnerMessage>)
        ensures
            views(messages@) == seq![
                RunnerMessageView::BattleState(
                    BattleStateMessageView::Soldier(
                        soldier@.uuid,
                        SoldierMessageView::SetUnconscious(true),
                    ),
                ),
            ],
    {
        self.soldier_blast_stunned(soldier.uuid())
    }

    fn proximity_blast_effects(&self, soldier: &Soldier, _distance: Distance) -> (messages: Vec<
        RunnerMessage,
    >)
        ensures
            views(messages@) == seq![
                RunnerMessageView::BattleState(
                    BattleStateMessageView::Soldier(
                        soldier@.uuid,
                        SoldierMessageView::IncreaseUnderFire(UNDER_FIRE_BLAST),
                    ),
                ),
            ],
    {
        self.soldier_blast(soldier.uuid())
    }

    /// The message of a shell that hits a vehicle: the sound of the hit.
    fn vehicle_shell_impact_effects(&self, _vehicle: &Vehicle, _explosive: &ExplosiveType) -> (messages:
        Vec<RunnerMessage>)
        ensures
            views(messages@) == seq![
                RunnerMessageView::ClientsState(
                    ClientStateMessage::PlayBattleSound(Sound::MetalHit1),
                ),
            ],
    {
        let mut pick_from: Vec<Sound> = Vec::new();
        pick_from.push(Sound::MetalHit1);
        let sound = match choose_sound(&pick_from) {
            Some(sound) => {
                assert(pick_from@.contains(sound));
                assert(pick_from@ =~= seq![Sound::MetalHit1]);
                sound
            },
            None => Sound::MetalHit1,
        };
        let mut messages: Vec<RunnerMessage> = Vec::new();
        messages.push(RunnerMessage::ClientsState(ClientStateMessage::PlayBattleSound(sound)));
        assert(views(messages@) =~= seq![
            RunnerMessageView::ClientsState(ClientStateMessage::PlayBattleSound(Sound::MetalHit1)),
        ]);
        messages
    }

    /// The message by which a soldier dies.
    pub fn soldier_die(&self, soldier_index: SoldierIndex) -> (messages: Vec<RunnerMessage>)
        ensures
            views(messages@) == seq![
                RunnerMessageView::BattleState(
                    BattleStateMessageView::Soldier(soldier_index, SoldierMessageView::SetAlive(false)),
                ),
            ],
    {
        let mut messages: Vec<RunnerMessage> = Vec::new();
        messages.push(
            RunnerMessage::BattleState(
                BattleStateMessage::Soldier(soldier_index, SoldierMessage::SetAlive(false)),
            ),
        );
        assert(views(messages@) =~= seq![
            RunnerMessageView::BattleState(
                BattleStateMessageView::Soldier(soldier_index, SoldierMessageView::SetAlive(false)),
            ),
        ]);
        messages
    }

    /// The message by which a blast stuns a soldier.
    pub fn soldier_blast_stunned(&self, soldier_index: SoldierIndex) -> (messages: Vec<RunnerMessage>)
        ensures
            views(messages@) == seq![
                RunnerMessageView::BattleState(
                    BattleStateMessageView::Soldier(
                        soldier_index,
                        SoldierMessageView::SetUnconscious(true),
                    ),
                ),
            ],
    {
        let mut messages: Vec<RunnerMessage> = Vec::new();
        messages.push(
            RunnerMessage::BattleState(
                BattleStateMessage::Soldier(soldier_index, SoldierMessage::SetUnconscious(true)),
            ),
        );
        assert(views(messages@) =~= seq![
            RunnerMessageView::BattleState(
                BattleStateMessageView::Soldier(
                    soldier_index,
                    SoldierMessageView::SetUnconscious(true),
                ),
            ),
        ]);
        messages
    }

    /// The message by which a soldier feels a blast nearby.
    pub fn soldier_blast(&self, soldier_index: SoldierIndex) -> (messages: Vec<RunnerMessage>)
        ensures
            views(messages@) == seq![
                RunnerMessageView::BattleState(
                    BattleStateMessageView::Soldier(
                        soldier_index,
                        SoldierMessageView::IncreaseUnderFire(UNDER_FIRE_BLAST),
                    ),
                ),
            ],
    {
        let mut messages: Vec<RunnerMessage> = Vec::new();
        messages.push(
            RunnerMessage::BattleState(
                BattleStateMessage::Soldier(
                    soldier_index,
                    SoldierMessage::IncreaseUnderFire(UNDER_FIRE_BLAST),
                ),
            ),
        );
        assert(views(messages@) =~= seq![
            RunnerMessageView::BattleState(
                BattleStateMessageView::Soldier(
                    soldier_index,
                    SoldierMessageView::IncreaseUnderFire(UNDER_FIRE_BLAST),
                ),
            ),
        ]);
        messages
    }
}

/// The messages of the first explosions depend only on their own chance.
proof fn lemma_explosions_upto_prefix(
    state: BattleStateView,
    config: ServerConfig,
    a: Seq<Seq<BlastRolls>>,
    b: Seq<Seq<BlastRolls>>,
    k: int,
)
    requires
        0 <= k <= a.len(),
        k <= b.len(),
        forall|i: int| 0 <= i < k ==> a[i] == b[i],
    ensures
        explosions_messages_upto(state, config, a, k) == explosions_messages_upto(
            state,
            config,
            b,
            k,
        ),
    decreases k,
{
    if k > 0 {
        lemma_explosions_upto_prefix(state, config, a, b, k - 1);
    }
}

} // verus!
