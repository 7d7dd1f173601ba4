use vstd::prelude::*;

use crate::buffs::{EnemyBuffs, GlobalEnemyBuffs};
use crate::castle::Castle;
use crate::rng::gen_range;
use crate::side::Side;
use crate::timer::{Timer, TimerMode};

verus! {

/// The kinds of enemies, each with its own stats.
#[derive(Debug, Clone, Copy, PartialEq, Eq, Structural)]
pub enum EnemyType {
    MadCrab,
    Goblin,
    SpearGoblin,
    Bat,
    Skull,
    PoisonIvy,
}

impl EnemyType {
    /// Base health.
    pub open spec fn spec_health(self) -> u64 {
        match self {
            EnemyType::MadCrab => 100,
            EnemyType::Goblin => 80,
            EnemyType::SpearGoblin => 100,
            EnemyType::Bat => 30,
            EnemyType::Skull => 80,
            EnemyType::PoisonIvy => 60,
        }
    }

    pub fn health(self) -> (r: u64)
        ensures
            r == self.spec_health(),
            1 <= r <= 1500,
    {
        match self {
            EnemyType::MadCrab => 100,
            EnemyType::Goblin => 80,
            EnemyType::SpearGoblin => 100,
            EnemyType::Bat => 30,
            EnemyType::Skull => 80,
            EnemyType::PoisonIvy => 60,
        }
    }

    /// Base speed, in units per second.
    pub open spec fn spec_speed(self) -> u64 {
        match self {
            EnemyType::MadCrab => 8,
            EnemyType::Goblin => 15,
            EnemyType::SpearGoblin => 10,
            EnemyType::Bat => 10,
            EnemyType::Skull => 8,
            EnemyType::PoisonIvy => 12,
        }
    }

    pub fn speed(self) -> (r: u64)
        ensures
            r == self.spec_speed(),
            1 <= r <= 1500,
    {
        match self {
            EnemyType::MadCrab => 8,
            EnemyType::Goblin => 15,
            EnemyType::SpearGoblin => 10,
            EnemyType::Bat => 10,
            EnemyType::Skull => 8,
            EnemyType::PoisonIvy => 12,
        }
    }

    /// Base experience reward.
    pub open spec fn spec_exp(self) -> u64 {
        match self {
            EnemyType::MadCrab => 3,
            EnemyType::Goblin => 5,
            EnemyType::SpearGoblin => 8,
            EnemyType::Bat => 5,
            EnemyType::Skull => 5,
            EnemyType::PoisonIvy => 8,
        }
    }

    pub fn exp(self) -> (r: u64)
        ensures
            r == self.spec_exp(),
            1 <= r <= 1500,
    {
        match self {
            EnemyType::MadCrab => 3,
            EnemyType::Goblin => 5,
            EnemyType::SpearGoblin => 8,
            EnemyType::Bat => 5,
            EnemyType::Skull => 5,
            EnemyType::PoisonIvy => 8,
        }
    }

    /// Base damage of one attack on a wall.
    pub open spec fn spec_damage(self) -> u64 {
        match self {
            EnemyType::MadCrab => 5,
            EnemyType::Goblin => 10,
            EnemyType::SpearGoblin => 15,
            EnemyType::Bat => 5,
            EnemyType::Skull => 15,
            EnemyType::PoisonIvy => 20,
        }
    }

    pub fn damage(self) -> (r: u64)
        ensures
            r == self.spec_damage(),
            1 <= r <= 1500,
    {
        match self {
            EnemyType::MadCrab => 5,
            EnemyType::Goblin => 10,
            EnemyType::SpearGoblin => 15,
            EnemyType::Bat => 5,
            EnemyType::Skull => 15,
            EnemyType::PoisonIvy => 20,
        }
    }

    /// Radius of the body.
    pub open spec fn spec_size(self) -> u64 {
        match self {
            EnemyType::MadCrab => 128,
            EnemyType::Goblin => 16,
            EnemyType::SpearGoblin => 16,
            EnemyType::Bat => 16,
            EnemyType::Skull => 32,
            EnemyType::PoisonIvy => 64,
        }
    }

    pub fn size(self) -> (r: u64)
        ensures
            r == self.spec_size(),
            1 <= r <= 1500,
    {
        match self {
            EnemyType::MadCrab => 128,
            EnemyType::Goblin => 16,
            EnemyType::SpearGoblin => 16,
            EnemyType::Bat => 16,
            EnemyType::Skull => 32,
            EnemyType::PoisonIvy => 64,
        }
    }

    /// Distance to the wall from which it attacks.
    pub open spec fn spec_range(self) -> u64 {
        match self {
            EnemyType::MadCrab => 20,
            EnemyType::Goblin => 20,
            EnemyType::SpearGoblin => 20,
            EnemyType::Bat => 20,
            EnemyType::Skull => 20,
            EnemyType::PoisonIvy => 20,
        }
    }

    pub fn range(self) -> (r: u64)
        ensures
            r == self.spec_range(),
            1 <= r <= 1500,
    {
        match self {
            EnemyType::MadCrab => 20,
            EnemyType::Goblin => 20,
            EnemyType::SpearGoblin => 20,
            EnemyType::Bat => 20,
            EnemyType::Skull => 20,
            EnemyType::PoisonIvy => 20,
        }
    }

    /// Base time between two attacks, in milliseconds.
    pub open spec fn spec_attack_speed(self) -> u64 {
        match self {
            EnemyType::MadCrab => 1100,
            EnemyType::Goblin => 1000,
            EnemyType::SpearGoblin => 1200,
            EnemyType::Bat => 1500,
            EnemyType::Skull => 1000,
            EnemyType::PoisonIvy => 1000,
        }
    }

    pub fn attack_speed(self) -> (r: u64)
        ensures
            r == self.spec_attack_speed(),
            1 <= r <= 1500,
    {
        match self {
            EnemyType::MadCrab => 1100,
            EnemyType::Goblin => 1000,
            EnemyType::SpearGoblin => 1200,
            EnemyType::Bat => 1500,
            EnemyType::Skull => 1000,
            EnemyType::PoisonIvy => 1000,
        }
    }

    /// How many are spawned together.
    pub open spec fn spec_number_per_spawn(self) -> u64 {
        match self {
            EnemyType::MadCrab => 1,
            EnemyType::Goblin => 3,
            EnemyType::SpearGoblin => 2,
            EnemyType::Bat => 5,
            EnemyType::Skull => 1,
            EnemyType::PoisonIvy => 2,
        }
    }

    pub fn number_per_spawn(self) -> (r: u64)
        ensures
            r == self.spec_number_per_spawn(),
            1 <= r <= 1500,
    {
        match self {
            EnemyType::MadCrab => 1,
            EnemyType::Goblin => 3,
            EnemyType::SpearGoblin => 2,
            EnemyType::Bat => 5,
            EnemyType::Skull => 1,
            EnemyType::PoisonIvy => 2,
        }
    }

}

/// `base` raised by `pct` tenths of a percent, rounded down.
pub open spec fn scaled(base: u64, pct: u32) -> u64 {
    (base * (1000 + pct) / 1000) as u64
}

/// `base` lowered by `cut` tenths of a percent, never below zero.
pub open spec fn reduced(base: u64, cut: u32) -> u64 {
    if cut >= 1000 {
        0
    } else {
        (base * (1000 - cut) / 1000) as u64
    }
}

/// `base` raised by `pct` tenths of a percent, for bases of the stat table.
pub fn scale(base: u64, pct: u32) -> (r: u64)
    requires
        base <= 1_000_000,
    ensures
        r == scaled(base, pct),
        r >= base,
{
    assert(base * (1000 + pct) <= 1_000_000 * (1000 + u32::MAX)) by (nonlinear_arith)
        requires
            base <= 1_000_000,
    ;
    assert(base * (1000 + pct) / 1000 >= base) by (nonlinear_arith);
    base * (1000 + pct as u64) / 1000
}

fn reduce(base: u64, cut: u32) -> (r: u64)
    requires
        base <= 1_000_000,
    ensures
        r == reduced(base, cut),
        r <= base,
{
    if cut >= 1000 {
        0
    } else {
        assert(base * (1000 - cut) / 1000 <= base) by (nonlinear_arith)
            requires
                cut < 1000,
        ;
        base * (1000 - cut as u64) / 1000
    }
}

/// The attack of an enemy on its side's wall.
#[derive(Debug, Clone, Copy, PartialEq, Eq, Structural)]
pub struct EnemyAttack {
    pub damage: u32,
    pub range: u32,
    /// Runs only while the enemy is in range.
    pub attack_timer: Timer,
}

/// One enemy on the field.
#[derive(Debug, Clone, Copy, PartialEq, Eq, Structural)]
pub struct Enemy {
    pub id: u64,
    pub side: Side,
    pub kind: EnemyType,
    pub health: i64,
    /// In thousandths of a unit per second.
    pub speed: u64,
    pub exp: u64,
    pub attack: EnemyAttack,
}

impl EnemyAttack {
    /// An attack whose cadence waits, paused, until the enemy is in range.
    pub fn new(damage: u32, range: u32, attack_speed: u64) -> (r: EnemyAttack)
        ensures
            r == (EnemyAttack {
                damage,
                range,
                attack_timer: Timer { duration: attack_speed, elapsed: 0, mode: TimerMode::Repeating, paused: true, finished: false },
            }),
            r.attack_timer.wf(),
    {
        let mut attack_timer = Timer::from_millis(attack_speed, TimerMode::Repeating);
        attack_timer.pause();
        EnemyAttack { damage, range, attack_timer }
    }
}

impl Enemy {
    /// The enemy that spawns with the buffs `b` (global and side buffs added).
    pub open spec fn spec_spawn(id: u64, side: Side, kind: EnemyType, b: EnemyBuffs) -> Enemy {
        Enemy {
            id,
            side,
            kind,
            health: scaled(kind.spec_health(), b.health) as i64,
            speed: (kind.spec_speed() * 1000 * (1000 + b.speed) / 1000) as u64,
            exp: reduced(kind.spec_exp(), b.exp),
            attack: EnemyAttack {
                damage: scaled(kind.spec_damage(), b.damage) as u32,
                range: kind.spec_range() as u32,
                attack_timer: Timer {
                    duration: scaled(kind.spec_attack_speed(), b.attack_speed),
                    elapsed: 0,
                    mode: TimerMode::Repeating,
                    paused: true,
                    finished: false,
                },
            },
        }
    }

    pub open spec fn wf(self) -> bool {
        self.attack.attack_timer.wf()
    }

    /// Spawns an enemy with the buffs in force now; later buffs do not change it.
    pub fn new(id: u64, side: Side, kind: EnemyType, global: &GlobalEnemyBuffs, buffs: &EnemyBuffs) -> (r: Enemy)
        ensures
            r == Self::spec_spawn(id, side, kind, buffs.spec_with_global_buffs(*global)),
            r.wf(),
            r.health > 0,
    {
        let b = buffs.with_global_buffs(global);
        let health = scale(kind.health(), b.health);
        let speed = scale(kind.speed() * 1000, b.speed);
        let damage = scale(kind.damage(), b.damage);
        proof {
            assert(kind.spec_health() * (1000 + b.health) / 1000 <= 100 * (1000 + u32::MAX as int) / 1000)
                by (nonlinear_arith)
                requires
                    kind.spec_health() <= 100,
            ;
            assert(kind.spec_damage() * (1000 + b.damage) / 1000 <= 20 * (1000 + u32::MAX as int) / 1000)
                by (nonlinear_arith)
                requires
                    kind.spec_damage() <= 20,
            ;
        }
        Enemy {
            id,
            side,
            kind,
            health: health as i64,
            speed,
            exp: reduce(kind.exp(), b.exp),
            attack: EnemyAttack::new(damage as u32, kind.range() as u32, scale(kind.attack_speed(), b.attack_speed)),
        }
    }
}

/// The stages of a run; each one adds kinds of enemies to those that spawn.
#[derive(Debug, Clone, Copy, PartialEq, Eq, Structural)]
pub enum SpawnState {
    Stage1,
    Stage2,
    Stage3,
    Stage4,
}

/// Length of the first stage, in milliseconds.
pub const FIRST_STAGE: u64 = 60_000;
/// Length of the second stage.
pub const SECOND_STAGE: u64 = 120_000;
/// Length of the third stage; the fourth lasts until the end of the run.
pub const THIRD_STAGE: u64 = 120_000;

impl SpawnState {
    pub open spec fn spec_rank(self) -> nat {
        match self {
            SpawnState::Stage1 => 1,
            SpawnState::Stage2 => 2,
            SpawnState::Stage3 => 3,
            SpawnState::Stage4 => 4,
        }
    }
}

impl EnemyType {
    /// The first stage in which this kind spawns.
    pub open spec fn spec_first_stage(self) -> nat {
        match self {
            EnemyType::Bat => 1,
            EnemyType::Goblin => 1,
            EnemyType::SpearGoblin => 2,
            EnemyType::Skull => 2,
            EnemyType::PoisonIvy => 3,
            EnemyType::MadCrab => 4,
        }
    }

    /// Whether this kind spawns in `stage`.
    pub fn unlocked(self, stage: SpawnState) -> (r: bool)
        ensures
            r == (self.spec_first_stage() <= stage.spec_rank()),
    {
        let rank: u32 = match stage {
            SpawnState::Stage1 => 1,
            SpawnState::Stage2 => 2,
            SpawnState::Stage3 => 3,
            SpawnState::Stage4 => 4,
        };
        let first: u32 = match self {
            EnemyType::Bat => 1,
            EnemyType::Goblin => 1,
            EnemyType::SpearGoblin => 2,
            EnemyType::Skull => 2,
            EnemyType::PoisonIvy => 3,
            EnemyType::MadCrab => 4,
        };
        first <= rank
    }
}

/// Stages only add kinds: what spawns in one stage spawns in every later one.
pub proof fn lemma_stages_add_kinds(kind: EnemyType, a: SpawnState, b: SpawnState)
    requires
        a.spec_rank() <= b.spec_rank(),
        kind.spec_first_stage() <= a.spec_rank(),
    ensures
        kind.spec_first_stage() <= b.spec_rank(),
{
}

/// The stage of the run and the countdown to the next one.
#[derive(Debug, Clone, Copy, PartialEq, Eq, Structural)]
pub struct SpawnStateTimer {
    pub current_state: SpawnState,
    /// `None` in the last stage.
    pub timer: Option<Timer>,
}

impl SpawnStateTimer {
    pub open spec fn wf(self) -> bool {
        &&& (self.timer matches Some(t) ==> t.wf() && t.mode == TimerMode::Once && !t.paused && !t.finished
            && t.elapsed < t.duration)
        &&& (self.timer is None <==> self.current_state == SpawnState::Stage4)
    }

    pub open spec fn spec_new() -> SpawnStateTimer {
        SpawnStateTimer {
            current_state: SpawnState::Stage1,
            timer: Some(Timer { duration: FIRST_STAGE, elapsed: 0, mode: TimerMode::Once, paused: false, finished: false }),
        }
    }

    /// The first stage, with its countdown.
    pub fn new() -> (r: SpawnStateTimer)
        ensures
            r.wf(),
            r == Self::spec_new(),
    {
        SpawnStateTimer {
            current_state: SpawnState::Stage1,
            timer: Some(Timer::from_millis(FIRST_STAGE, TimerMode::Once)),
        }
    }

    pub open spec fn spec_next_state(self) -> SpawnStateTimer {
        match self.current_state {
            SpawnState::Stage1 => SpawnStateTimer {
                current_state: SpawnState::Stage2,
                timer: Some(Timer { duration: SECOND_STAGE, elapsed: 0, mode: TimerMode::Once, paused: false, finished: false }),
            },
            SpawnState::Stage2 => SpawnStateTimer {
                current_state: SpawnState::Stage3,
                timer: Some(Timer { duration: THIRD_STAGE, elapsed: 0, mode: TimerMode::Once, paused: false, finished: false }),
            },
            _ => SpawnStateTimer { current_state: SpawnState::Stage4, timer: None },
        }
    }

    /// Moves on to the next stage; the last stage stays.
    pub fn next_state(&mut self)
        ensures
            *final(self) == old(self).spec_next_state(),
            final(self).wf(),
    {
        match self.current_state {
            SpawnState::Stage1 => {
                self.current_state = SpawnState::Stage2;
                self.timer = Some(Timer::from_millis(SECOND_STAGE, TimerMode::Once));
            },
            SpawnState::Stage2 => {
                self.current_state = SpawnState::Stage3;
                self.timer = Some(Timer::from_millis(THIRD_STAGE, TimerMode::Once));
            },
            _ => {
                self.current_state = SpawnState::Stage4;
                self.timer = None;
            },
        }
    }

    /// The stage timeline after `delta` milliseconds: the next stage when the
    /// countdown runs out, else the same stage with the countdown advanced.
    pub open spec fn spec_progress(self, delta: u64) -> SpawnStateTimer {
        match self.timer {
            Some(t) => if t.spec_tick(delta).finished {
                self.spec_next_state()
            } else {
                SpawnStateTimer { timer: Some(t.spec_tick(delta)), ..self }
            },
            None => self,
        }
    }

    /// Advances the countdown by `delta` milliseconds and moves on to the next
    /// stage when it runs out; tells whether the stage changed.
    pub fn enemy_spawn_state_progress(&mut self, delta: u64) -> (r: bool)
        requires
            old(self).wf(),
        ensures
            final(self).wf(),
            *final(self) == old(self).spec_progress(delta),
            r == (old(self).timer matches Some(t) && t.spec_tick(delta).finished),
            final(self).current_state.spec_rank() >= old(self).current_state.spec_rank(),
    {
        match self.timer {
            Some(t) => {
                let mut t = t;
                if t.tick(delta) {
                    self.next_state();
                    true
                } else {
                    self.timer = Some(t);
                    false
                }
            },
            None => false,
        }
    }
}

/// Time between two groups of one spawner, in milliseconds.
pub const ENEMY_SPAWN_RATE: u64 = 5_000;
/// The largest random turn of a spawned enemy on its circle, in thousandths
/// of a degree (exclusive).
pub const SPAWN_JITTER: u32 = 30_000;
/// A full turn, in thousandths of a degree.
pub const FULL_TURN: u32 = 360_000;

/// One enemy of a group, with its angle on the spawn circle in thousandths of
/// a degree.
#[derive(Debug, Clone, Copy, PartialEq, Eq, Structural)]
pub struct SpawnedEnemy {
    pub enemy: Enemy,
    pub angle: u32,
}

/// The angle of the `i`-th of `n` enemies spread evenly on the circle.
pub open spec fn spawn_angle(i: int, n: int, jitter: u32) -> int {
    i * ((FULL_TURN as int) / n) + jitter
}

/// Spawns a group of `kind.number_per_spawn()` enemies with consecutive ids
/// from `first_id`, spread evenly on the circle around the side's spawn point,
/// each turned by its own jitter.
pub fn spawn_group(
    side: Side,
    kind: EnemyType,
    first_id: u64,
    jitters: &Vec<u32>,
    global: &GlobalEnemyBuffs,
    buffs: &EnemyBuffs,
) -> (r: Vec<SpawnedEnemy>)
    requires
        jitters@.len() == kind.spec_number_per_spawn(),
        forall|i: int| 0 <= i < jitters@.len() ==> jitters@[i] < SPAWN_JITTER,
        first_id + kind.spec_number_per_spawn() <= u64::MAX,
    ensures
        r@.len() == kind.spec_number_per_spawn(),
        forall|i: int|
            0 <= i < r@.len() ==> {
                &&& #[trigger] r@[i].enemy == Enemy::spec_spawn(
                    (first_id + i) as u64,
                    side,
                    kind,
                    buffs.spec_with_global_buffs(*global),
                )
                &&& r@[i].angle == spawn_angle(i, r@.len() as int, jitters@[i])
            },
{
    let n = kind.number_per_spawn();
    let slice: u32 = FULL_TURN / n as u32;
    let mut r: Vec<SpawnedEnemy> = Vec::new();
    let mut i: u64 = 0;
    while i < n
        invariant
            n == kind.spec_number_per_spawn(),
            n <= 5,
            slice == (FULL_TURN as int) / (n as int),
            i <= n,
            jitters@.len() == n,
            forall|j: int| 0 <= j < jitters@.len() ==> jitters@[j] < SPAWN_JITTER,
            first_id + n <= u64::MAX,
            r@.len() == i,
            forall|j: int|
                0 <= j < i ==> {
                    &&& #[trigger] r@[j].enemy == Enemy::spec_spawn(
                        (first_id + j) as u64,
                        side,
                        kind,
                        buffs.spec_with_global_buffs(*global),
                    )
                    &&& r@[j].angle == spawn_angle(j, n as int, jitters@[j])
                },
        decreases n - i,
    {
        let enemy = Enemy::new(first_id + i, side, kind, global, buffs);
        assert(i * slice <= 5 * FULL_TURN) by (nonlinear_arith)
            requires
                i <= 5,
                slice <= FULL_TURN,
        ;
        let angle = i as u32 * slice + jitters[i as usize];
        r.push(SpawnedEnemy { enemy, angle });
        i = i + 1;
    }
    r
}

/// Spawn count and spacing: a group has exactly as many enemies as its kind
/// spawns at once, and consecutive enemies are one slice of the circle apart,
/// give or take the jitter.
pub proof fn lemma_spawn_spacing(n: int, i: int, a: u32, b: u32)
    requires
        1 <= n,
        0 <= i,
        i + 1 < n,
        a < SPAWN_JITTER,
        b < SPAWN_JITTER,
    ensures
        (FULL_TURN as int) / n - SPAWN_JITTER < spawn_angle(i + 1, n, b) - spawn_angle(i, n, a) < (FULL_TURN as int) / n
            + SPAWN_JITTER,
{
    assert((i + 1) * ((FULL_TURN as int) / n) == i * ((FULL_TURN as int) / n) + (FULL_TURN as int) / n) by (nonlinear_arith);
}

/// Draws the jitters of a group of `n` enemies.
pub fn roll_jitters(rng: &mut rand::rngs::ThreadRng, n: u64) -> (r: Vec<u32>)
    ensures
        r@.len() == n,
        forall|i: int| 0 <= i < r@.len() ==> r@[i] < SPAWN_JITTER,
{
    let mut r: Vec<u32> = Vec::new();
    let mut i: u64 = 0;
    while i < n
        invariant
            i <= n,
            r@.len() == i,
            forall|j: int| 0 <= j < r@.len() ==> r@[j] < SPAWN_JITTER,
        decreases n - i,
    {
        r.push(gen_range(rng, 0, SPAWN_JITTER - 1));
        i = i + 1;
    }
    r
}

/// A repeating spawner of one kind of enemy on one side.
#[derive(Debug, Clone, Copy, PartialEq, Eq, Structural)]
pub struct EnemySpawn {
    pub kind: EnemyType,
    pub timer: Timer,
}

impl EnemySpawn {
    pub open spec fn wf(self) -> bool {
        self.timer.wf() && self.timer.mode == TimerMode::Repeating && self.timer.duration > 0
    }

    /// A group is due after `delta`: the cadence fires and the kind spawns in
    /// `stage`.
    pub open spec fn spec_due(self, delta: u64, stage: SpawnState) -> bool {
        self.timer.spec_tick(delta).finished && self.kind.spec_first_stage() <= stage.spec_rank()
    }

    pub open spec fn spec_new(kind: EnemyType) -> EnemySpawn {
        EnemySpawn { kind, timer: Timer { duration: ENEMY_SPAWN_RATE, elapsed: 0, mode: TimerMode::Repeating, paused: false, finished: false } }
    }

    pub fn new(kind: EnemyType) -> (r: EnemySpawn)
        ensures
            r.wf(),
            r == Self::spec_new(kind),
    {
        EnemySpawn { kind, timer: Timer::from_millis(ENEMY_SPAWN_RATE, TimerMode::Repeating) }
    }

    /// Advances the cadence by `delta`; tells whether a group is due now, which
    /// is when the cadence fires and the kind spawns in `stage`.
    pub fn enemy_spawn(&mut self, delta: u64, stage: SpawnState) -> (r: bool)
        requires
            old(self).wf(),
        ensures
            final(self).wf(),
            *final(self) == (EnemySpawn { timer: old(self).timer.spec_tick(delta), ..*old(self) }),
            r == old(self).spec_due(delta, stage),
    {
        let fired = self.timer.tick(delta);
        fired && self.kind.unlocked(stage)
    }
}

impl Enemy {
    /// The enemy after one frame of `delta` milliseconds at `distance` from its
    /// wall: in range its attack cadence runs, out of range it is paused and
    /// keeps its progress.
    pub open spec fn spec_attack_step(self, distance: i64, delta: u64) -> Enemy {
        if self.attack.range < distance {
            Enemy { attack: EnemyAttack { attack_timer: Timer { paused: true, ..self.attack.attack_timer }, ..self.attack }, ..self }
        } else {
            Enemy { attack: EnemyAttack { attack_timer: Timer { paused: false, ..self.attack.attack_timer }.spec_tick(delta), ..self.attack }, ..self }
        }
    }

    /// Runs the attack of one frame; returns the damage dealt to the wall, if
    /// the attack fired.
    pub fn enemy_attack(&mut self, distance: i64, delta: u64) -> (r: Option<u32>)
        requires
            old(self).wf(),
        ensures
            final(self).wf(),
            *final(self) == old(self).spec_attack_step(distance, delta),
            r == (if final(self).attack.attack_timer.finished && old(self).attack.range >= distance {
                Some(old(self).attack.damage)
            } else {
                None::<u32>
            }),
    {
        if (self.attack.range as i64) < distance {
            self.attack.attack_timer.pause();
            None
        } else {
            self.attack.attack_timer.unpause();
            if self.attack.attack_timer.tick(delta) {
                Some(self.attack.damage)
            } else {
                None
            }
        }
    }
}

/// The enemies of `s` that are still alive, in order.
pub open spec fn alive(s: Seq<Enemy>) -> Seq<Enemy>
    decreases s.len(),
{
    if s.len() == 0 {
        s
    } else if s.last().health > 0 {
        alive(s.drop_last()).push(s.last())
    } else {
        alive(s.drop_last())
    }
}

/// The total experience reward of the dead enemies of `s`.
pub open spec fn dead_reward(s: Seq<Enemy>) -> nat
    decreases s.len(),
{
    if s.len() == 0 {
        0
    } else if s.last().health > 0 {
        dead_reward(s.drop_last())
    } else {
        (dead_reward(s.drop_last()) + s.last().exp) as nat
    }
}

/// `a + b`, held to `u64::MAX`.
pub open spec fn capped_sum(a: u64, b: nat) -> u64 {
    if a + b > u64::MAX {
        u64::MAX
    } else {
        (a + b) as u64
    }
}

/// Removes the enemies whose health fell to zero or below and gives their
/// rewards to the castle, each one counted.
pub fn enemy_death(enemies: &mut Vec<Enemy>, castle: &mut Castle)
    ensures
        final(enemies)@ == alive(old(enemies)@),
        *final(castle) == (Castle { exp: capped_sum(old(castle).exp, dead_reward(old(enemies)@)), ..*old(castle) }),
{
    let ghost old_enemies = enemies@;
    let mut kept: Vec<Enemy> = Vec::new();
    let mut i: usize = 0;
    while i < enemies.len()
        invariant
            enemies@ == old_enemies,
            i <= enemies@.len(),
            kept@ == alive(old_enemies.subrange(0, i as int)),
            *castle == (Castle { exp: capped_sum(old(castle).exp, dead_reward(old_enemies.subrange(0, i as int))), ..*old(castle) }),
        decreases enemies@.len() - i,
    {
        let e = enemies[i];
        proof {
            assert(old_enemies.subrange(0, i as int + 1).drop_last() =~= old_enemies.subrange(0, i as int));
        }
        if e.health > 0 {
            kept.push(e);
        } else {
            castle.gain_exp(e.exp);
        }
        i = i + 1;
    }
    proof {
        assert(old_enemies.subrange(0, old_enemies.len() as int) =~= old_enemies);
    }
    *enemies = kept;
}

/// The ids of `s` increase strictly along it.
pub open spec fn ids_sorted(s: Seq<Enemy>) -> bool {
    forall|i: int, j: int| 0 <= i < j < s.len() ==> s[i].id < s[j].id
}

/// The survivors are enemies of `s`, and keep the order of their ids.
pub proof fn lemma_alive(s: Seq<Enemy>)
    ensures
        forall|i: int| 0 <= i < alive(s).len() ==> s.contains(#[trigger] alive(s)[i]),
        alive(s).len() <= s.len(),
        ids_sorted(s) ==> ids_sorted(alive(s)),
    decreases s.len(),
{
    if s.len() > 0 {
        let p = s.drop_last();
        lemma_alive(p);
        assert forall|i: int| 0 <= i < alive(s).len() implies s.contains(#[trigger] alive(s)[i]) by {
            if i < alive(p).len() {
                let x = alive(p)[i];
                assert(p.contains(x));
                let k = choose|k: int| 0 <= k < p.len() && p[k] == x;
                assert(s[k] == x);
            } else {
                assert(s[s.len() - 1] == s.last());
            }
        }
        if ids_sorted(s) {
            assert(ids_sorted(p));
            if s.last().health > 0 {
                assert forall|i: int| 0 <= i < alive(p).len() implies (#[trigger] alive(p)[i]).id < s.last().id by {
                    let x = alive(p)[i];
                    assert(p.contains(x));
                    let k = choose|k: int| 0 <= k < p.len() && p[k] == x;
                    assert(s[k] == x);
                    assert(s[s.len() - 1] == s.last());
                }
            }
        }
    }
}

/// A frame that feeds no time moves no stage on and makes no spawner due.
pub proof fn lemma_no_time_no_spawn(t: SpawnStateTimer, s: EnemySpawn, stage: SpawnState)
    requires
        t.wf(),
        s.wf(),
    ensures
        t.spec_progress(0) == t,
        !s.spec_due(0, stage),
        s.timer.spec_tick(0).elapsed == s.timer.elapsed,
{
}

} // verus!
