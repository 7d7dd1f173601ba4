use vstd::prelude::*;

use crate::buffs::{Balance, EnemyBuffs};
use crate::castle::{Castle, CastleWall, WALL_HEALTH};
use crate::damage::{damage_enemy, damage_to, damage_wall, ids_unique, sub_capped, wall_damage, EnemyDamageEvent, WallDamageEvent};
use crate::enemies::{
    alive, capped_sum, dead_reward, enemy_death, roll_jitters, spawn_group, Enemy, EnemySpawn, EnemyType,
    SpawnState, SpawnStateTimer, SpawnedEnemy, ids_sorted, lemma_alive, lemma_no_time_no_spawn, FULL_TURN, SPAWN_JITTER,
};
use crate::side::{PerSide, Side};
use crate::timer::Timer;
use crate::upgrades::apply::{apply_upgrades, spec_apply_walls, walls_wf};
use crate::upgrades::generate::Upgrades;
use crate::weapons::molotov::Molotov;
use crate::weapons::Crossbow;

verus! {

/// The logical states of a run.
#[derive(Debug, Clone, Copy, PartialEq, Eq, Structural)]
pub enum GameState {
    NotInGame,
    InGame,
    Paused,
    GameOver,
    LevelUp,
    StatsNorth,
    StatsSouth,
    StatsWest,
    StatsEast,
}

/// The spawner of one kind of enemy on one side.
#[derive(Debug, Clone, Copy, PartialEq, Eq, Structural)]
pub struct SideSpawn {
    pub side: Side,
    pub spawn: EnemySpawn,
}

/// The whole state of a run.
pub struct Game {
    pub state: GameState,
    pub castle: Castle,
    pub walls: PerSide<CastleWall>,
    pub balance: Balance,
    pub crossbows: PerSide<Crossbow>,
    pub molotovs: PerSide<Molotov>,
    pub spawn_state: SpawnStateTimer,
    pub spawners: Vec<SideSpawn>,
    pub enemies: Vec<Enemy>,
    /// The id the next spawned enemy gets.
    pub next_id: u64,
    /// The four candidates offered at the next level-up.
    pub upgrades: Upgrades,
}

/// The kinds of enemies, in the order their spawners are made.
pub open spec fn spec_kind_at(k: int) -> EnemyType {
    if k == 0 {
        EnemyType::Bat
    } else if k == 1 {
        EnemyType::Goblin
    } else if k == 2 {
        EnemyType::SpearGoblin
    } else if k == 3 {
        EnemyType::Skull
    } else if k == 4 {
        EnemyType::PoisonIvy
    } else {
        EnemyType::MadCrab
    }
}

fn kind_at(k: usize) -> (r: EnemyType)
    ensures
        r == spec_kind_at(k as int),
{
    if k == 0 {
        EnemyType::Bat
    } else if k == 1 {
        EnemyType::Goblin
    } else if k == 2 {
        EnemyType::SpearGoblin
    } else if k == 3 {
        EnemyType::Skull
    } else if k == 4 {
        EnemyType::PoisonIvy
    } else {
        EnemyType::MadCrab
    }
}

/// The time a frame of `delta` milliseconds feeds to the simulation in
/// `state`: all of it while the run goes on, none while it is paused, over,
/// at a level-up or on a stats screen.
pub open spec fn spec_sim_delta(state: GameState, delta: u64) -> u64 {
    if state == GameState::InGame {
        delta
    } else {
        0
    }
}

impl Game {
    pub open spec fn wf(self) -> bool {
        &&& self.castle.wf()
        &&& walls_wf(self.walls)
        &&& self.crossbows.north.wf() && self.crossbows.south.wf()
        &&& self.crossbows.west.wf() && self.crossbows.east.wf()
        &&& self.molotovs.north.wf() && self.molotovs.south.wf()
        &&& self.molotovs.west.wf() && self.molotovs.east.wf()
        &&& self.spawn_state.wf()
        &&& forall|i: int| 0 <= i < self.spawners@.len() ==> (#[trigger] self.spawners@[i]).spawn.wf()
        &&& forall|i: int| 0 <= i < self.enemies@.len() ==> (#[trigger] self.enemies@[i]).wf()
        &&& forall|i: int| 0 <= i < self.enemies@.len() ==> (#[trigger] self.enemies@[i]).id < self.next_id
        &&& ids_sorted(self.enemies@)
    }

    /// A fresh run: full walls, no buffs, no enemies, the first stage, one
    /// spawner per side and kind, and `upgrades` ready for the first level-up.
    #[verifier::rlimit(40)]
    pub fn new(upgrades: Upgrades) -> (r: Game)
        ensures
            r.wf(),
            r.state == GameState::InGame,
            r.castle == Castle::spec_new(),
            r.walls == PerSide::<CastleWall>::spec_splat(CastleWall { health: WALL_HEALTH, max_health: WALL_HEALTH }),
            r.balance == Balance::spec_zero(),
            r.crossbows == PerSide::<Crossbow>::spec_splat(Crossbow::spec_new()),
            r.molotovs == PerSide::<Molotov>::spec_splat(Molotov::spec_new()),
            r.spawn_state == SpawnStateTimer::spec_new(),
            r.enemies@.len() == 0,
            r.spawners@.len() == 24,
            forall|i: int| 0 <= i < 24 ==> #[trigger] r.spawners@[i] == (SideSpawn {
                side: Side::spec_from_index((i / 6) as nat),
                spawn: EnemySpawn::spec_new(spec_kind_at(i % 6)),
            }),
            r.next_id == 0,
            r.upgrades == upgrades,
    {
        let mut spawners: Vec<SideSpawn> = Vec::new();
        let mut s: usize = 0;
        while s < 4
            invariant
                s <= 4,
                spawners@.len() == 6 * s,
                forall|i: int| 0 <= i < spawners@.len() ==> #[trigger] spawners@[i] == (SideSpawn {
                    side: Side::spec_from_index((i / 6) as nat),
                    spawn: EnemySpawn::spec_new(spec_kind_at(i % 6)),
                }),
            decreases 4 - s,
        {
            let side = Side::from_index(s);
            let mut k: usize = 0;
            while k < 6
                invariant
                    s < 4,
                    k <= 6,
                    side == Side::spec_from_index(s as nat),
                    spawners@.len() == 6 * s + k,
                    forall|i: int| 0 <= i < spawners@.len() ==> #[trigger] spawners@[i] == (SideSpawn {
                        side: Side::spec_from_index((i / 6) as nat),
                        spawn: EnemySpawn::spec_new(spec_kind_at(i % 6)),
                    }),
                decreases 6 - k,
            {
                spawners.push(SideSpawn { side, spawn: EnemySpawn::new(kind_at(k)) });
                proof {
                    let i = 6 * s + k;
                    assert(i / 6 == s && i % 6 == k) by (nonlinear_arith)
                        requires
                            i == 6 * s + k,
                            k < 6,
                    ;
                }
                k = k + 1;
            }
            s = s + 1;
        }
        Game {
            state: GameState::InGame,
            castle: Castle::new(),
            walls: PerSide::splat(CastleWall::new(WALL_HEALTH)),
            balance: Balance::new(),
            crossbows: PerSide::splat(Crossbow::new()),
            molotovs: PerSide::splat(Molotov::new()),
            spawn_state: SpawnStateTimer::new(),
            spawners,
            enemies: Vec::new(),
            next_id: 0,
            upgrades,
        }
    }
}

impl Game {
    /// The time this frame feeds to the simulation.
    pub fn sim_delta(&self, delta: u64) -> (r: u64)
        ensures
            r == spec_sim_delta(self.state, delta),
    {
        if self.state == GameState::InGame {
            delta
        } else {
            0
        }
    }

    /// Pauses a running game.
    pub fn pause(&mut self)
        ensures
            final(self).state == (if old(self).state == GameState::InGame { GameState::Paused } else { old(self).state }),
            *final(self) == (Game { state: final(self).state, ..*old(self) }),
    {
        if self.state == GameState::InGame {
            self.state = GameState::Paused;
        }
    }

    /// Resumes a paused game, or leaves a stats screen.
    pub fn resume(&mut self)
        ensures
            final(self).state == (match old(self).state {
                GameState::Paused | GameState::StatsNorth | GameState::StatsSouth | GameState::StatsWest
                | GameState::StatsEast => GameState::InGame,
                s => s,
            }),
            *final(self) == (Game { state: final(self).state, ..*old(self) }),
    {
        match self.state {
            GameState::Paused | GameState::StatsNorth | GameState::StatsSouth | GameState::StatsWest
            | GameState::StatsEast => {
                self.state = GameState::InGame;
            },
            _ => {},
        }
    }

    /// Opens the stats screen of a side, which pauses a running game.
    pub fn open_stats(&mut self, side: Side)
        ensures
            final(self).state == (if old(self).state == GameState::InGame {
                match side {
                    Side::North => GameState::StatsNorth,
                    Side::South => GameState::StatsSouth,
                    Side::West => GameState::StatsWest,
                    Side::East => GameState::StatsEast,
                }
            } else {
                old(self).state
            }),
            *final(self) == (Game { state: final(self).state, ..*old(self) }),
    {
        if self.state == GameState::InGame {
            self.state = match side {
                Side::North => GameState::StatsNorth,
                Side::South => GameState::StatsSouth,
                Side::West => GameState::StatsWest,
                Side::East => GameState::StatsEast,
            };
        }
    }

    /// In a running game, levels the castle up once if enough experience was
    /// gathered and opens the level-up choice.
    pub fn castle_level_up(&mut self) -> (r: bool)
        requires
            old(self).wf(),
        ensures
            final(self).wf(),
            r == (old(self).state == GameState::InGame && old(self).castle.spec_level_up_due()),
            r ==> final(self).castle == old(self).castle.spec_level_up() && final(self).state == GameState::LevelUp,
            !r ==> final(self).castle == old(self).castle && final(self).state == old(self).state,
            *final(self) == (Game { castle: final(self).castle, state: final(self).state, ..*old(self) }),
    {
        if self.state != GameState::InGame {
            return false;
        }
        let up = self.castle.castle_level_up();
        if up {
            self.state = GameState::LevelUp;
        }
        up
    }

    /// In a running game, ends the run when a wall is breached.
    pub fn check_wall_destroyed(&mut self) -> (r: bool)
        ensures
            r == (old(self).state == GameState::InGame && (old(self).walls.north.spec_destroyed()
                || old(self).walls.south.spec_destroyed() || old(self).walls.west.spec_destroyed()
                || old(self).walls.east.spec_destroyed())),
            final(self).state == (if r { GameState::GameOver } else { old(self).state }),
            *final(self) == (Game { state: final(self).state, ..*old(self) }),
    {
        if self.state == GameState::InGame && (self.walls.north.is_destroyed() || self.walls.south.is_destroyed()
            || self.walls.west.is_destroyed() || self.walls.east.is_destroyed()) {
            self.state = GameState::GameOver;
            true
        } else {
            false
        }
    }

    /// At a level-up, applies the candidate the player picked, offers `fresh`
    /// candidates for the next level-up and resumes the run. Anywhere else it
    /// does nothing and returns `false`.
    pub fn select_upgrade(&mut self, index: usize, fresh: Upgrades) -> (r: bool)
        requires
            old(self).wf(),
            index < 4,
        ensures
            final(self).wf(),
            r == (old(self).state == GameState::LevelUp),
            r ==> {
                &&& final(self).walls == spec_apply_walls(old(self).walls, old(self).upgrades.upgrades[index as int])
                &&& final(self).balance == old(self).balance.spec_apply_upgrade(old(self).upgrades.upgrades[index as int])
                &&& final(self).upgrades == fresh
                &&& final(self).state == GameState::InGame
            },
            !r ==> final(self).walls == old(self).walls && final(self).balance == old(self).balance
                && final(self).upgrades == old(self).upgrades && final(self).state == old(self).state,
            *final(self) == (Game {
                walls: final(self).walls,
                balance: final(self).balance,
                upgrades: final(self).upgrades,
                state: final(self).state,
                ..*old(self)
            }),
    {
        if self.state != GameState::LevelUp {
            return false;
        }
        let chosen = self.upgrades.upgrades[index];
        apply_upgrades(&mut self.balance, &mut self.walls, &chosen);
        self.upgrades = fresh;
        self.state = GameState::InGame;
        true
    }
}

/// The buffs an enemy of `side` spawns with: the side's and the global ones.
pub open spec fn spawn_buffs(b: Balance, side: Side) -> EnemyBuffs {
    b.enemies.spec_get(side).spec_with_global_buffs(b.global_enemy)
}

/// `g` is a group of the spawner `s`: as many enemies as its kind spawns at
/// once, with consecutive ids from `first`, the buffs `b` in force, and each
/// one at its slice of the circle turned by less than the jitter bound.
pub open spec fn is_group(s: SideSpawn, b: Balance, first: int, g: Seq<SpawnedEnemy>) -> bool {
    let n = s.spawn.kind.spec_number_per_spawn() as int;
    &&& g.len() == n
    &&& forall|k: int|
        0 <= k < n ==> {
            &&& #[trigger] g[k].enemy == Enemy::spec_spawn(
                (first + k) as u64,
                s.side,
                s.spawn.kind,
                spawn_buffs(b, s.side),
            )
            &&& k * ((FULL_TURN as int) / n) <= g[k].angle < k * ((FULL_TURN as int) / n) + SPAWN_JITTER
        }
}

/// The spawner `s` spawns a group this frame, the next id being `next`: it is
/// due and the ids of the group fit in `u64`.
pub open spec fn spawner_fires(s: SideSpawn, delta: u64, stage: SpawnState, next: int) -> bool {
    s.spawn.spec_due(delta, stage) && next + s.spawn.kind.spec_number_per_spawn() <= u64::MAX
}

/// How many enemies the spawners `sp` spawn this frame, in order, from the id `id0`.
pub open spec fn spawn_count(sp: Seq<SideSpawn>, delta: u64, stage: SpawnState, id0: int) -> nat
    decreases sp.len(),
{
    if sp.len() == 0 {
        0
    } else {
        let c = spawn_count(sp.drop_last(), delta, stage, id0);
        if spawner_fires(sp.last(), delta, stage, id0 + c) {
            (c + sp.last().spawn.kind.spec_number_per_spawn()) as nat
        } else {
            c
        }
    }
}

/// `r` is, in the order of the spawners, the group of each spawner of `sp`
/// that fires this frame.
pub open spec fn spawned_groups(
    sp: Seq<SideSpawn>,
    delta: u64,
    stage: SpawnState,
    b: Balance,
    id0: int,
    r: Seq<SpawnedEnemy>,
) -> bool
    decreases sp.len(),
{
    if sp.len() == 0 {
        r.len() == 0
    } else {
        let c = spawn_count(sp.drop_last(), delta, stage, id0) as int;
        let s = sp.last();
        let n = s.spawn.kind.spec_number_per_spawn() as int;
        if spawner_fires(s, delta, stage, id0 + c) {
            &&& r.len() == c + n
            &&& spawned_groups(sp.drop_last(), delta, stage, b, id0, r.subrange(0, c))
            &&& is_group(s, b, id0 + c, r.subrange(c, c + n))
        } else {
            spawned_groups(sp.drop_last(), delta, stage, b, id0, r)
        }
    }
}

/// A spawner after a frame of `delta` milliseconds.
pub open spec fn ticked(s: SideSpawn, delta: u64) -> SideSpawn {
    SideSpawn { spawn: EnemySpawn { timer: s.spawn.timer.spec_tick(delta), ..s.spawn }, ..s }
}

/// Appends a spawned group to the enemies of the game and to the list of
/// what spawned this frame.
fn push_group(enemies: &mut Vec<Enemy>, out: &mut Vec<SpawnedEnemy>, group: &Vec<SpawnedEnemy>)
    ensures
        final(enemies)@.len() == old(enemies)@.len() + group@.len(),
        final(out)@.len() == old(out)@.len() + group@.len(),
        forall|k: int| 0 <= k < old(enemies)@.len() ==> #[trigger] final(enemies)@[k] == old(enemies)@[k],
        forall|k: int| 0 <= k < old(out)@.len() ==> #[trigger] final(out)@[k] == old(out)@[k],
        forall|t: int| 0 <= t < group@.len() ==> #[trigger] final(enemies)@[old(enemies)@.len() + t] == group@[t].enemy,
        forall|t: int| 0 <= t < group@.len() ==> #[trigger] final(out)@[old(out)@.len() + t] == group@[t],
{
    let ghost e0 = enemies@;
    let ghost o0 = out@;
    let mut j: usize = 0;
    while j < group.len()
        invariant
            j <= group@.len(),
            enemies@.len() == e0.len() + j,
            out@.len() == o0.len() + j,
            forall|k: int| 0 <= k < e0.len() ==> #[trigger] enemies@[k] == e0[k],
            forall|k: int| 0 <= k < o0.len() ==> #[trigger] out@[k] == o0[k],
            forall|t: int| 0 <= t < j ==> #[trigger] enemies@[e0.len() + t] == group@[t].enemy,
            forall|t: int| 0 <= t < j ==> #[trigger] out@[o0.len() + t] == group@[t],
        decreases group@.len() - j,
    {
        enemies.push(group[j].enemy);
        out.push(group[j]);
        j = j + 1;
    }
}

impl Game {
    /// Advances the stage timeline and every spawner by `delta`; each spawner
    /// that is due spawns its group with the buffs in force now. Returns the
    /// new enemies with their angles, which are also added to the game.
    #[verifier::rlimit(40)]
    pub fn progress_spawns(&mut self, delta: u64, rng: &mut rand::rngs::ThreadRng) -> (r: Vec<SpawnedEnemy>)
        requires
            old(self).wf(),
        ensures
            final(self).wf(),
            final(self).enemies@.len() == old(self).enemies@.len() + r@.len(),
            forall|i: int| 0 <= i < old(self).enemies@.len() ==> #[trigger] final(self).enemies@[i] == old(self).enemies@[i],
            forall|j: int| 0 <= j < r@.len() ==> #[trigger] final(self).enemies@[old(self).enemies@.len() + j] == r@[j].enemy,
            final(self).spawn_state == old(self).spawn_state.spec_progress(delta),
            final(self).spawners@.len() == old(self).spawners@.len(),
            forall|i: int| 0 <= i < final(self).spawners@.len() ==> #[trigger] final(self).spawners@[i] == ticked(
                old(self).spawners@[i],
                delta,
            ),
            spawned_groups(
                old(self).spawners@,
                delta,
                final(self).spawn_state.current_state,
                old(self).balance,
                old(self).next_id as int,
                r@,
            ),
            r@.len() == spawn_count(old(self).spawners@, delta, final(self).spawn_state.current_state, old(self).next_id as int),
            final(self).next_id == old(self).next_id + r@.len(),
            *final(self) == (Game {
                enemies: final(self).enemies,
                spawners: final(self).spawners,
                spawn_state: final(self).spawn_state,
                next_id: final(self).next_id,
                ..*old(self)
            }),
    {
        self.spawn_state.enemy_spawn_state_progress(delta);
        let stage = self.spawn_state.current_state;
        let ghost old_enemies = self.enemies@;
        let ghost old_sp = self.spawners@;
        let mut out: Vec<SpawnedEnemy> = Vec::new();
        let mut i: usize = 0;
        while i < self.spawners.len()
            invariant
                self.wf(),
                i <= self.spawners@.len(),
                self.spawners@.len() == old(self).spawners@.len(),
                self.enemies@.len() == old_enemies.len() + out@.len(),
                old_enemies == old(self).enemies@,
                forall|k: int| 0 <= k < old_enemies.len() ==> #[trigger] self.enemies@[k] == old_enemies[k],
                forall|j: int| 0 <= j < out@.len() ==> #[trigger] self.enemies@[old_enemies.len() + j] == out@[j].enemy,
                forall|j: int| 0 <= j < out@.len() ==> (#[trigger] out@[j]).enemy.id >= old(self).next_id,
                self.next_id == old(self).next_id + out@.len(),
                old_sp == old(self).spawners@,
                stage == self.spawn_state.current_state,
                self.spawn_state == old(self).spawn_state.spec_progress(delta),
                forall|k: int| 0 <= k < i ==> #[trigger] self.spawners@[k] == ticked(old_sp[k], delta),
                forall|k: int| i <= k < old_sp.len() ==> #[trigger] self.spawners@[k] == old_sp[k],
                out@.len() == spawn_count(old_sp.subrange(0, i as int), delta, stage, old(self).next_id as int),
                spawned_groups(old_sp.subrange(0, i as int), delta, stage, old(self).balance, old(self).next_id as int, out@),
                *self == (Game {
                    enemies: self.enemies,
                    spawners: self.spawners,
                    spawn_state: self.spawn_state,
                    next_id: self.next_id,
                    ..*old(self)
                }),
            decreases self.spawners@.len() - i,
        {
            let mut sp = self.spawners[i];
            assert(sp.spawn.wf());
            proof {
                assert(old_sp.subrange(0, i as int + 1).drop_last() =~= old_sp.subrange(0, i as int));
                assert(old_sp.subrange(0, i as int + 1).last() == old_sp[i as int]);
            }
            let due = sp.spawn.enemy_spawn(delta, stage);
            self.spawners.set(i, sp);
            let n = sp.spawn.kind.number_per_spawn();
            if due && self.next_id <= u64::MAX - n {
                let jitters = roll_jitters(rng, n);
                let buffs = self.balance.enemies.get(sp.side);
                let group = spawn_group(sp.side, sp.spawn.kind, self.next_id, &jitters, &self.balance.global_enemy, &buffs);
                let ghost before = self.enemies@;
                let ghost out_before = out@;
                let first = self.next_id;
                push_group(&mut self.enemies, &mut out, &group);
                self.next_id = first + n;
                proof {
                    assert forall|k: int| 0 <= k < self.enemies@.len() implies (#[trigger] self.enemies@[k]).id < self.next_id && self.enemies@[k].wf() by {
                        if k >= before.len() {
                            assert(self.enemies@[before.len() + (k - before.len())] == group@[k - before.len()].enemy);
                        }
                    }
                    assert forall|a: int, b: int| 0 <= a < b < self.enemies@.len() implies self.enemies@[a].id < self.enemies@[b].id by {
                        if a >= before.len() {
                            assert(self.enemies@[before.len() + (a - before.len())] == group@[a - before.len()].enemy);
                        }
                        if b >= before.len() {
                            assert(self.enemies@[before.len() + (b - before.len())] == group@[b - before.len()].enemy);
                        }
                    }
                    assert forall|t: int| 0 <= t < out@.len() implies #[trigger] self.enemies@[old_enemies.len() + t] == out@[t].enemy by {
                        if t >= out_before.len() {
                            assert(out@[out_before.len() + (t - out_before.len())] == group@[t - out_before.len()]);
                            assert(self.enemies@[before.len() + (t - out_before.len())] == group@[t - out_before.len()].enemy);
                        }
                    }
                    assert forall|t: int| 0 <= t < out@.len() implies (#[trigger] out@[t]).enemy.id >= old(self).next_id by {
                        if t >= out_before.len() {
                            assert(out@[out_before.len() + (t - out_before.len())] == group@[t - out_before.len()]);
                        }
                    }
                    let c = out_before.len() as int;
                    assert(out@.subrange(0, c) =~= out_before);
                    assert(out@.subrange(c, c + n) =~= group@) by {
                        assert forall|t: int| 0 <= t < n implies out@.subrange(c, c + n)[t] == group@[t] by {
                            assert(out@[out_before.len() + t] == group@[t]);
                        }
                    }
                }
            }
            i = i + 1;
        }
        proof {
            assert(old_sp.subrange(0, old_sp.len() as int) =~= old_sp);
        }
        out
    }
}

/// The wall hits that the attacks of one frame produce, in the order of the
/// enemies.
pub open spec fn attack_events(enemies: Seq<Enemy>, distances: Seq<i64>, delta: u64) -> Seq<WallDamageEvent>
    decreases enemies.len(),
{
    if enemies.len() == 0 {
        Seq::empty()
    } else {
        let e = enemies.last();
        let d = distances[enemies.len() - 1];
        let prev = attack_events(enemies.drop_last(), distances, delta);
        if e.spec_attack_step(d, delta).attack.attack_timer.finished && e.attack.range >= d {
            prev.push(WallDamageEvent { side: e.side, damage: e.attack.damage })
        } else {
            prev
        }
    }
}

impl Game {
    /// Runs the attack of every enemy for one frame; `distances[i]` is how far
    /// the `i`-th enemy is from its wall. Returns the hits on the walls.
    #[verifier::rlimit(40)]
    pub fn enemy_attacks(&mut self, distances: &Vec<i64>, delta: u64) -> (r: Vec<WallDamageEvent>)
        requires
            old(self).wf(),
            distances@.len() == old(self).enemies@.len(),
        ensures
            final(self).wf(),
            final(self).enemies@.len() == old(self).enemies@.len(),
            forall|i: int| 0 <= i < final(self).enemies@.len() ==> #[trigger] final(self).enemies@[i]
                == old(self).enemies@[i].spec_attack_step(distances@[i], delta),
            r@ == attack_events(old(self).enemies@, distances@, delta),
            *final(self) == (Game { enemies: final(self).enemies, ..*old(self) }),
    {
        let ghost start = self.enemies@;
        let mut events: Vec<WallDamageEvent> = Vec::new();
        let mut i: usize = 0;
        while i < self.enemies.len()
            invariant
                self.wf(),
                i <= self.enemies@.len(),
                self.enemies@.len() == start.len(),
                start == old(self).enemies@,
                distances@.len() == start.len(),
                forall|k: int| 0 <= k < i ==> #[trigger] self.enemies@[k] == start[k].spec_attack_step(distances@[k], delta),
                forall|k: int| i <= k < start.len() ==> #[trigger] self.enemies@[k] == start[k],
                events@ == attack_events(start.subrange(0, i as int), distances@, delta),
                *self == (Game { enemies: self.enemies, ..*old(self) }),
            decreases start.len() - i,
        {
            let mut e = self.enemies[i];
            let hit = e.enemy_attack(distances[i], delta);
            self.enemies.set(i, e);
            proof {
                assert(start.subrange(0, i as int + 1).drop_last() =~= start.subrange(0, i as int));
                assert(start.subrange(0, i as int + 1).last() == start[i as int]);
            }
            if let Some(damage) = hit {
                events.push(WallDamageEvent::new(e.side, damage));
            }
            proof {
                assert forall|a: int, b: int| 0 <= a < b < self.enemies@.len() implies self.enemies@[a].id < self.enemies@[b].id by {
                    assert(self.enemies@[a].id == start[a].id);
                    assert(self.enemies@[b].id == start[b].id);
                }
                assert forall|k: int| 0 <= k < self.enemies@.len() implies (#[trigger] self.enemies@[k]).wf() && self.enemies@[k].id < self.next_id by {
                    assert(self.enemies@[k].id == start[k].id);
                }
            }
            i = i + 1;
        }
        proof {
            assert(start.subrange(0, start.len() as int) =~= start);
        }
        events
    }

    /// Applies the hits of a frame: each enemy hit takes its damage if it is
    /// still there, each wall takes the hits on its side.
    #[verifier::rlimit(40)]
    pub fn resolve_damage(&mut self, enemy_events: &Vec<EnemyDamageEvent>, wall_events: &Vec<WallDamageEvent>)
        requires
            old(self).wf(),
        ensures
            final(self).wf(),
            final(self).enemies@.len() == old(self).enemies@.len(),
            forall|j: int| 0 <= j < final(self).enemies@.len() ==> #[trigger] final(self).enemies@[j] == (Enemy {
                health: sub_capped(old(self).enemies@[j].health, damage_to(enemy_events@, old(self).enemies@[j].id)),
                ..old(self).enemies@[j]
            }),
            forall|s: Side| #[trigger] final(self).walls.spec_get(s) == (CastleWall {
                health: sub_capped(old(self).walls.spec_get(s).health, wall_damage(wall_events@, s)),
                ..old(self).walls.spec_get(s)
            }),
            *final(self) == (Game { enemies: final(self).enemies, walls: final(self).walls, ..*old(self) }),
    {
        proof {
            assert(ids_unique(self.enemies@)) by {
                assert forall|i: int, j: int| 0 <= i < self.enemies@.len() && 0 <= j < self.enemies@.len() && i != j implies self.enemies@[i].id != self.enemies@[j].id by {
                    if i < j {
                    } else {
                    }
                }
            }
        }
        let ghost start = self.enemies@;
        damage_enemy(&mut self.enemies, enemy_events);
        proof {
            assert forall|a: int, b: int| 0 <= a < b < self.enemies@.len() implies self.enemies@[a].id < self.enemies@[b].id by {
                assert(self.enemies@[a].id == start[a].id);
                assert(self.enemies@[b].id == start[b].id);
            }
            assert forall|k: int| 0 <= k < self.enemies@.len() implies (#[trigger] self.enemies@[k]).wf() && self.enemies@[k].id < self.next_id by {
                assert(self.enemies@[k].id == start[k].id);
            }
        }
        damage_wall(Side::North, &mut self.walls.north, wall_events);
        damage_wall(Side::South, &mut self.walls.south, wall_events);
        damage_wall(Side::West, &mut self.walls.west, wall_events);
        damage_wall(Side::East, &mut self.walls.east, wall_events);
    }

    /// Removes the dead enemies and gives their rewards to the castle.
    pub fn enemy_death(&mut self)
        requires
            old(self).wf(),
        ensures
            final(self).wf(),
            final(self).enemies@ == alive(old(self).enemies@),
            final(self).castle == (Castle { exp: capped_sum(old(self).castle.exp, dead_reward(old(self).enemies@)), ..old(self).castle }),
            *final(self) == (Game { enemies: final(self).enemies, castle: final(self).castle, ..*old(self) }),
    {
        let ghost start = self.enemies@;
        enemy_death(&mut self.enemies, &mut self.castle);
        proof {
            lemma_alive(start);
            assert forall|k: int| 0 <= k < self.enemies@.len() implies (#[trigger] self.enemies@[k]).wf() && self.enemies@[k].id < self.next_id by {
                assert(start.contains(self.enemies@[k]));
            }
        }
    }
}

/// The enemies after the hits of `events`, before the death sweep.
pub open spec fn resolved_enemies(enemies: Seq<Enemy>, events: Seq<EnemyDamageEvent>) -> Seq<Enemy> {
    Seq::new(
        enemies.len(),
        |j: int| Enemy { health: sub_capped(enemies[j].health, damage_to(events, enemies[j].id)), ..enemies[j] },
    )
}

pub open spec fn any_wall_destroyed(walls: PerSide<CastleWall>) -> bool {
    walls.north.spec_destroyed() || walls.south.spec_destroyed() || walls.west.spec_destroyed()
        || walls.east.spec_destroyed()
}

impl Game {
    /// Ends a frame in the order the rules need: the hits of the frame are
    /// applied, then the dead are swept and rewarded (so a killing blow pays
    /// in the frame it lands), then a breached wall ends the run, and only
    /// otherwise a level-up is checked. Returns the state after the frame.
    pub fn end_frame(&mut self, enemy_events: &Vec<EnemyDamageEvent>, wall_events: &Vec<WallDamageEvent>) -> (r: GameState)
        requires
            old(self).wf(),
        ensures
            final(self).wf(),
            final(self).enemies@ == alive(resolved_enemies(old(self).enemies@, enemy_events@)),
            forall|s: Side| #[trigger] final(self).walls.spec_get(s) == (CastleWall {
                health: sub_capped(old(self).walls.spec_get(s).health, wall_damage(wall_events@, s)),
                ..old(self).walls.spec_get(s)
            }),
            ({
                let rewarded = Castle {
                    exp: capped_sum(old(self).castle.exp, dead_reward(resolved_enemies(old(self).enemies@, enemy_events@))),
                    ..old(self).castle
                };
                let breached = old(self).state == GameState::InGame && any_wall_destroyed(final(self).walls);
                let levels = old(self).state == GameState::InGame && !breached && rewarded.spec_level_up_due();
                &&& final(self).castle == (if levels { rewarded.spec_level_up() } else { rewarded })
                &&& final(self).state == (if breached {
                    GameState::GameOver
                } else if levels {
                    GameState::LevelUp
                } else {
                    old(self).state
                })
            }),
            r == final(self).state,
            *final(self) == (Game {
                enemies: final(self).enemies,
                walls: final(self).walls,
                castle: final(self).castle,
                state: final(self).state,
                ..*old(self)
            }),
    {
        self.resolve_damage(enemy_events, wall_events);
        assert(self.enemies@ =~= resolved_enemies(old(self).enemies@, enemy_events@));
        self.enemy_death();
        if !self.check_wall_destroyed() {
            self.castle_level_up();
        }
        self.state
    }
}

/// While the run is paused, over, at a level-up or on a stats screen, a frame
/// gives no timer any progress, however long it lasts.
pub proof fn lemma_paused_game_stops_timers(state: GameState, t: Timer, delta: u64)
    requires
        state != GameState::InGame,
        t.wf(),
    ensures
        spec_sim_delta(state, delta) == 0,
        t.spec_tick(spec_sim_delta(state, delta)).elapsed == t.elapsed,
{
}

proof fn lemma_spawn_count_without_time(sp: Seq<SideSpawn>, stage: SpawnState, id0: int)
    requires
        forall|i: int| 0 <= i < sp.len() ==> (#[trigger] sp[i]).spawn.wf(),
    ensures
        spawn_count(sp, 0, stage, id0) == 0,
    decreases sp.len(),
{
    if sp.len() > 0 {
        lemma_spawn_count_without_time(sp.drop_last(), stage, id0);
        assert(sp.last() == sp[sp.len() - 1]);
        lemma_no_time_no_spawn(SpawnStateTimer::spec_new(), sp.last().spawn, stage);
    }
}

/// While the run is not going on, a frame moves the stages on by nothing and
/// no spawner spawns anything, however long the frame lasts.
pub proof fn lemma_paused_game_spawns_nothing(g: Game, delta: u64)
    requires
        g.wf(),
        g.state != GameState::InGame,
    ensures
        g.spawn_state.spec_progress(spec_sim_delta(g.state, delta)) == g.spawn_state,
        spawn_count(
            g.spawners@,
            spec_sim_delta(g.state, delta),
            g.spawn_state.current_state,
            g.next_id as int,
        ) == 0,
{
    lemma_spawn_count_without_time(g.spawners@, g.spawn_state.current_state, g.next_id as int);
    lemma_no_time_no_spawn(g.spawn_state, EnemySpawn::spec_new(EnemyType::Bat), g.spawn_state.current_state);
}

} // verus!
