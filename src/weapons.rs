use vstd::prelude::*;

use crate::buffs::{CrossbowBuffs, GlobalWeaponBuffs};
use crate::damage::EnemyDamageEvent;
use crate::rng::gen_range;
use crate::timer::{Timer, TimerMode};

pub mod molotov;

verus! {

/// A point of the field, in whole units.
#[derive(Debug, Clone, Copy, PartialEq, Eq, Structural)]
pub struct Point {
    pub x: i32,
    pub y: i32,
}

/// An enemy as a weapon sees it: its id and where it is.
#[derive(Debug, Clone, Copy, PartialEq, Eq, Structural)]
pub struct Target {
    pub id: u64,
    pub pos: Point,
}

/// The square of the distance between two points.
pub open spec fn dist2(a: Point, b: Point) -> int {
    (a.x - b.x) * (a.x - b.x) + (a.y - b.y) * (a.y - b.y)
}

fn distance_squared(a: Point, b: Point) -> (r: u128)
    ensures
        r == dist2(a, b),
{
    let dx = a.x as i128 - b.x as i128;
    let dy = a.y as i128 - b.y as i128;
    assert(0 <= dx * dx <= 0x1_0000_0000 * 0x1_0000_0000) by (nonlinear_arith)
        requires
            -0x1_0000_0000 <= dx <= 0x1_0000_0000,
    ;
    assert(0 <= dy * dy <= 0x1_0000_0000 * 0x1_0000_0000) by (nonlinear_arith)
        requires
            -0x1_0000_0000 <= dy <= 0x1_0000_0000,
    ;
    (dx * dx + dy * dy) as u128
}

/// The nearest target within `range` of `origin`: the first of the nearest
/// ones, or `None` when no target is that close.
pub fn nearest_in_range(origin: Point, targets: &Vec<Target>, range: u32) -> (r: Option<usize>)
    ensures
        match r {
            Some(i) => {
                &&& i < targets@.len()
                &&& dist2(origin, targets@[i as int].pos) <= range * range
                &&& forall|j: int| 0 <= j < targets@.len() ==> dist2(origin, targets@[i as int].pos) <= dist2(origin, #[trigger] targets@[j].pos)
                &&& forall|j: int| 0 <= j < i ==> dist2(origin, targets@[i as int].pos) < dist2(origin, #[trigger] targets@[j].pos)
            },
            None => forall|j: int| 0 <= j < targets@.len() ==> dist2(origin, #[trigger] targets@[j].pos) > range * range,
        },
{
    let r128 = range as u128;
    assert(r128 * r128 <= 0x1_0000_0000 * 0x1_0000_0000) by (nonlinear_arith)
        requires
            r128 <= 0x1_0000_0000,
    ;
    let limit: u128 = r128 * r128;
    let mut best: Option<usize> = None;
    let mut best_d: u128 = 0;
    let mut i: usize = 0;
    while i < targets.len()
        invariant
            i <= targets@.len(),
            limit == range * range,
            match best {
                Some(b) => {
                    &&& b < i
                    &&& best_d == dist2(origin, targets@[b as int].pos)
                    &&& best_d <= limit
                    &&& forall|j: int| 0 <= j < i ==> best_d <= dist2(origin, #[trigger] targets@[j].pos)
                    &&& forall|j: int| 0 <= j < b ==> best_d < dist2(origin, #[trigger] targets@[j].pos)
                },
                None => forall|j: int| 0 <= j < i ==> dist2(origin, #[trigger] targets@[j].pos) > limit,
            },
        decreases targets@.len() - i,
    {
        let d = distance_squared(origin, targets[i].pos);
        match best {
            Some(_) => {
                if d < best_d {
                    best = Some(i);
                    best_d = d;
                }
            },
            None => {
                if d <= limit {
                    best = Some(i);
                    best_d = d;
                }
            },
        }
        i = i + 1;
    }
    best
}

/// `n` held to `u32::MAX`.
pub open spec fn cap(n: int) -> u32 {
    if n > u32::MAX {
        u32::MAX
    } else {
        n as u32
    }
}

/// Damage of `base` raised by a flat bonus and then by `pct` tenths of a
/// percent, rounded down.
pub open spec fn buffed(base: int, flat: int, pct: int) -> u32 {
    cap((base + flat) * (1000 + pct) / 1000)
}

/// Computes `buffed(base, flat, pct)` for 34-bit inputs.
pub fn buff(base: u64, flat: u64, pct: u64) -> (r: u32)
    requires
        base < 0x4_0000_0000,
        flat < 0x4_0000_0000,
        pct < 0x4_0000_0000,
    ensures
        r == buffed(base as int, flat as int, pct as int),
{
    let a = base as u128 + flat as u128;
    let b = 1000 + pct as u128;
    assert(a * b <= 0x8_0000_0000 * 0x4_0000_1000) by (nonlinear_arith)
        requires
            a <= 0x8_0000_0000,
            b <= 0x4_0000_1000,
    ;
    let v = a * b / 1000;
    if v > u32::MAX as u128 {
        u32::MAX
    } else {
        v as u32
    }
}

/// Draws a roll against a chance counted in tenths of a percent.
pub fn roll_crit(rng: &mut rand::rngs::ThreadRng) -> (r: u32)
    ensures
        r < 1000,
{
    gen_range(rng, 0, 999)
}

/// Damage of a hit: the critical damage when the roll is below the chance.
pub open spec fn hit_damage(damage: u32, crit_damage: u32, crit_chance: u32, roll: u32) -> (u32, bool) {
    if roll < crit_chance {
        (crit_damage, true)
    } else {
        (damage, false)
    }
}

pub const DEFAULT_CROSSBOW_DAMAGE: u32 = 20;
/// Extra damage of a critical hit, in tenths of a percent of the base damage.
pub const DEFAULT_CROSSBOW_CRIT_DAMAGE: u32 = 1000;
/// In tenths of a percent.
pub const DEFAULT_CROSSBOW_CRIT_CHANCE: u32 = 50;
pub const DEFAULT_CROSSBOW_RANGE: u32 = 500;
/// Time between two shots, in milliseconds.
pub const DEFAULT_CROSSBOW_ATTACK_SPEED: u64 = 1000;
pub const DEFAULT_BOLT_SPEED: u32 = 200;
/// How long a bolt flies before it is gone, in milliseconds.
pub const DEFAULT_ARROW_LIFESPAN: u64 = 10_000;

/// The single-target weapon of a side.
#[derive(Debug, Clone, Copy, PartialEq, Eq, Structural)]
pub struct Crossbow {
    pub damage: u32,
    pub range: u32,
    /// Extra damage of a critical hit, in tenths of a percent of the base damage.
    pub crit_damage: u32,
    /// In tenths of a percent.
    pub crit_chance: u32,
    pub arrow_speed: u32,
    pub attack_timer: Timer,
}

/// A bolt in flight, with the damage it carries.
#[derive(Debug, Clone, Copy, PartialEq, Eq, Structural)]
pub struct Projectile {
    pub damage: u32,
    pub was_crit: bool,
    pub lifespan: Timer,
}

/// What became of a bolt in one frame.
#[derive(Debug, Clone, Copy, PartialEq, Eq, Structural)]
pub enum ProjectileStep {
    Flying,
    Expired,
    Hit(EnemyDamageEvent),
}

impl Projectile {
    pub open spec fn wf(self) -> bool {
        self.lifespan.wf()
    }

    pub fn new(damage: u32, was_crit: bool) -> (r: Projectile)
        ensures
            r.wf(),
            r == (Projectile { damage, was_crit, lifespan: Timer { duration: DEFAULT_ARROW_LIFESPAN, elapsed: 0, mode: TimerMode::Once, paused: false, finished: false } }),
    {
        Projectile { damage, was_crit, lifespan: Timer::from_millis(DEFAULT_ARROW_LIFESPAN, TimerMode::Once) }
    }

    /// Ages the bolt by `delta`; `contacts` are the enemies it touches. A bolt
    /// whose time is up is gone; otherwise it hits the first enemy it touches.
    pub fn projectile_update(&mut self, delta: u64, contacts: &Vec<u64>) -> (r: ProjectileStep)
        requires
            old(self).wf(),
        ensures
            final(self).wf(),
            *final(self) == (Projectile { lifespan: old(self).lifespan.spec_tick(delta), ..*old(self) }),
            r == (if final(self).lifespan.finished {
                ProjectileStep::Expired
            } else if contacts@.len() > 0 {
                ProjectileStep::Hit(EnemyDamageEvent { target: contacts@[0], damage: old(self).damage, was_crit: old(self).was_crit })
            } else {
                ProjectileStep::Flying
            }),
    {
        if self.lifespan.tick(delta) {
            ProjectileStep::Expired
        } else if contacts.len() > 0 {
            ProjectileStep::Hit(EnemyDamageEvent::new(contacts[0], self.damage, self.was_crit))
        } else {
            ProjectileStep::Flying
        }
    }
}

/// A bolt fired at a target.
#[derive(Debug, Clone, Copy, PartialEq, Eq, Structural)]
pub struct Shot {
    pub target: u64,
    /// Where the target was when the bolt left; the bolt flies straight there.
    pub aim: Point,
    pub speed: u32,
    pub projectile: Projectile,
}

impl Crossbow {
    pub open spec fn wf(self) -> bool {
        self.attack_timer.wf()
    }

    pub open spec fn spec_new() -> Crossbow {
        Crossbow {
            damage: DEFAULT_CROSSBOW_DAMAGE,
            range: DEFAULT_CROSSBOW_RANGE,
            crit_damage: DEFAULT_CROSSBOW_CRIT_DAMAGE,
            crit_chance: DEFAULT_CROSSBOW_CRIT_CHANCE,
            arrow_speed: DEFAULT_BOLT_SPEED,
            attack_timer: Timer { duration: DEFAULT_CROSSBOW_ATTACK_SPEED, elapsed: 0, mode: TimerMode::Repeating, paused: false, finished: false },
        }
    }

    /// A crossbow with the base stats.
    pub fn new() -> (r: Crossbow)
        ensures
            r.wf(),
            r == Self::spec_new(),
    {
        Crossbow {
            damage: DEFAULT_CROSSBOW_DAMAGE,
            range: DEFAULT_CROSSBOW_RANGE,
            crit_damage: DEFAULT_CROSSBOW_CRIT_DAMAGE,
            crit_chance: DEFAULT_CROSSBOW_CRIT_CHANCE,
            arrow_speed: DEFAULT_BOLT_SPEED,
            attack_timer: Timer::from_millis(DEFAULT_CROSSBOW_ATTACK_SPEED, TimerMode::Repeating),
        }
    }

    /// The time between two shots with the side's buffs.
    pub open spec fn spec_attack_period(s: CrossbowBuffs) -> u64 {
        (DEFAULT_CROSSBOW_ATTACK_SPEED * (1000 + s.attack_speed) / 1000) as u64
    }

    /// The crossbow's stats with the global and the side's buffs.
    pub open spec fn spec_with_buffs(self, s: CrossbowBuffs, g: GlobalWeaponBuffs) -> Crossbow {
        Crossbow {
            damage: buffed(self.damage as int, s.damage_flat + g.damage_flat, s.damage + g.damage),
            range: buffed(self.range as int, 0, s.range as int),
            crit_damage: cap(self.crit_damage + s.crit_damage + g.crit_damage),
            crit_chance: cap(self.crit_chance + s.crit_chance + g.crit_chance),
            arrow_speed: buffed(self.arrow_speed as int, 0, s.arrow_speed as int),
            attack_timer: Timer {
                duration: Self::spec_attack_period(s),
                elapsed: 0,
                mode: TimerMode::Repeating,
                paused: false,
                finished: false,
            },
        }
    }

    /// The damage of a critical hit: the base damage raised by the crit
    /// bonus, not compounded with the other damage buffs.
    pub open spec fn spec_crit_damage(self, s: CrossbowBuffs, g: GlobalWeaponBuffs) -> u32 {
        buffed(self.damage as int, 0, self.crit_damage + s.crit_damage + g.crit_damage)
    }

    pub fn with_buffs(&self, s: &CrossbowBuffs, g: &GlobalWeaponBuffs) -> (r: Crossbow)
        ensures
            r == self.spec_with_buffs(*s, *g),
            r.wf(),
    {
        let crit_damage = self.crit_damage as u64 + s.crit_damage as u64 + g.crit_damage as u64;
        let crit_chance = self.crit_chance as u64 + s.crit_chance as u64 + g.crit_chance as u64;
        Crossbow {
            damage: buff(self.damage as u64, s.damage_flat as u64 + g.damage_flat as u64, s.damage as u64 + g.damage as u64),
            range: buff(self.range as u64, 0, s.range as u64),
            crit_damage: if crit_damage > u32::MAX as u64 { u32::MAX } else { crit_damage as u32 },
            crit_chance: if crit_chance > u32::MAX as u64 { u32::MAX } else { crit_chance as u32 },
            arrow_speed: buff(self.arrow_speed as u64, 0, s.arrow_speed as u64),
            attack_timer: Timer::from_millis(
                DEFAULT_CROSSBOW_ATTACK_SPEED * (1000 + s.attack_speed as u64) / 1000,
                TimerMode::Repeating,
            ),
        }
    }

    pub fn crit_damage(&self, s: &CrossbowBuffs, g: &GlobalWeaponBuffs) -> (r: u32)
        ensures
            r == self.spec_crit_damage(*s, *g),
    {
        buff(self.damage as u64, 0, self.crit_damage as u64 + s.crit_damage as u64 + g.crit_damage as u64)
    }
}

impl Crossbow {
    /// One frame of the crossbow. When its cadence fires it starts a fresh
    /// interval with the current buffs, hit or miss, and shoots at the nearest
    /// target within its buffed range, if any; `crit_roll` decides a critical
    /// hit against the buffed chance.
    #[verifier::rlimit(40)]
    pub fn crossbow_attack(
        &mut self,
        s: &CrossbowBuffs,
        g: &GlobalWeaponBuffs,
        origin: Point,
        targets: &Vec<Target>,
        delta: u64,
        crit_roll: u32,
    ) -> (r: Option<Shot>)
        requires
            old(self).wf(),
        ensures
            final(self).wf(),
            ({
                let fired = old(self).attack_timer.spec_tick(delta).finished;
                let eff = old(self).spec_with_buffs(*s, *g);
                let hit = hit_damage(eff.damage, old(self).spec_crit_damage(*s, *g), eff.crit_chance, crit_roll);
                &&& !fired ==> *final(self) == (Crossbow { attack_timer: old(self).attack_timer.spec_tick(delta), ..*old(self) })
                &&& fired ==> *final(self) == (Crossbow { attack_timer: eff.attack_timer, ..*old(self) })
                &&& r.is_some() <==> (fired && exists|j: int| 0 <= j < targets@.len() && dist2(origin, #[trigger] targets@[j].pos) <= eff.range * eff.range)
                &&& r matches Some(shot) ==> exists|i: int| {
                    &&& 0 <= i < targets@.len()
                    &&& shot.target == #[trigger] targets@[i].id
                    &&& shot.aim == targets@[i].pos
                    &&& dist2(origin, targets@[i].pos) <= eff.range * eff.range
                    &&& forall|j: int| 0 <= j < targets@.len() ==> dist2(origin, targets@[i].pos) <= dist2(origin, #[trigger] targets@[j].pos)
                    &&& forall|j: int| 0 <= j < i ==> dist2(origin, targets@[i].pos) < dist2(origin, #[trigger] targets@[j].pos)
                }
                &&& r matches Some(shot) ==> shot.speed == eff.arrow_speed && shot.projectile == (Projectile {
                    damage: hit.0,
                    was_crit: hit.1,
                    lifespan: Timer { duration: DEFAULT_ARROW_LIFESPAN, elapsed: 0, mode: TimerMode::Once, paused: false, finished: false },
                })
            }),
    {
        if !self.attack_timer.tick(delta) {
            return None;
        }
        let eff = self.with_buffs(s, g);
        self.attack_timer = eff.attack_timer;
        match nearest_in_range(origin, targets, eff.range) {
            Some(i) => {
                let crit_damage = self.crit_damage(s, g);
                let (damage, was_crit) = if crit_roll < eff.crit_chance {
                    (crit_damage, true)
                } else {
                    (eff.damage, false)
                };
                Some(Shot {
                    target: targets[i].id,
                    aim: targets[i].pos,
                    speed: eff.arrow_speed,
                    projectile: Projectile::new(damage, was_crit),
                })
            },
            None => None,
        }
    }
}

} // verus!
