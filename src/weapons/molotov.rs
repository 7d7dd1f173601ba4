use vstd::prelude::*;

use crate::buffs::{GlobalWeaponBuffs, MolotovBuffs};
use crate::damage::EnemyDamageEvent;
use crate::rng::{gen_range, gen_ratio};
use crate::side::Side;
use crate::timer::{Timer, TimerMode};
use crate::weapons::{buff, buffed, cap, hit_damage, Point};

verus! {

pub const DEFAULT_AREA_SIZE: u32 = 20;
pub const DEFAULT_AREA_DAMAGE: u32 = 10;
/// Time between two hits of a burning area, in milliseconds.
pub const DEFAULT_AREA_ATTACK_SPEED: u32 = 2000;
/// How long an area burns, in milliseconds.
pub const DEFAULT_AREA_LIFESPAN: u32 = 2000;
pub const DEFAULT_MOLOTOV_MIN_RANGE: u32 = 30;
pub const DEFAULT_MOLOTOV_RANGE: u32 = 300;
/// Time between two throws, in milliseconds.
pub const DEFAULT_MOLOTOV_ATTACK_SPEED: u32 = 3333;
/// How long a bottle flies before it bursts, in milliseconds.
pub const DEFAULT_MOLOTOV_BOTTLE_IN_FLIGHT_TIME: u64 = 2000;

/// `base` milliseconds raised by `pct` tenths of a percent.
pub open spec fn scaled_ms(base: u32, pct: u32) -> u64 {
    (base * (1000 + pct) / 1000) as u64
}

fn scale_ms(base: u32, pct: u32) -> (r: u64)
    ensures
        r == scaled_ms(base, pct),
{
    let a = base as u128;
    let b = 1000 + pct as u128;
    assert(a * b <= 0xFFFF_FFFF * 0x1_0000_03E7) by (nonlinear_arith)
        requires
            a <= 0xFFFF_FFFF,
            b <= 0x1_0000_03E7,
    ;
    (a * b / 1000) as u64
}

/// A burning area left by a bottle; it hits every enemy in it on its own
/// cadence until its time is up.
#[derive(Debug, Clone, Copy, PartialEq, Eq, Structural)]
pub struct DamageArea {
    pub size: u32,
    pub damage: u32,
    pub crit_damage: u32,
    /// In tenths of a percent.
    pub crit_chance: u32,
    pub attack_timer: Timer,
    pub lifespan: Timer,
}

/// What a burning area did in one frame.
#[derive(Debug, Clone, PartialEq, Eq)]
pub enum AreaStep {
    Expired,
    Active(Vec<EnemyDamageEvent>),
}

impl DamageArea {
    pub open spec fn wf(self) -> bool {
        self.attack_timer.wf() && self.lifespan.wf()
    }

    pub fn new(size: u32, damage: u32, crit_damage: u32, crit_chance: u32, attack_speed: u64, lifespan: u64) -> (r: DamageArea)
        ensures
            r.wf(),
            r == (DamageArea {
                size,
                damage,
                crit_damage,
                crit_chance,
                attack_timer: Timer { duration: attack_speed, elapsed: 0, mode: TimerMode::Repeating, paused: false, finished: false },
                lifespan: Timer { duration: lifespan, elapsed: 0, mode: TimerMode::Once, paused: false, finished: false },
            }),
    {
        DamageArea {
            size,
            damage,
            crit_damage,
            crit_chance,
            attack_timer: Timer::from_millis(attack_speed, TimerMode::Repeating),
            lifespan: Timer::from_millis(lifespan, TimerMode::Once),
        }
    }

    /// One frame of the area: it burns out when its time is up; otherwise,
    /// when its cadence fires, each enemy in `overlapping` takes one hit,
    /// critical when its roll is below the chance.
    pub fn damage_area_update(&mut self, delta: u64, overlapping: &Vec<u64>, rolls: &Vec<u32>) -> (r: AreaStep)
        requires
            old(self).wf(),
            rolls@.len() == overlapping@.len(),
        ensures
            final(self).wf(),
            final(self).lifespan == old(self).lifespan.spec_tick(delta),
            final(self).lifespan.finished ==> r == AreaStep::Expired && final(self).attack_timer == old(self).attack_timer,
            !final(self).lifespan.finished ==> final(self).attack_timer == old(self).attack_timer.spec_tick(delta),
            !final(self).lifespan.finished ==> match r {
                AreaStep::Active(events) => {
                    &&& final(self).attack_timer.finished ==> events@.len() == overlapping@.len()
                    &&& !final(self).attack_timer.finished ==> events@.len() == 0
                    &&& forall|i: int| 0 <= i < events@.len() ==> #[trigger] events@[i] == (EnemyDamageEvent {
                        target: overlapping@[i],
                        damage: hit_damage(old(self).damage, old(self).crit_damage, old(self).crit_chance, rolls@[i]).0,
                        was_crit: hit_damage(old(self).damage, old(self).crit_damage, old(self).crit_chance, rolls@[i]).1,
                    })
                },
                AreaStep::Expired => false,
            },
            final(self).size == old(self).size && final(self).damage == old(self).damage
                && final(self).crit_damage == old(self).crit_damage && final(self).crit_chance == old(self).crit_chance,
    {
        if self.lifespan.tick(delta) {
            return AreaStep::Expired;
        }
        let mut events: Vec<EnemyDamageEvent> = Vec::new();
        if !self.attack_timer.tick(delta) {
            return AreaStep::Active(events);
        }
        let mut i: usize = 0;
        while i < overlapping.len()
            invariant
                i <= overlapping@.len(),
                rolls@.len() == overlapping@.len(),
                events@.len() == i,
                forall|j: int| 0 <= j < i ==> #[trigger] events@[j] == (EnemyDamageEvent {
                    target: overlapping@[j],
                    damage: hit_damage(self.damage, self.crit_damage, self.crit_chance, rolls@[j]).0,
                    was_crit: hit_damage(self.damage, self.crit_damage, self.crit_chance, rolls@[j]).1,
                }),
            decreases overlapping@.len() - i,
        {
            let (damage, was_crit) = if rolls[i] < self.crit_chance {
                (self.crit_damage, true)
            } else {
                (self.damage, false)
            };
            events.push(EnemyDamageEvent::new(overlapping[i], damage, was_crit));
            i = i + 1;
        }
        AreaStep::Active(events)
    }
}

/// A bottle in flight towards the point where it will burst into an area.
#[derive(Debug, Clone, Copy, PartialEq, Eq, Structural)]
pub struct MolotovBottle {
    pub area: DamageArea,
    pub target: Point,
    pub flight: Timer,
}

impl MolotovBottle {
    pub open spec fn wf(self) -> bool {
        self.area.wf() && self.flight.wf()
    }

    /// Moves the bottle on by `delta`; tells whether it has landed, when its
    /// area starts to burn.
    pub fn molotov_bottle_update(&mut self, delta: u64) -> (r: bool)
        requires
            old(self).wf(),
        ensures
            final(self).wf(),
            *final(self) == (MolotovBottle { flight: old(self).flight.spec_tick(delta), ..*old(self) }),
            r == final(self).flight.finished,
    {
        self.flight.tick(delta)
    }
}

/// The area weapon of a side.
#[derive(Debug, Clone, Copy, PartialEq, Eq, Structural)]
pub struct Molotov {
    pub damage: u32,
    pub range: u32,
    pub area_size: u32,
    /// Time between two hits of its areas, in milliseconds.
    pub area_attack_speed: u32,
    /// How long its areas burn, in milliseconds.
    pub area_lifespan: u32,
    pub attack_timer: Timer,
}

/// The point a bottle lands on: `forward` units straight out from the centre
/// of the wall and `lateral` units to the side.
pub open spec fn throw_target(side: Side, origin: Point, forward: i64, lateral: i64) -> (int, int) {
    let (dx, dy) = side.spec_direction();
    (origin.x + dx * forward - dy * lateral, origin.y + dy * forward + dx * lateral)
}

/// A throw lands within 30 degrees of the side's direction (the tangent of
/// its angle is at most `1/sqrt(3)`), and its distance from the centre of the
/// wall, less the wall's half thickness, is in `[min_range, range]`.
pub open spec fn throw_ok(min_range: u32, range: u32, half_thickness: u32, forward: i64, lateral: i64) -> bool {
    let d2 = forward * forward + lateral * lateral;
    &&& forward >= 0
    &&& 3 * lateral * lateral <= forward * forward
    &&& (min_range + half_thickness) * (min_range + half_thickness) <= d2
    &&& d2 <= (range + half_thickness) * (range + half_thickness)
}

pub open spec fn fits(p: (int, int)) -> bool {
    i32::MIN <= p.0 <= i32::MAX && i32::MIN <= p.1 <= i32::MAX
}

/// Tells whether a throw lands within the cone and the distance bounds.
pub fn is_throw_ok(min_range: u32, range: u32, half_thickness: u32, forward: i64, lateral: i64) -> (r: bool)
    ensures
        r == throw_ok(min_range, range, half_thickness, forward, lateral),
{
    let bound: i64 = 0x4_0000_0000;
    let lo = min_range as i128 + half_thickness as i128;
    let hi = range as i128 + half_thickness as i128;
    if forward < 0 || forward > bound || lateral > bound || lateral < -bound {
        proof {
            if forward >= 0 {
                assert(forward * forward + lateral * lateral > hi * hi) by (nonlinear_arith)
                    requires
                        forward > bound || lateral > bound || lateral < -bound,
                        bound == 0x4_0000_0000,
                        0 <= hi < 0x2_0000_0000,
                        forward >= 0,
                ;
            }
        }
        return false;
    }
    let f = forward as i128;
    let l = lateral as i128;
    assert(0 <= f * f <= 0x4_0000_0000 * 0x4_0000_0000 && 0 <= l * l <= 0x4_0000_0000 * 0x4_0000_0000) by (nonlinear_arith)
        requires
            0 <= f <= 0x4_0000_0000,
            -0x4_0000_0000 <= l <= 0x4_0000_0000,
    ;
    assert(0 <= lo * lo <= 0x2_0000_0000 * 0x2_0000_0000 && 0 <= hi * hi <= 0x2_0000_0000 * 0x2_0000_0000) by (nonlinear_arith)
        requires
            0 <= lo < 0x2_0000_0000,
            0 <= hi < 0x2_0000_0000,
    ;
    let d2 = f * f + l * l;
    assert(3 * lateral * lateral == 3 * (l * l)) by (nonlinear_arith)
        requires
            l == lateral,
    ;
    3 * (l * l) <= f * f && lo * lo <= d2 && d2 <= hi * hi
}

/// How many draws a throw may take before it falls back to the nearest point
/// straight ahead.
pub const THROW_TRIES: u32 = 64;

/// Draws a throw uniformly over the part of the cone within the distance
/// bounds; after too many misses it throws straight ahead at the least
/// distance.
pub fn roll_throw(rng: &mut rand::rngs::ThreadRng, min_range: u32, range: u32, half_thickness: u32) -> (r: (i64, i64))
    requires
        min_range <= range,
        range + half_thickness <= u32::MAX,
    ensures
        throw_ok(min_range, range, half_thickness, r.0, r.1),
{
    let reach = range + half_thickness;
    let mut tries: u32 = 0;
    while tries < THROW_TRIES
        decreases THROW_TRIES - tries,
    {
        let forward = gen_range(rng, 0, reach) as i64;
        let offset = gen_range(rng, 0, reach) as i64;
        let lateral = if gen_ratio(rng, 1, 2) {
            offset
        } else {
            -offset
        };
        if is_throw_ok(min_range, range, half_thickness, forward, lateral) {
            return (forward, lateral);
        }
        tries = tries + 1;
    }
    let least = min_range as i64 + half_thickness as i64;
    assert(least * least <= (range + half_thickness) * (range + half_thickness)) by (nonlinear_arith)
        requires
            0 <= least <= range + half_thickness,
    ;
    (least, 0)
}

impl Molotov {
    pub open spec fn wf(self) -> bool {
        self.attack_timer.wf()
    }

    pub open spec fn spec_new() -> Molotov {
        Molotov {
            damage: DEFAULT_AREA_DAMAGE,
            range: DEFAULT_MOLOTOV_RANGE,
            area_size: DEFAULT_AREA_SIZE,
            area_attack_speed: DEFAULT_AREA_ATTACK_SPEED,
            area_lifespan: DEFAULT_AREA_LIFESPAN,
            attack_timer: Timer {
                duration: DEFAULT_MOLOTOV_ATTACK_SPEED as u64,
                elapsed: 0,
                mode: TimerMode::Repeating,
                paused: false,
                finished: false,
            },
        }
    }

    pub fn new() -> (r: Molotov)
        ensures
            r.wf(),
            r == Self::spec_new(),
    {
        Molotov {
            damage: DEFAULT_AREA_DAMAGE,
            range: DEFAULT_MOLOTOV_RANGE,
            area_size: DEFAULT_AREA_SIZE,
            area_attack_speed: DEFAULT_AREA_ATTACK_SPEED,
            area_lifespan: DEFAULT_AREA_LIFESPAN,
            attack_timer: Timer::from_millis(DEFAULT_MOLOTOV_ATTACK_SPEED as u64, TimerMode::Repeating),
        }
    }

    /// The area a bottle leaves with the global and the side's buffs.
    pub open spec fn spec_area(self, s: MolotovBuffs, g: GlobalWeaponBuffs) -> DamageArea {
        DamageArea {
            size: buffed(self.area_size as int, 0, s.area_size as int),
            damage: buffed(self.damage as int, s.damage_flat + g.damage_flat, s.damage + g.damage),
            crit_damage: buffed(self.damage as int, 0, s.crit_damage + g.crit_damage),
            crit_chance: cap(s.crit_chance + g.crit_chance),
            attack_timer: Timer {
                duration: scaled_ms(self.area_attack_speed, s.area_attack_speed),
                elapsed: 0,
                mode: TimerMode::Repeating,
                paused: false,
                finished: false,
            },
            lifespan: Timer {
                duration: scaled_ms(self.area_lifespan, s.area_lifespan),
                elapsed: 0,
                mode: TimerMode::Once,
                paused: false,
                finished: false,
            },
        }
    }

    /// The interval before the next throw, with the side's buffs.
    pub open spec fn spec_next_timer(s: MolotovBuffs) -> Timer {
        Timer {
            duration: scaled_ms(DEFAULT_MOLOTOV_ATTACK_SPEED, s.attack_speed),
            elapsed: 0,
            mode: TimerMode::Repeating,
            paused: false,
            finished: false,
        }
    }

    pub fn area(&self, s: &MolotovBuffs, g: &GlobalWeaponBuffs) -> (r: DamageArea)
        ensures
            r == self.spec_area(*s, *g),
            r.wf(),
    {
        let crit_chance = s.crit_chance as u64 + g.crit_chance as u64;
        DamageArea::new(
            buff(self.area_size as u64, 0, s.area_size as u64),
            buff(self.damage as u64, s.damage_flat as u64 + g.damage_flat as u64, s.damage as u64 + g.damage as u64),
            buff(self.damage as u64, 0, s.crit_damage as u64 + g.crit_damage as u64),
            if crit_chance > u32::MAX as u64 { u32::MAX } else { crit_chance as u32 },
            scale_ms(self.area_attack_speed, s.area_attack_speed),
            scale_ms(self.area_lifespan, s.area_lifespan),
        )
    }

    /// One frame of the molotov: when its cadence fires it starts a fresh
    /// interval with the current buffs and throws a bottle at the point that
    /// `forward` and `lateral` pick, which lies within its cone and its reach.
    pub fn molotov_attack(
        &mut self,
        s: &MolotovBuffs,
        g: &GlobalWeaponBuffs,
        side: Side,
        origin: Point,
        half_thickness: u32,
        delta: u64,
        forward: i64,
        lateral: i64,
    ) -> (r: Option<MolotovBottle>)
        requires
            old(self).wf(),
            throw_ok(DEFAULT_MOLOTOV_MIN_RANGE, old(self).range, half_thickness, forward, lateral),
            fits(throw_target(side, origin, forward, lateral)),
        ensures
            final(self).wf(),
            !old(self).attack_timer.spec_tick(delta).finished ==> r is None && *final(self) == (Molotov {
                attack_timer: old(self).attack_timer.spec_tick(delta),
                ..*old(self)
            }),
            old(self).attack_timer.spec_tick(delta).finished ==> *final(self) == (Molotov {
                attack_timer: Self::spec_next_timer(*s),
                ..*old(self)
            }) && r == Some(MolotovBottle {
                area: old(self).spec_area(*s, *g),
                target: Point {
                    x: throw_target(side, origin, forward, lateral).0 as i32,
                    y: throw_target(side, origin, forward, lateral).1 as i32,
                },
                flight: Timer {
                    duration: DEFAULT_MOLOTOV_BOTTLE_IN_FLIGHT_TIME,
                    elapsed: 0,
                    mode: TimerMode::Once,
                    paused: false,
                    finished: false,
                },
            }),
    {
        if !self.attack_timer.tick(delta) {
            return None;
        }
        self.attack_timer = Timer::from_millis(scale_ms(DEFAULT_MOLOTOV_ATTACK_SPEED, s.attack_speed), TimerMode::Repeating);
        let (dx, dy) = side.direction();
        let x = origin.x as i64 + dx * forward - dy * lateral;
        let y = origin.y as i64 + dy * forward + dx * lateral;
        Some(MolotovBottle {
            area: self.area(s, g),
            target: Point { x: x as i32, y: y as i32 },
            flight: Timer::from_millis(DEFAULT_MOLOTOV_BOTTLE_IN_FLIGHT_TIME, TimerMode::Once),
        })
    }
}

impl Molotov {
    /// The molotov's stats with the global and the side's buffs, as its next
    /// throw will have them.
    pub open spec fn spec_with_buffs(self, s: MolotovBuffs, g: GlobalWeaponBuffs) -> Molotov {
        Molotov {
            damage: buffed(self.damage as int, s.damage_flat + g.damage_flat, s.damage + g.damage),
            range: self.range,
            area_size: buffed(self.area_size as int, 0, s.area_size as int),
            area_attack_speed: cap(scaled_ms(self.area_attack_speed, s.area_attack_speed) as int),
            area_lifespan: cap(scaled_ms(self.area_lifespan, s.area_lifespan) as int),
            attack_timer: Self::spec_next_timer(s),
        }
    }

    pub fn with_buffs(&self, s: &MolotovBuffs, g: &GlobalWeaponBuffs) -> (r: Molotov)
        ensures
            r == self.spec_with_buffs(*s, *g),
            r.wf(),
    {
        let attack = scale_ms(self.area_attack_speed, s.area_attack_speed);
        let lifespan = scale_ms(self.area_lifespan, s.area_lifespan);
        Molotov {
            damage: buff(self.damage as u64, s.damage_flat as u64 + g.damage_flat as u64, s.damage as u64 + g.damage as u64),
            range: self.range,
            area_size: buff(self.area_size as u64, 0, s.area_size as u64),
            area_attack_speed: if attack > u32::MAX as u64 { u32::MAX } else { attack as u32 },
            area_lifespan: if lifespan > u32::MAX as u64 { u32::MAX } else { lifespan as u32 },
            attack_timer: Timer::from_millis(scale_ms(DEFAULT_MOLOTOV_ATTACK_SPEED, s.attack_speed), TimerMode::Repeating),
        }
    }
}

} // verus!
