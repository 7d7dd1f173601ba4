use vstd::prelude::*;

verus! {

/// Health and maximum health of a wall at the start of a run.
pub const WALL_HEALTH: i64 = 100;
/// Experience needed for the first level.
pub const CASTLE_FIRST_LEVEL_EXP: u64 = 100;
/// Growth of the experience needed per level, in percent of the previous need.
pub const CASTLE_NEXT_LEVEL_EXP_GROWTH: u64 = 110;

/// The castle's progression: its level and the experience towards the next.
#[derive(Debug, Clone, Copy, PartialEq, Eq, Structural)]
pub struct Castle {
    pub level: u32,
    pub exp: u64,
    pub next_level_exp: u64,
    /// In percent: `110` makes each level need 10% more than the last.
    pub next_level_exp_growth: u64,
}

/// `next` grown by `growth` percent, rounded down, held to `u64::MAX`.
pub open spec fn grown(next: u64, growth: u64) -> u64 {
    if next * growth / 100 > u64::MAX {
        u64::MAX
    } else {
        (next * growth / 100) as u64
    }
}

impl Castle {
    pub open spec fn wf(self) -> bool {
        self.next_level_exp >= 1 && self.next_level_exp_growth >= 100
    }

    /// A level-up is due.
    pub open spec fn spec_level_up_due(self) -> bool {
        self.exp >= self.next_level_exp
    }

    /// The castle after one level-up: the excess experience is carried over.
    pub open spec fn spec_level_up(self) -> Castle {
        Castle {
            level: self.level.saturating_add(1),
            exp: (self.exp - self.next_level_exp) as u64,
            next_level_exp: grown(self.next_level_exp, self.next_level_exp_growth),
            next_level_exp_growth: self.next_level_exp_growth,
        }
    }

    pub open spec fn spec_new() -> Castle {
        Castle {
            level: 0,
            exp: 0,
            next_level_exp: CASTLE_FIRST_LEVEL_EXP,
            next_level_exp_growth: CASTLE_NEXT_LEVEL_EXP_GROWTH,
        }
    }

    /// The castle at the start of a run.
    pub fn new() -> (r: Castle)
        ensures
            r.wf(),
            r == Self::spec_new(),
    {
        Castle {
            level: 0,
            exp: 0,
            next_level_exp: CASTLE_FIRST_LEVEL_EXP,
            next_level_exp_growth: CASTLE_NEXT_LEVEL_EXP_GROWTH,
        }
    }

    /// Adds the reward of a dead enemy.
    pub fn gain_exp(&mut self, reward: u64)
        ensures
            *final(self) == (Castle { exp: old(self).exp.saturating_add(reward), ..*old(self) }),
    {
        self.exp = self.exp.saturating_add(reward);
    }

    /// Levels up once if enough experience was gathered; tells whether it did.
    pub fn castle_level_up(&mut self) -> (r: bool)
        requires
            old(self).wf(),
        ensures
            final(self).wf(),
            r == old(self).spec_level_up_due(),
            r ==> *final(self) == old(self).spec_level_up(),
            !r ==> *final(self) == *old(self),
    {
        if self.exp >= self.next_level_exp {
            self.level = self.level.saturating_add(1);
            self.exp = self.exp - self.next_level_exp;
            let a = self.next_level_exp as u128;
            let b = self.next_level_exp_growth as u128;
            assert(a * b <= u64::MAX * u64::MAX) by (nonlinear_arith)
                requires
                    a <= u64::MAX,
                    b <= u64::MAX,
            ;
            let n = a * b / 100;
            proof {
                assert(self.next_level_exp * self.next_level_exp_growth / 100 >= self.next_level_exp)
                    by (nonlinear_arith)
                    requires
                        self.next_level_exp_growth >= 100,
                        self.next_level_exp >= 1,
                ;
            }
            self.next_level_exp = if n > u64::MAX as u128 {
                u64::MAX
            } else {
                n as u64
            };
            true
        } else {
            false
        }
    }
}

/// Experience carry-over: a level-up keeps the excess, and when the excess is
/// below the new threshold no further level-up is due.
pub proof fn lemma_level_up_carries_over(c: Castle)
    requires
        c.wf(),
        c.spec_level_up_due(),
        c.exp - c.next_level_exp < grown(c.next_level_exp, c.next_level_exp_growth),
    ensures
        c.spec_level_up().exp == c.exp - c.next_level_exp,
        c.spec_level_up().exp < c.spec_level_up().next_level_exp,
        !c.spec_level_up().spec_level_up_due(),
        c.spec_level_up().wf(),
{
    assert(c.next_level_exp * c.next_level_exp_growth / 100 >= c.next_level_exp) by (nonlinear_arith)
        requires
            c.next_level_exp_growth >= 100,
            c.next_level_exp >= 1,
    ;
}

/// A wall of the castle. Its health may fall below zero (the wall is then
/// breached) but never rises above its maximum.
#[derive(Debug, Clone, Copy, PartialEq, Eq, Structural)]
pub struct CastleWall {
    pub health: i64,
    pub max_health: i64,
}

impl CastleWall {
    pub open spec fn wf(self) -> bool {
        self.health <= self.max_health
    }

    pub open spec fn spec_take_damage(self, damage: u32) -> CastleWall {
        CastleWall {
            health: if self.health - damage < i64::MIN {
                i64::MIN
            } else {
                (self.health - damage) as i64
            },
            ..self
        }
    }

    pub open spec fn spec_heal(self, amount: u32) -> CastleWall {
        CastleWall {
            health: if self.health + amount > self.max_health {
                self.max_health
            } else {
                (self.health + amount) as i64
            },
            ..self
        }
    }

    pub open spec fn spec_add_max_hp(self, amount: u32) -> CastleWall {
        CastleWall {
            max_health: if self.max_health + amount > i64::MAX {
                i64::MAX
            } else {
                (self.max_health + amount) as i64
            },
            ..self
        }
    }

    pub open spec fn spec_destroyed(self) -> bool {
        self.health <= 0
    }

    /// A wall at full health.
    pub fn new(health: i64) -> (r: CastleWall)
        ensures
            r.wf(),
            r == (CastleWall { health, max_health: health }),
    {
        CastleWall { health, max_health: health }
    }

    /// Takes the damage of one hit; health is not held at zero.
    pub fn take_damage(&mut self, damage: u32)
        requires
            old(self).wf(),
        ensures
            final(self).wf(),
            *final(self) == old(self).spec_take_damage(damage),
            final(self).health <= old(self).health,
    {
        if self.health < i64::MIN + damage as i64 {
            self.health = i64::MIN;
        } else {
            self.health = self.health - damage as i64;
        }
    }

    /// Restores health, never beyond the maximum.
    pub fn heal(&mut self, amount: u32)
        requires
            old(self).wf(),
        ensures
            final(self).wf(),
            *final(self) == old(self).spec_heal(amount),
            final(self).health >= old(self).health,
    {
        if self.health as i128 + amount as i128 > self.max_health as i128 {
            self.health = self.max_health;
        } else {
            self.health = self.health + amount as i64;
        }
    }

    /// Raises the maximum health; the current health stays.
    pub fn add_max_hp(&mut self, amount: u32)
        requires
            old(self).wf(),
        ensures
            final(self).wf(),
            *final(self) == old(self).spec_add_max_hp(amount),
    {
        if self.max_health > i64::MAX - amount as i64 {
            self.max_health = i64::MAX;
        } else {
            self.max_health = self.max_health + amount as i64;
        }
    }

    /// The wall is breached, which ends the run.
    pub fn is_destroyed(&self) -> (r: bool)
        ensures
            r == self.spec_destroyed(),
    {
        self.health <= 0
    }
}

/// Wall health stays within its maximum under heals, extra maximum health and
/// damage; a heal never lowers it and damage never raises it.
pub proof fn lemma_wall_health_bounded(w: CastleWall, amount: u32)
    requires
        w.wf(),
    ensures
        w.spec_heal(amount).wf(),
        w.spec_heal(amount).health <= w.spec_heal(amount).max_health,
        w.spec_heal(amount).health >= w.health,
        w.spec_add_max_hp(amount).wf(),
        w.spec_add_max_hp(amount).health == w.health,
        w.spec_take_damage(amount).wf(),
        w.spec_take_damage(amount).health <= w.health,
{
}

} // verus!
