use vstd::prelude::*;

use crate::rng::{gen_range, gen_ratio, thread_rng};
use crate::side::Side;
use rand::rngs::ThreadRng;
use crate::upgrades::{
    EnemyUpgrade, GlobalEnemyUpgrade, GlobalWallUpgrade, GlobalWeaponUpgrade, Upgrade, UpgradeSide,
    WallUpgrade, WeaponUpgrade,
};

verus! {

/// Chance, as `NUM / DEN`, that a candidate has a wall upgrade at all.
pub const WALL_CHANCE_NUM: u32 = 2;
pub const WALL_CHANCE_DEN: u32 = 10;
/// Chance that a candidate has a weapon upgrade, when it has a wall upgrade.
/// Without a wall upgrade the weapon upgrade is always there.
pub const WEAPON_CHANCE_NUM: u32 = 9;
pub const WEAPON_CHANCE_DEN: u32 = 10;
/// Chance that a candidate has an enemy upgrade.
pub const ENEMY_CHANCE_NUM: u32 = 99;
pub const ENEMY_CHANCE_DEN: u32 = 100;
/// Chance that a present slot touches every side rather than one.
pub const GLOBAL_CHANCE_NUM: u32 = 3;
pub const GLOBAL_CHANCE_DEN: u32 = 10;

/// The random outcome of one category of a candidate: whether the slot is
/// there, whether it is global, which kind, which side and which value.
#[derive(Debug, Clone, Copy, PartialEq, Eq, Structural)]
pub struct SlotRoll {
    pub present: bool,
    pub global: bool,
    pub kind: u32,
    pub side: Side,
    pub value: u32,
}

/// The candidate that the rolls of the three categories describe. The weapon
/// slot is there whenever the wall slot is not, so that every candidate
/// improves the player's side.
pub open spec fn spec_upgrade_from_rolls(wall: SlotRoll, weapon: SlotRoll, enemy: SlotRoll) -> Upgrade {
    let weapon_present = weapon.present || !wall.present;
    Upgrade {
        global_wall_upgrade: if wall.present && wall.global {
            Some(GlobalWallUpgrade::spec_from_roll(wall.kind, wall.value))
        } else {
            None
        },
        wall_upgrade: if wall.present && !wall.global {
            Some(UpgradeSide::spec_new(wall.side, WallUpgrade::spec_from_roll(wall.kind, wall.value)))
        } else {
            None
        },
        global_weapon_upgrade: if weapon_present && weapon.global {
            Some(GlobalWeaponUpgrade::spec_from_roll(weapon.kind, weapon.value))
        } else {
            None
        },
        weapon_upgrade: if weapon_present && !weapon.global {
            Some(UpgradeSide::spec_new(weapon.side, WeaponUpgrade::spec_from_roll(weapon.kind, weapon.value)))
        } else {
            None
        },
        global_enemy_upgrade: if enemy.present && enemy.global {
            Some(GlobalEnemyUpgrade::spec_from_roll(enemy.kind, enemy.value))
        } else {
            None
        },
        enemy_upgrade: if enemy.present && !enemy.global {
            Some(UpgradeSide::spec_new(enemy.side, EnemyUpgrade::spec_from_roll(enemy.kind, enemy.value)))
        } else {
            None
        },
    }
}

/// Builds the candidate that the rolls describe.
pub fn upgrade_from_rolls(wall: SlotRoll, weapon: SlotRoll, enemy: SlotRoll) -> (r: Upgrade)
    ensures
        r == spec_upgrade_from_rolls(wall, weapon, enemy),
{
    let weapon_present = weapon.present || !wall.present;
    Upgrade {
        global_wall_upgrade: if wall.present && wall.global {
            Some(GlobalWallUpgrade::from_roll(wall.kind, wall.value))
        } else {
            None
        },
        wall_upgrade: if wall.present && !wall.global {
            Some(UpgradeSide::new(wall.side, WallUpgrade::from_roll(wall.kind, wall.value)))
        } else {
            None
        },
        global_weapon_upgrade: if weapon_present && weapon.global {
            Some(GlobalWeaponUpgrade::from_roll(weapon.kind, weapon.value))
        } else {
            None
        },
        weapon_upgrade: if weapon_present && !weapon.global {
            Some(UpgradeSide::new(weapon.side, WeaponUpgrade::from_roll(weapon.kind, weapon.value)))
        } else {
            None
        },
        global_enemy_upgrade: if enemy.present && enemy.global {
            Some(GlobalEnemyUpgrade::from_roll(enemy.kind, enemy.value))
        } else {
            None
        },
        enemy_upgrade: if enemy.present && !enemy.global {
            Some(UpgradeSide::new(enemy.side, EnemyUpgrade::from_roll(enemy.kind, enemy.value)))
        } else {
            None
        },
    }
}

impl Upgrade {
    /// Every upgrade present holds a value in the range of its kind.
    pub open spec fn spec_valid(self) -> bool {
        &&& (self.global_wall_upgrade matches Some(u) ==> u.spec_valid())
        &&& (self.wall_upgrade matches Some(u) ==> u.spec_upgrade().spec_valid())
        &&& (self.global_weapon_upgrade matches Some(u) ==> u.spec_valid())
        &&& (self.weapon_upgrade matches Some(u) ==> u.spec_upgrade().spec_valid())
        &&& (self.global_enemy_upgrade matches Some(u) ==> u.spec_valid())
        &&& (self.enemy_upgrade matches Some(u) ==> u.spec_upgrade().spec_valid())
    }

    /// At most one slot of each category is filled, and the player always
    /// gets a wall or a weapon upgrade.
    pub open spec fn spec_well_formed(self) -> bool {
        &&& self.spec_valid()
        &&& !(self.global_wall_upgrade.is_some() && self.wall_upgrade.is_some())
        &&& !(self.global_weapon_upgrade.is_some() && self.weapon_upgrade.is_some())
        &&& !(self.global_enemy_upgrade.is_some() && self.enemy_upgrade.is_some())
        &&& (self.global_wall_upgrade.is_some() || self.wall_upgrade.is_some()
            || self.global_weapon_upgrade.is_some() || self.weapon_upgrade.is_some())
    }
}

pub open spec fn in_bounds(b: (u32, u32), v: u32) -> bool {
    b.0 <= v <= b.1
}

pub open spec fn wall_roll_valid(r: SlotRoll) -> bool {
    if r.global {
        r.kind < GlobalWallUpgrade::KINDS && in_bounds(GlobalWallUpgrade::spec_bounds(r.kind), r.value)
    } else {
        r.kind < WallUpgrade::KINDS && in_bounds(WallUpgrade::spec_bounds(r.kind), r.value)
    }
}

pub open spec fn weapon_roll_valid(r: SlotRoll) -> bool {
    if r.global {
        r.kind < GlobalWeaponUpgrade::KINDS && in_bounds(GlobalWeaponUpgrade::spec_bounds(r.kind), r.value)
    } else {
        r.kind < WeaponUpgrade::KINDS && in_bounds(WeaponUpgrade::spec_bounds(r.kind), r.value)
    }
}

pub open spec fn enemy_roll_valid(r: SlotRoll) -> bool {
    if r.global {
        r.kind < GlobalEnemyUpgrade::KINDS && in_bounds(GlobalEnemyUpgrade::spec_bounds(r.kind), r.value)
    } else {
        r.kind < EnemyUpgrade::KINDS && in_bounds(EnemyUpgrade::spec_bounds(r.kind), r.value)
    }
}

fn draw_side(rng: &mut ThreadRng) -> Side {
    let i = gen_range(rng, 0, 3);
    Side::from_index(i as usize)
}

/// Draws the roll of the wall category.
pub fn draw_wall_roll(rng: &mut ThreadRng) -> (r: SlotRoll)
    ensures
        wall_roll_valid(r),
{
    let present = gen_ratio(rng, WALL_CHANCE_NUM, WALL_CHANCE_DEN);
    let global = gen_ratio(rng, GLOBAL_CHANCE_NUM, GLOBAL_CHANCE_DEN);
    let (kind, value) = if global {
        let kind = gen_range(rng, 0, GlobalWallUpgrade::KINDS - 1);
        let (lo, hi) = GlobalWallUpgrade::bounds(kind);
        (kind, gen_range(rng, lo, hi))
    } else {
        let kind = gen_range(rng, 0, WallUpgrade::KINDS - 1);
        let (lo, hi) = WallUpgrade::bounds(kind);
        (kind, gen_range(rng, lo, hi))
    };
    let side = draw_side(rng);
    SlotRoll { present, global, kind, side, value }
}

/// Draws the roll of the weapon category.
pub fn draw_weapon_roll(rng: &mut ThreadRng) -> (r: SlotRoll)
    ensures
        weapon_roll_valid(r),
{
    let present = gen_ratio(rng, WEAPON_CHANCE_NUM, WEAPON_CHANCE_DEN);
    let global = gen_ratio(rng, GLOBAL_CHANCE_NUM, GLOBAL_CHANCE_DEN);
    let (kind, value) = if global {
        let kind = gen_range(rng, 0, GlobalWeaponUpgrade::KINDS - 1);
        let (lo, hi) = GlobalWeaponUpgrade::bounds(kind);
        (kind, gen_range(rng, lo, hi))
    } else {
        let kind = gen_range(rng, 0, WeaponUpgrade::KINDS - 1);
        let (lo, hi) = WeaponUpgrade::bounds(kind);
        (kind, gen_range(rng, lo, hi))
    };
    let side = draw_side(rng);
    SlotRoll { present, global, kind, side, value }
}

/// Draws the roll of the enemy category.
pub fn draw_enemy_roll(rng: &mut ThreadRng) -> (r: SlotRoll)
    ensures
        enemy_roll_valid(r),
{
    let present = gen_ratio(rng, ENEMY_CHANCE_NUM, ENEMY_CHANCE_DEN);
    let global = gen_ratio(rng, GLOBAL_CHANCE_NUM, GLOBAL_CHANCE_DEN);
    let (kind, value) = if global {
        let kind = gen_range(rng, 0, GlobalEnemyUpgrade::KINDS - 1);
        let (lo, hi) = GlobalEnemyUpgrade::bounds(kind);
        (kind, gen_range(rng, lo, hi))
    } else {
        let kind = gen_range(rng, 0, EnemyUpgrade::KINDS - 1);
        let (lo, hi) = EnemyUpgrade::bounds(kind);
        (kind, gen_range(rng, lo, hi))
    };
    let side = draw_side(rng);
    SlotRoll { present, global, kind, side, value }
}

/// Valid rolls describe a well-formed candidate.
#[verifier::rlimit(40)]
pub proof fn lemma_rolls_well_formed(wall: SlotRoll, weapon: SlotRoll, enemy: SlotRoll)
    requires
        wall_roll_valid(wall),
        weapon_roll_valid(weapon),
        enemy_roll_valid(enemy),
    ensures
        spec_upgrade_from_rolls(wall, weapon, enemy).spec_well_formed(),
{
}

/// Draws one candidate upgrade.
pub fn genereate_upgrade(rng: &mut ThreadRng) -> (r: Upgrade)
    ensures
        r.spec_well_formed(),
{
    let wall = draw_wall_roll(rng);
    let weapon = draw_weapon_roll(rng);
    let enemy = draw_enemy_roll(rng);
    proof {
        lemma_rolls_well_formed(wall, weapon, enemy);
    }
    upgrade_from_rolls(wall, weapon, enemy)
}

/// The four candidates offered at a level-up.
#[derive(Debug, Clone, Copy)]
pub struct Upgrades {
    pub upgrades: [Upgrade; 4],
}

/// Draws four fresh candidates.
pub fn genereate_upgrades() -> (r: Upgrades)
    ensures
        forall|i: int| 0 <= i < 4 ==> (#[trigger] r.upgrades[i]).spec_well_formed(),
{
    let mut rng = thread_rng();
    let a = genereate_upgrade(&mut rng);
    let b = genereate_upgrade(&mut rng);
    let c = genereate_upgrade(&mut rng);
    let d = genereate_upgrade(&mut rng);
    let r = Upgrades { upgrades: [a, b, c, d] };
    assert(r.upgrades[0] == a && r.upgrades[1] == b && r.upgrades[2] == c && r.upgrades[3] == d);
    r
}

} // verus!
