use vstd::prelude::*;

use crate::side::PerSide;

verus! {

// Every field but the flat damage counts tenths of a percent: `10` is 1%.
/// Buffs of the weapons of every side.
#[derive(Debug, Clone, Copy, PartialEq, Eq, Structural)]
pub struct GlobalWeaponBuffs {
    pub damage: u32,
    /// Added to the base damage.
    pub damage_flat: u32,
    pub crit_damage: u32,
    pub crit_chance: u32,
}

impl GlobalWeaponBuffs {
    /// No buff at all.
    pub open spec fn spec_zero() -> Self {
        GlobalWeaponBuffs { damage: 0, damage_flat: 0, crit_damage: 0, crit_chance: 0 }
    }

    pub fn new() -> (r: Self)
        ensures
            r == Self::spec_zero(),
    {
        GlobalWeaponBuffs { damage: 0, damage_flat: 0, crit_damage: 0, crit_chance: 0 }
    }
}
/// Buffs of the crossbow of one side.
#[derive(Debug, Clone, Copy, PartialEq, Eq, Structural)]
pub struct CrossbowBuffs {
    pub damage: u32,
    /// Added to the base damage.
    pub damage_flat: u32,
    pub crit_damage: u32,
    pub crit_chance: u32,
    pub range: u32,
    pub attack_speed: u32,
    pub arrow_speed: u32,
}

impl CrossbowBuffs {
    /// No buff at all.
    pub open spec fn spec_zero() -> Self {
        CrossbowBuffs { damage: 0, damage_flat: 0, crit_damage: 0, crit_chance: 0, range: 0, attack_speed: 0, arrow_speed: 0 }
    }

    pub fn new() -> (r: Self)
        ensures
            r == Self::spec_zero(),
    {
        CrossbowBuffs { damage: 0, damage_flat: 0, crit_damage: 0, crit_chance: 0, range: 0, attack_speed: 0, arrow_speed: 0 }
    }
}
/// Buffs of the molotov of one side.
#[derive(Debug, Clone, Copy, PartialEq, Eq, Structural)]
pub struct MolotovBuffs {
    pub damage: u32,
    /// Added to the base damage.
    pub damage_flat: u32,
    pub crit_damage: u32,
    pub crit_chance: u32,
    pub area_size: u32,
    pub attack_speed: u32,
    pub area_attack_speed: u32,
    pub area_lifespan: u32,
}

impl MolotovBuffs {
    /// No buff at all.
    pub open spec fn spec_zero() -> Self {
        MolotovBuffs { damage: 0, damage_flat: 0, crit_damage: 0, crit_chance: 0, area_size: 0, attack_speed: 0, area_attack_speed: 0, area_lifespan: 0 }
    }

    pub fn new() -> (r: Self)
        ensures
            r == Self::spec_zero(),
    {
        MolotovBuffs { damage: 0, damage_flat: 0, crit_damage: 0, crit_chance: 0, area_size: 0, attack_speed: 0, area_attack_speed: 0, area_lifespan: 0 }
    }
}
/// Buffs of the enemies of every side.
#[derive(Debug, Clone, Copy, PartialEq, Eq, Structural)]
pub struct GlobalEnemyBuffs {
    pub health: u32,
    pub speed: u32,
    /// Lowers the experience reward.
    pub exp: u32,
    pub damage: u32,
    pub attack_speed: u32,
}

impl GlobalEnemyBuffs {
    /// No buff at all.
    pub open spec fn spec_zero() -> Self {
        GlobalEnemyBuffs { health: 0, speed: 0, exp: 0, damage: 0, attack_speed: 0 }
    }

    pub fn new() -> (r: Self)
        ensures
            r == Self::spec_zero(),
    {
        GlobalEnemyBuffs { health: 0, speed: 0, exp: 0, damage: 0, attack_speed: 0 }
    }
}
/// Buffs of the enemies of one side.
#[derive(Debug, Clone, Copy, PartialEq, Eq, Structural)]
pub struct EnemyBuffs {
    pub health: u32,
    pub speed: u32,
    /// Lowers the experience reward.
    pub exp: u32,
    pub damage: u32,
    pub attack_speed: u32,
}

impl EnemyBuffs {
    /// No buff at all.
    pub open spec fn spec_zero() -> Self {
        EnemyBuffs { health: 0, speed: 0, exp: 0, damage: 0, attack_speed: 0 }
    }

    pub fn new() -> (r: Self)
        ensures
            r == Self::spec_zero(),
    {
        EnemyBuffs { health: 0, speed: 0, exp: 0, damage: 0, attack_speed: 0 }
    }
}

/// The weapon buffs of one side.
#[derive(Debug, Clone, Copy, PartialEq, Eq, Structural)]
pub struct SideWeaponBuffs {
    pub crossbow: CrossbowBuffs,
    pub molotov: MolotovBuffs,
}

impl EnemyBuffs {
    /// The side's buffs with the global ones added field by field.
    pub open spec fn spec_with_global_buffs(self, g: GlobalEnemyBuffs) -> EnemyBuffs {
        EnemyBuffs {
            health: self.health.saturating_add(g.health),
            speed: self.speed.saturating_add(g.speed),
            exp: self.exp.saturating_add(g.exp),
            damage: self.damage.saturating_add(g.damage),
            attack_speed: self.attack_speed.saturating_add(g.attack_speed),
        }
    }

    pub fn with_global_buffs(&self, g: &GlobalEnemyBuffs) -> (r: EnemyBuffs)
        ensures
            r == self.spec_with_global_buffs(*g),
    {
        EnemyBuffs {
            health: self.health.saturating_add(g.health),
            speed: self.speed.saturating_add(g.speed),
            exp: self.exp.saturating_add(g.exp),
            damage: self.damage.saturating_add(g.damage),
            attack_speed: self.attack_speed.saturating_add(g.attack_speed),
        }
    }
}

/// All buff state of a run: what upgrades have added so far.
#[derive(Debug, Clone, Copy, PartialEq, Eq, Structural)]
pub struct Balance {
    pub global_weapon: GlobalWeaponBuffs,
    pub weapons: PerSide<SideWeaponBuffs>,
    pub global_enemy: GlobalEnemyBuffs,
    pub enemies: PerSide<EnemyBuffs>,
}

impl Balance {
    pub open spec fn spec_zero() -> Balance {
        Balance {
            global_weapon: GlobalWeaponBuffs::spec_zero(),
            weapons: PerSide {
                north: SideWeaponBuffs { crossbow: CrossbowBuffs::spec_zero(), molotov: MolotovBuffs::spec_zero() },
                south: SideWeaponBuffs { crossbow: CrossbowBuffs::spec_zero(), molotov: MolotovBuffs::spec_zero() },
                west: SideWeaponBuffs { crossbow: CrossbowBuffs::spec_zero(), molotov: MolotovBuffs::spec_zero() },
                east: SideWeaponBuffs { crossbow: CrossbowBuffs::spec_zero(), molotov: MolotovBuffs::spec_zero() },
            },
            global_enemy: GlobalEnemyBuffs::spec_zero(),
            enemies: PerSide {
                north: EnemyBuffs::spec_zero(),
                south: EnemyBuffs::spec_zero(),
                west: EnemyBuffs::spec_zero(),
                east: EnemyBuffs::spec_zero(),
            },
        }
    }

    /// The buff state at the start of a run.
    pub fn new() -> (r: Balance)
        ensures
            r == Self::spec_zero(),
    {
        let w = SideWeaponBuffs { crossbow: CrossbowBuffs::new(), molotov: MolotovBuffs::new() };
        Balance {
            global_weapon: GlobalWeaponBuffs::new(),
            weapons: PerSide { north: w, south: w, west: w, east: w },
            global_enemy: GlobalEnemyBuffs::new(),
            enemies: PerSide {
                north: EnemyBuffs::new(),
                south: EnemyBuffs::new(),
                west: EnemyBuffs::new(),
                east: EnemyBuffs::new(),
            },
        }
    }
}

} // verus!
