use vstd::prelude::*;

use crate::buffs::{
    Balance, CrossbowBuffs, EnemyBuffs, GlobalEnemyBuffs, GlobalWeaponBuffs, MolotovBuffs,
    SideWeaponBuffs,
};
use crate::castle::CastleWall;
use crate::side::PerSide;
use crate::upgrades::{
    EnemyUpgrade, GlobalEnemyUpgrade, GlobalWallUpgrade, GlobalWeaponUpgrade, Upgrade,
    WallUpgrade, WeaponUpgrade,
};

verus! {

impl GlobalWeaponBuffs {
    /// The buffs with the upgrade's value added to its field.
    pub open spec fn spec_apply(self, u: GlobalWeaponUpgrade) -> GlobalWeaponBuffs {
        match u {
            GlobalWeaponUpgrade::Damage(x) => GlobalWeaponBuffs { damage: self.damage.saturating_add(x), ..self },
            GlobalWeaponUpgrade::DamageFlat(x) => GlobalWeaponBuffs { damage_flat: self.damage_flat.saturating_add(x), ..self },
            GlobalWeaponUpgrade::CritDamage(x) => GlobalWeaponBuffs { crit_damage: self.crit_damage.saturating_add(x), ..self },
            GlobalWeaponUpgrade::CritChance(x) => GlobalWeaponBuffs { crit_chance: self.crit_chance.saturating_add(x), ..self },
        }
    }

    pub fn apply(&mut self, u: GlobalWeaponUpgrade)
        ensures
            *final(self) == old(self).spec_apply(u),
    {
        match u {
            GlobalWeaponUpgrade::Damage(x) => self.damage = self.damage.saturating_add(x),
            GlobalWeaponUpgrade::DamageFlat(x) => self.damage_flat = self.damage_flat.saturating_add(x),
            GlobalWeaponUpgrade::CritDamage(x) => self.crit_damage = self.crit_damage.saturating_add(x),
            GlobalWeaponUpgrade::CritChance(x) => self.crit_chance = self.crit_chance.saturating_add(x),
        }
    }
}

impl GlobalEnemyBuffs {
    /// The buffs with the upgrade's value added to its field; `Exp` adds to the reward cut.
    pub open spec fn spec_apply(self, u: GlobalEnemyUpgrade) -> GlobalEnemyBuffs {
        match u {
            GlobalEnemyUpgrade::Health(x) => GlobalEnemyBuffs { health: self.health.saturating_add(x), ..self },
            GlobalEnemyUpgrade::Speed(x) => GlobalEnemyBuffs { speed: self.speed.saturating_add(x), ..self },
            GlobalEnemyUpgrade::Exp(x) => GlobalEnemyBuffs { exp: self.exp.saturating_add(x), ..self },
            GlobalEnemyUpgrade::Damage(x) => GlobalEnemyBuffs { damage: self.damage.saturating_add(x), ..self },
            GlobalEnemyUpgrade::AttackSpeed(x) => GlobalEnemyBuffs { attack_speed: self.attack_speed.saturating_add(x), ..self },
        }
    }

    pub fn apply(&mut self, u: GlobalEnemyUpgrade)
        ensures
            *final(self) == old(self).spec_apply(u),
    {
        match u {
            GlobalEnemyUpgrade::Health(x) => self.health = self.health.saturating_add(x),
            GlobalEnemyUpgrade::Speed(x) => self.speed = self.speed.saturating_add(x),
            GlobalEnemyUpgrade::Exp(x) => self.exp = self.exp.saturating_add(x),
            GlobalEnemyUpgrade::Damage(x) => self.damage = self.damage.saturating_add(x),
            GlobalEnemyUpgrade::AttackSpeed(x) => self.attack_speed = self.attack_speed.saturating_add(x),
        }
    }
}

impl EnemyBuffs {
    /// The buffs with the upgrade's value added to its field; `Exp` adds to the reward cut.
    pub open spec fn spec_apply(self, u: EnemyUpgrade) -> EnemyBuffs {
        match u {
            EnemyUpgrade::Health(x) => EnemyBuffs { health: self.health.saturating_add(x), ..self },
            EnemyUpgrade::Speed(x) => EnemyBuffs { speed: self.speed.saturating_add(x), ..self },
            EnemyUpgrade::Exp(x) => EnemyBuffs { exp: self.exp.saturating_add(x), ..self },
            EnemyUpgrade::Damage(x) => EnemyBuffs { damage: self.damage.saturating_add(x), ..self },
            EnemyUpgrade::AttackSpeed(x) => EnemyBuffs { attack_speed: self.attack_speed.saturating_add(x), ..self },
        }
    }

    pub fn apply(&mut self, u: EnemyUpgrade)
        ensures
            *final(self) == old(self).spec_apply(u),
    {
        match u {
            EnemyUpgrade::Health(x) => self.health = self.health.saturating_add(x),
            EnemyUpgrade::Speed(x) => self.speed = self.speed.saturating_add(x),
            EnemyUpgrade::Exp(x) => self.exp = self.exp.saturating_add(x),
            EnemyUpgrade::Damage(x) => self.damage = self.damage.saturating_add(x),
            EnemyUpgrade::AttackSpeed(x) => self.attack_speed = self.attack_speed.saturating_add(x),
        }
    }
}

impl SideWeaponBuffs {
    /// The buffs with the upgrade's value added to the field of its weapon.
    pub open spec fn spec_apply(self, u: WeaponUpgrade) -> SideWeaponBuffs {
        match u {
            WeaponUpgrade::CrossbowDamage(x) => SideWeaponBuffs { crossbow: CrossbowBuffs { damage: self.crossbow.damage.saturating_add(x), ..self.crossbow }, ..self },
            WeaponUpgrade::CrossbowDamageFlat(x) => SideWeaponBuffs { crossbow: CrossbowBuffs { damage_flat: self.crossbow.damage_flat.saturating_add(x), ..self.crossbow }, ..self },
            WeaponUpgrade::CrossbowCritDamage(x) => SideWeaponBuffs { crossbow: CrossbowBuffs { crit_damage: self.crossbow.crit_damage.saturating_add(x), ..self.crossbow }, ..self },
            WeaponUpgrade::CrossbowCritChance(x) => SideWeaponBuffs { crossbow: CrossbowBuffs { crit_chance: self.crossbow.crit_chance.saturating_add(x), ..self.crossbow }, ..self },
            WeaponUpgrade::CrossbowRange(x) => SideWeaponBuffs { crossbow: CrossbowBuffs { range: self.crossbow.range.saturating_add(x), ..self.crossbow }, ..self },
            WeaponUpgrade::CrossbowAttackSpeed(x) => SideWeaponBuffs { crossbow: CrossbowBuffs { attack_speed: self.crossbow.attack_speed.saturating_add(x), ..self.crossbow }, ..self },
            WeaponUpgrade::CrossbowArrowSpeed(x) => SideWeaponBuffs { crossbow: CrossbowBuffs { arrow_speed: self.crossbow.arrow_speed.saturating_add(x), ..self.crossbow }, ..self },
            WeaponUpgrade::MolotovDamage(x) => SideWeaponBuffs { molotov: MolotovBuffs { damage: self.molotov.damage.saturating_add(x), ..self.molotov }, ..self },
            WeaponUpgrade::MolotovDamageFlat(x) => SideWeaponBuffs { molotov: MolotovBuffs { damage_flat: self.molotov.damage_flat.saturating_add(x), ..self.molotov }, ..self },
            WeaponUpgrade::MolotovCritDamage(x) => SideWeaponBuffs { molotov: MolotovBuffs { crit_damage: self.molotov.crit_damage.saturating_add(x), ..self.molotov }, ..self },
            WeaponUpgrade::MolotovCritChance(x) => SideWeaponBuffs { molotov: MolotovBuffs { crit_chance: self.molotov.crit_chance.saturating_add(x), ..self.molotov }, ..self },
            WeaponUpgrade::MolotovAreaSize(x) => SideWeaponBuffs { molotov: MolotovBuffs { area_size: self.molotov.area_size.saturating_add(x), ..self.molotov }, ..self },
            WeaponUpgrade::MolotovAttackSpeed(x) => SideWeaponBuffs { molotov: MolotovBuffs { attack_speed: self.molotov.attack_speed.saturating_add(x), ..self.molotov }, ..self },
            WeaponUpgrade::MolotovAreaAttackSpeed(x) => SideWeaponBuffs { molotov: MolotovBuffs { area_attack_speed: self.molotov.area_attack_speed.saturating_add(x), ..self.molotov }, ..self },
            WeaponUpgrade::MolotovAreaLifespan(x) => SideWeaponBuffs { molotov: MolotovBuffs { area_lifespan: self.molotov.area_lifespan.saturating_add(x), ..self.molotov }, ..self },
        }
    }

    pub fn apply(&mut self, u: WeaponUpgrade)
        ensures
            *final(self) == old(self).spec_apply(u),
    {
        match u {
            WeaponUpgrade::CrossbowDamage(x) => self.crossbow.damage = self.crossbow.damage.saturating_add(x),
            WeaponUpgrade::CrossbowDamageFlat(x) => self.crossbow.damage_flat = self.crossbow.damage_flat.saturating_add(x),
            WeaponUpgrade::CrossbowCritDamage(x) => self.crossbow.crit_damage = self.crossbow.crit_damage.saturating_add(x),
            WeaponUpgrade::CrossbowCritChance(x) => self.crossbow.crit_chance = self.crossbow.crit_chance.saturating_add(x),
            WeaponUpgrade::CrossbowRange(x) => self.crossbow.range = self.crossbow.range.saturating_add(x),
            WeaponUpgrade::CrossbowAttackSpeed(x) => self.crossbow.attack_speed = self.crossbow.attack_speed.saturating_add(x),
            WeaponUpgrade::CrossbowArrowSpeed(x) => self.crossbow.arrow_speed = self.crossbow.arrow_speed.saturating_add(x),
            WeaponUpgrade::MolotovDamage(x) => self.molotov.damage = self.molotov.damage.saturating_add(x),
            WeaponUpgrade::MolotovDamageFlat(x) => self.molotov.damage_flat = self.molotov.damage_flat.saturating_add(x),
            WeaponUpgrade::MolotovCritDamage(x) => self.molotov.crit_damage = self.molotov.crit_damage.saturating_add(x),
            WeaponUpgrade::MolotovCritChance(x) => self.molotov.crit_chance = self.molotov.crit_chance.saturating_add(x),
            WeaponUpgrade::MolotovAreaSize(x) => self.molotov.area_size = self.molotov.area_size.saturating_add(x),
            WeaponUpgrade::MolotovAttackSpeed(x) => self.molotov.attack_speed = self.molotov.attack_speed.saturating_add(x),
            WeaponUpgrade::MolotovAreaAttackSpeed(x) => self.molotov.area_attack_speed = self.molotov.area_attack_speed.saturating_add(x),
            WeaponUpgrade::MolotovAreaLifespan(x) => self.molotov.area_lifespan = self.molotov.area_lifespan.saturating_add(x),
        }
    }
}

pub open spec fn spec_apply_wall_upgrade(w: CastleWall, u: WallUpgrade) -> CastleWall {
    match u {
        WallUpgrade::AdditionalMaxHp(x) => w.spec_add_max_hp(x),
        WallUpgrade::Heal(x) => w.spec_heal(x),
    }
}

/// Applies an upgrade to one wall: walls have no buff layer of their own.
pub fn apply_wall_upgrade(w: &mut CastleWall, u: WallUpgrade)
    requires
        old(w).wf(),
    ensures
        final(w).wf(),
        *final(w) == spec_apply_wall_upgrade(*old(w), u),
{
    match u {
        WallUpgrade::AdditionalMaxHp(x) => w.add_max_hp(x),
        WallUpgrade::Heal(x) => w.heal(x),
    }
}

pub open spec fn walls_wf(walls: PerSide<CastleWall>) -> bool {
    walls.north.wf() && walls.south.wf() && walls.west.wf() && walls.east.wf()
}

pub open spec fn spec_apply_global_wall_upgrade(w: CastleWall, u: GlobalWallUpgrade) -> CastleWall {
    match u {
        GlobalWallUpgrade::AdditionalMaxHp(x) => w.spec_add_max_hp(x),
        GlobalWallUpgrade::Heal(x) => w.spec_heal(x),
    }
}

fn apply_global_wall_upgrade_to(w: &mut CastleWall, u: GlobalWallUpgrade)
    requires
        old(w).wf(),
    ensures
        final(w).wf(),
        *final(w) == spec_apply_global_wall_upgrade(*old(w), u),
{
    match u {
        GlobalWallUpgrade::AdditionalMaxHp(x) => w.add_max_hp(x),
        GlobalWallUpgrade::Heal(x) => w.heal(x),
    }
}

pub open spec fn spec_apply_global_walls(walls: PerSide<CastleWall>, u: GlobalWallUpgrade) -> PerSide<
    CastleWall,
> {
    PerSide {
        north: spec_apply_global_wall_upgrade(walls.north, u),
        south: spec_apply_global_wall_upgrade(walls.south, u),
        west: spec_apply_global_wall_upgrade(walls.west, u),
        east: spec_apply_global_wall_upgrade(walls.east, u),
    }
}

/// Applies an upgrade to all four walls.
pub fn apply_global_wall_upgrades(walls: &mut PerSide<CastleWall>, u: GlobalWallUpgrade)
    requires
        walls_wf(*old(walls)),
    ensures
        walls_wf(*final(walls)),
        *final(walls) == spec_apply_global_walls(*old(walls), u),
{
    apply_global_wall_upgrade_to(&mut walls.north, u);
    apply_global_wall_upgrade_to(&mut walls.south, u);
    apply_global_wall_upgrade_to(&mut walls.west, u);
    apply_global_wall_upgrade_to(&mut walls.east, u);
}

impl Balance {
    /// The buff state after the buff slots of `u` are added.
    pub open spec fn spec_apply_upgrade(self, u: Upgrade) -> Balance {
        let b1 = match u.global_weapon_upgrade {
            Some(x) => Balance { global_weapon: self.global_weapon.spec_apply(x), ..self },
            None => self,
        };
        let b2 = match u.weapon_upgrade {
            Some(x) => Balance {
                weapons: b1.weapons.spec_set(
                    x.spec_side(),
                    b1.weapons.spec_get(x.spec_side()).spec_apply(x.spec_upgrade()),
                ),
                ..b1
            },
            None => b1,
        };
        let b3 = match u.global_enemy_upgrade {
            Some(x) => Balance { global_enemy: b2.global_enemy.spec_apply(x), ..b2 },
            None => b2,
        };
        match u.enemy_upgrade {
            Some(x) => Balance {
                enemies: b3.enemies.spec_set(
                    x.spec_side(),
                    b3.enemies.spec_get(x.spec_side()).spec_apply(x.spec_upgrade()),
                ),
                ..b3
            },
            None => b3,
        }
    }

    /// Adds the buff slots of `u` to the buff state.
    pub fn apply_buffs(&mut self, u: &Upgrade)
        ensures
            *final(self) == old(self).spec_apply_upgrade(*u),
    {
        if let Some(x) = u.global_weapon_upgrade {
            self.global_weapon.apply(x);
        }
        if let Some(x) = u.weapon_upgrade {
            let side = x.side();
            let mut w = self.weapons.get(side);
            w.apply(x.upgrade());
            self.weapons.set(side, w);
        }
        if let Some(x) = u.global_enemy_upgrade {
            self.global_enemy.apply(x);
        }
        if let Some(x) = u.enemy_upgrade {
            let side = x.side();
            let mut e = self.enemies.get(side);
            e.apply(x.upgrade());
            self.enemies.set(side, e);
        }
    }
}

/// The walls after the wall slots of `u` are applied.
pub open spec fn spec_apply_walls(walls: PerSide<CastleWall>, u: Upgrade) -> PerSide<CastleWall> {
    let w1 = match u.global_wall_upgrade {
        Some(x) => spec_apply_global_walls(walls, x),
        None => walls,
    };
    match u.wall_upgrade {
        Some(x) => w1.spec_set(
            x.spec_side(),
            spec_apply_wall_upgrade(w1.spec_get(x.spec_side()), x.spec_upgrade()),
        ),
        None => w1,
    }
}

/// Applies the chosen candidate: its wall slots to the walls, its other slots
/// to the buff state.
pub fn apply_upgrades(balance: &mut Balance, walls: &mut PerSide<CastleWall>, u: &Upgrade)
    requires
        walls_wf(*old(walls)),
    ensures
        walls_wf(*final(walls)),
        *final(walls) == spec_apply_walls(*old(walls), *u),
        *final(balance) == old(balance).spec_apply_upgrade(*u),
{
    if let Some(x) = u.global_wall_upgrade {
        apply_global_wall_upgrades(walls, x);
    }
    if let Some(x) = u.wall_upgrade {
        let side = x.side();
        let mut w = walls.get(side);
        apply_wall_upgrade(&mut w, x.upgrade());
        walls.set(side, w);
    }
    balance.apply_buffs(u);
}

proof fn lemma_saturating_commutes(a: u32, x: u32, y: u32)
    ensures
        a.saturating_add(x).saturating_add(y) == a.saturating_add(y).saturating_add(x),
{
}

/// The weapon buff that upgrades of kind `k` add to.
pub open spec fn weapon_field(b: SideWeaponBuffs, k: u32) -> u32 {
    match k {
        0 => b.crossbow.damage,
        1 => b.crossbow.damage_flat,
        2 => b.crossbow.crit_damage,
        3 => b.crossbow.crit_chance,
        4 => b.crossbow.range,
        5 => b.crossbow.attack_speed,
        6 => b.crossbow.arrow_speed,
        7 => b.molotov.damage,
        8 => b.molotov.damage_flat,
        9 => b.molotov.crit_damage,
        10 => b.molotov.crit_chance,
        11 => b.molotov.area_size,
        12 => b.molotov.attack_speed,
        13 => b.molotov.area_attack_speed,
        _ => b.molotov.area_lifespan,
    }
}

proof fn lemma_weapon_field_apply(b: SideWeaponBuffs, u: WeaponUpgrade, k: u32)
    requires
        k < 15,
    ensures
        weapon_field(b.spec_apply(u), k) == if k == u.spec_kind() {
            weapon_field(b, k).saturating_add(u.spec_value())
        } else {
            weapon_field(b, k)
        },
{
}

proof fn lemma_weapon_fields_equal(a: SideWeaponBuffs, b: SideWeaponBuffs)
    requires
        forall|k: u32| k < 15 ==> #[trigger] weapon_field(a, k) == weapon_field(b, k),
    ensures
        a == b,
{
    assert(weapon_field(a, 0) == weapon_field(b, 0));
    assert(weapon_field(a, 1) == weapon_field(b, 1));
    assert(weapon_field(a, 2) == weapon_field(b, 2));
    assert(weapon_field(a, 3) == weapon_field(b, 3));
    assert(weapon_field(a, 4) == weapon_field(b, 4));
    assert(weapon_field(a, 5) == weapon_field(b, 5));
    assert(weapon_field(a, 6) == weapon_field(b, 6));
    assert(weapon_field(a, 7) == weapon_field(b, 7));
    assert(weapon_field(a, 8) == weapon_field(b, 8));
    assert(weapon_field(a, 9) == weapon_field(b, 9));
    assert(weapon_field(a, 10) == weapon_field(b, 10));
    assert(weapon_field(a, 11) == weapon_field(b, 11));
    assert(weapon_field(a, 12) == weapon_field(b, 12));
    assert(weapon_field(a, 13) == weapon_field(b, 13));
    assert(weapon_field(a, 14) == weapon_field(b, 14));
}

#[verifier::rlimit(40)]
proof fn lemma_side_weapon_commutes(b: SideWeaponBuffs, x: WeaponUpgrade, y: WeaponUpgrade)
    ensures
        b.spec_apply(x).spec_apply(y) == b.spec_apply(y).spec_apply(x),
{
    assert forall|k: u32| k < 15 implies #[trigger] weapon_field(b.spec_apply(x).spec_apply(y), k)
        == weapon_field(b.spec_apply(y).spec_apply(x), k) by {
        lemma_weapon_field_apply(b, x, k);
        lemma_weapon_field_apply(b, y, k);
        lemma_weapon_field_apply(b.spec_apply(x), y, k);
        lemma_weapon_field_apply(b.spec_apply(y), x, k);
        lemma_saturating_commutes(weapon_field(b, k), x.spec_value(), y.spec_value());
    }
    lemma_weapon_fields_equal(b.spec_apply(x).spec_apply(y), b.spec_apply(y).spec_apply(x));
}

pub open spec fn global_weapon_field(b: GlobalWeaponBuffs, k: u32) -> u32 {
    match k {
        0 => b.damage,
        1 => b.damage_flat,
        2 => b.crit_damage,
        _ => b.crit_chance,
    }
}

proof fn lemma_global_weapon_field_apply(b: GlobalWeaponBuffs, u: GlobalWeaponUpgrade, k: u32)
    requires
        k < 4,
    ensures
        global_weapon_field(b.spec_apply(u), k) == if k == u.spec_kind() {
            global_weapon_field(b, k).saturating_add(u.spec_value())
        } else {
            global_weapon_field(b, k)
        },
{
}

proof fn lemma_global_weapon_fields_equal(a: GlobalWeaponBuffs, b: GlobalWeaponBuffs)
    requires
        forall|k: u32| k < 4 ==> #[trigger] global_weapon_field(a, k) == global_weapon_field(b, k),
    ensures
        a == b,
{
    assert(global_weapon_field(a, 0) == global_weapon_field(b, 0));
    assert(global_weapon_field(a, 1) == global_weapon_field(b, 1));
    assert(global_weapon_field(a, 2) == global_weapon_field(b, 2));
    assert(global_weapon_field(a, 3) == global_weapon_field(b, 3));
}

proof fn lemma_global_weapon_commutes(b: GlobalWeaponBuffs, x: GlobalWeaponUpgrade, y: GlobalWeaponUpgrade)
    ensures
        b.spec_apply(x).spec_apply(y) == b.spec_apply(y).spec_apply(x),
{
    assert forall|k: u32| k < 4 implies #[trigger] global_weapon_field(b.spec_apply(x).spec_apply(y), k)
        == global_weapon_field(b.spec_apply(y).spec_apply(x), k) by {
        lemma_global_weapon_field_apply(b, x, k);
        lemma_global_weapon_field_apply(b, y, k);
        lemma_global_weapon_field_apply(b.spec_apply(x), y, k);
        lemma_global_weapon_field_apply(b.spec_apply(y), x, k);
        lemma_saturating_commutes(global_weapon_field(b, k), x.spec_value(), y.spec_value());
    }
    lemma_global_weapon_fields_equal(b.spec_apply(x).spec_apply(y), b.spec_apply(y).spec_apply(x));
}

pub open spec fn global_enemy_field(b: GlobalEnemyBuffs, k: u32) -> u32 {
    match k {
        0 => b.health,
        1 => b.speed,
        2 => b.exp,
        3 => b.damage,
        _ => b.attack_speed,
    }
}

proof fn lemma_global_enemy_field_apply(b: GlobalEnemyBuffs, u: GlobalEnemyUpgrade, k: u32)
    requires
        k < 5,
    ensures
        global_enemy_field(b.spec_apply(u), k) == if k == u.spec_kind() {
            global_enemy_field(b, k).saturating_add(u.spec_value())
        } else {
            global_enemy_field(b, k)
        },
{
}

proof fn lemma_global_enemy_fields_equal(a: GlobalEnemyBuffs, b: GlobalEnemyBuffs)
    requires
        forall|k: u32| k < 5 ==> #[trigger] global_enemy_field(a, k) == global_enemy_field(b, k),
    ensures
        a == b,
{
    assert(global_enemy_field(a, 0) == global_enemy_field(b, 0));
    assert(global_enemy_field(a, 1) == global_enemy_field(b, 1));
    assert(global_enemy_field(a, 2) == global_enemy_field(b, 2));
    assert(global_enemy_field(a, 3) == global_enemy_field(b, 3));
    assert(global_enemy_field(a, 4) == global_enemy_field(b, 4));
}

proof fn lemma_global_enemy_commutes(b: GlobalEnemyBuffs, x: GlobalEnemyUpgrade, y: GlobalEnemyUpgrade)
    ensures
        b.spec_apply(x).spec_apply(y) == b.spec_apply(y).spec_apply(x),
{
    assert forall|k: u32| k < 5 implies #[trigger] global_enemy_field(b.spec_apply(x).spec_apply(y), k)
        == global_enemy_field(b.spec_apply(y).spec_apply(x), k) by {
        lemma_global_enemy_field_apply(b, x, k);
        lemma_global_enemy_field_apply(b, y, k);
        lemma_global_enemy_field_apply(b.spec_apply(x), y, k);
        lemma_global_enemy_field_apply(b.spec_apply(y), x, k);
        lemma_saturating_commutes(global_enemy_field(b, k), x.spec_value(), y.spec_value());
    }
    lemma_global_enemy_fields_equal(b.spec_apply(x).spec_apply(y), b.spec_apply(y).spec_apply(x));
}

pub open spec fn enemy_field(b: EnemyBuffs, k: u32) -> u32 {
    match k {
        0 => b.health,
        1 => b.speed,
        2 => b.exp,
        3 => b.damage,
        _ => b.attack_speed,
    }
}

proof fn lemma_enemy_field_apply(b: EnemyBuffs, u: EnemyUpgrade, k: u32)
    requires
        k < 5,
    ensures
        enemy_field(b.spec_apply(u), k) == if k == u.spec_kind() {
            enemy_field(b, k).saturating_add(u.spec_value())
        } else {
            enemy_field(b, k)
        },
{
}

proof fn lemma_enemy_fields_equal(a: EnemyBuffs, b: EnemyBuffs)
    requires
        forall|k: u32| k < 5 ==> #[trigger] enemy_field(a, k) == enemy_field(b, k),
    ensures
        a == b,
{
    assert(enemy_field(a, 0) == enemy_field(b, 0));
    assert(enemy_field(a, 1) == enemy_field(b, 1));
    assert(enemy_field(a, 2) == enemy_field(b, 2));
    assert(enemy_field(a, 3) == enemy_field(b, 3));
    assert(enemy_field(a, 4) == enemy_field(b, 4));
}

proof fn lemma_enemy_commutes(b: EnemyBuffs, x: EnemyUpgrade, y: EnemyUpgrade)
    ensures
        b.spec_apply(x).spec_apply(y) == b.spec_apply(y).spec_apply(x),
{
    assert forall|k: u32| k < 5 implies #[trigger] enemy_field(b.spec_apply(x).spec_apply(y), k)
        == enemy_field(b.spec_apply(y).spec_apply(x), k) by {
        lemma_enemy_field_apply(b, x, k);
        lemma_enemy_field_apply(b, y, k);
        lemma_enemy_field_apply(b.spec_apply(x), y, k);
        lemma_enemy_field_apply(b.spec_apply(y), x, k);
        lemma_saturating_commutes(enemy_field(b, k), x.spec_value(), y.spec_value());
    }
    lemma_enemy_fields_equal(b.spec_apply(x).spec_apply(y), b.spec_apply(y).spec_apply(x));
}

/// Buff additivity: the buff state after two upgrades does not depend on the
/// order in which they were applied.
#[verifier::rlimit(40)]
pub proof fn lemma_buff_additivity(b: Balance, x: Upgrade, y: Upgrade)
    ensures
        b.spec_apply_upgrade(x).spec_apply_upgrade(y) == b.spec_apply_upgrade(y).spec_apply_upgrade(x),
{
    if let (Some(p), Some(q)) = (x.global_weapon_upgrade, y.global_weapon_upgrade) {
        lemma_global_weapon_commutes(b.global_weapon, p, q);
    }
    if let (Some(p), Some(q)) = (x.global_enemy_upgrade, y.global_enemy_upgrade) {
        lemma_global_enemy_commutes(b.global_enemy, p, q);
    }
    if let (Some(p), Some(q)) = (x.weapon_upgrade, y.weapon_upgrade) {
        if p.spec_side() == q.spec_side() {
            lemma_side_weapon_commutes(b.weapons.spec_get(p.spec_side()), p.spec_upgrade(), q.spec_upgrade());
        }
    }
    if let (Some(p), Some(q)) = (x.enemy_upgrade, y.enemy_upgrade) {
        if p.spec_side() == q.spec_side() {
            lemma_enemy_commutes(b.enemies.spec_get(p.spec_side()), p.spec_upgrade(), q.spec_upgrade());
        }
    }
}

/// Two wall upgrades of the same kind give the same wall in either order.
pub proof fn lemma_wall_upgrades_of_a_kind_commute(w: CastleWall, x: WallUpgrade, y: WallUpgrade)
    requires
        w.wf(),
        x.spec_kind() == y.spec_kind(),
    ensures
        spec_apply_wall_upgrade(spec_apply_wall_upgrade(w, x), y) == spec_apply_wall_upgrade(
            spec_apply_wall_upgrade(w, y),
            x,
        ),
{
}

/// Two upgrades of one kind add both their values to the same buff, in
/// either order (held to `u32::MAX`).
pub proof fn lemma_weapon_upgrades_add(b: SideWeaponBuffs, x: WeaponUpgrade, y: WeaponUpgrade)
    requires
        x.spec_kind() == y.spec_kind(),
    ensures
        weapon_field(b.spec_apply(x).spec_apply(y), x.spec_kind()) == weapon_field(b, x.spec_kind()).saturating_add(
            x.spec_value(),
        ).saturating_add(y.spec_value()),
        weapon_field(b, x.spec_kind()) + x.spec_value() + y.spec_value() <= u32::MAX ==> weapon_field(
            b.spec_apply(x).spec_apply(y),
            x.spec_kind(),
        ) == weapon_field(b, x.spec_kind()) + x.spec_value() + y.spec_value(),
        b.spec_apply(x).spec_apply(y) == b.spec_apply(y).spec_apply(x),
{
    lemma_weapon_field_apply(b, x, x.spec_kind());
    lemma_weapon_field_apply(b.spec_apply(x), y, x.spec_kind());
    lemma_side_weapon_commutes(b, x, y);
}

/// Two upgrades of one kind add both their values to the same buff, in
/// either order (held to `u32::MAX`).
pub proof fn lemma_global_weapon_upgrades_add(b: GlobalWeaponBuffs, x: GlobalWeaponUpgrade, y: GlobalWeaponUpgrade)
    requires
        x.spec_kind() == y.spec_kind(),
    ensures
        global_weapon_field(b.spec_apply(x).spec_apply(y), x.spec_kind()) == global_weapon_field(b, x.spec_kind()).saturating_add(
            x.spec_value(),
        ).saturating_add(y.spec_value()),
        global_weapon_field(b, x.spec_kind()) + x.spec_value() + y.spec_value() <= u32::MAX ==> global_weapon_field(
            b.spec_apply(x).spec_apply(y),
            x.spec_kind(),
        ) == global_weapon_field(b, x.spec_kind()) + x.spec_value() + y.spec_value(),
        b.spec_apply(x).spec_apply(y) == b.spec_apply(y).spec_apply(x),
{
    lemma_global_weapon_field_apply(b, x, x.spec_kind());
    lemma_global_weapon_field_apply(b.spec_apply(x), y, x.spec_kind());
    lemma_global_weapon_commutes(b, x, y);
}

/// Two upgrades of one kind add both their values to the same buff, in
/// either order (held to `u32::MAX`).
pub proof fn lemma_global_enemy_upgrades_add(b: GlobalEnemyBuffs, x: GlobalEnemyUpgrade, y: GlobalEnemyUpgrade)
    requires
        x.spec_kind() == y.spec_kind(),
    ensures
        global_enemy_field(b.spec_apply(x).spec_apply(y), x.spec_kind()) == global_enemy_field(b, x.spec_kind()).saturating_add(
            x.spec_value(),
        ).saturating_add(y.spec_value()),
        global_enemy_field(b, x.spec_kind()) + x.spec_value() + y.spec_value() <= u32::MAX ==> global_enemy_field(
            b.spec_apply(x).spec_apply(y),
            x.spec_kind(),
        ) == global_enemy_field(b, x.spec_kind()) + x.spec_value() + y.spec_value(),
        b.spec_apply(x).spec_apply(y) == b.spec_apply(y).spec_apply(x),
{
    lemma_global_enemy_field_apply(b, x, x.spec_kind());
    lemma_global_enemy_field_apply(b.spec_apply(x), y, x.spec_kind());
    lemma_global_enemy_commutes(b, x, y);
}

/// Two upgrades of one kind add both their values to the same buff, in
/// either order (held to `u32::MAX`).
pub proof fn lemma_enemy_upgrades_add(b: EnemyBuffs, x: EnemyUpgrade, y: EnemyUpgrade)
    requires
        x.spec_kind() == y.spec_kind(),
    ensures
        enemy_field(b.spec_apply(x).spec_apply(y), x.spec_kind()) == enemy_field(b, x.spec_kind()).saturating_add(
            x.spec_value(),
        ).saturating_add(y.spec_value()),
        enemy_field(b, x.spec_kind()) + x.spec_value() + y.spec_value() <= u32::MAX ==> enemy_field(
            b.spec_apply(x).spec_apply(y),
            x.spec_kind(),
        ) == enemy_field(b, x.spec_kind()) + x.spec_value() + y.spec_value(),
        b.spec_apply(x).spec_apply(y) == b.spec_apply(y).spec_apply(x),
{
    lemma_enemy_field_apply(b, x, x.spec_kind());
    lemma_enemy_field_apply(b.spec_apply(x), y, x.spec_kind());
    lemma_enemy_commutes(b, x, y);
}

} // verus!
