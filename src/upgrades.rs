use vstd::prelude::*;

use crate::side::Side;

pub mod apply;
pub mod generate;

verus! {

/// An upgrade that touches every wall at once.
#[derive(Debug, Clone, Copy, PartialEq, Eq, Structural)]
pub enum GlobalWallUpgrade {
    AdditionalMaxHp(u32),
    Heal(u32),
}

/// An upgrade that touches the wall of one side.
#[derive(Debug, Clone, Copy, PartialEq, Eq, Structural)]
pub enum WallUpgrade {
    AdditionalMaxHp(u32),
    Heal(u32),
}

/// An upgrade of the weapons of every side. Percentages in tenths of a percent.
#[derive(Debug, Clone, Copy, PartialEq, Eq, Structural)]
pub enum GlobalWeaponUpgrade {
    Damage(u32),
    DamageFlat(u32),
    CritDamage(u32),
    CritChance(u32),
}

/// An upgrade of one weapon of one side. Percentages in tenths of a percent.
#[derive(Debug, Clone, Copy, PartialEq, Eq, Structural)]
pub enum WeaponUpgrade {
    CrossbowDamage(u32),
    CrossbowDamageFlat(u32),
    CrossbowCritDamage(u32),
    CrossbowCritChance(u32),
    CrossbowRange(u32),
    CrossbowAttackSpeed(u32),
    CrossbowArrowSpeed(u32),
    MolotovDamage(u32),
    MolotovDamageFlat(u32),
    MolotovCritDamage(u32),
    MolotovCritChance(u32),
    MolotovAreaSize(u32),
    MolotovAttackSpeed(u32),
    MolotovAreaAttackSpeed(u32),
    MolotovAreaLifespan(u32),
}

/// A strengthening of the enemies of every side; `Exp` lowers their reward.
#[derive(Debug, Clone, Copy, PartialEq, Eq, Structural)]
pub enum GlobalEnemyUpgrade {
    Health(u32),
    Speed(u32),
    Exp(u32),
    Damage(u32),
    AttackSpeed(u32),
}

/// A strengthening of the enemies of one side; `Exp` lowers their reward.
#[derive(Debug, Clone, Copy, PartialEq, Eq, Structural)]
pub enum EnemyUpgrade {
    Health(u32),
    Speed(u32),
    Exp(u32),
    Damage(u32),
    AttackSpeed(u32),
}

/// An upgrade together with the side it applies to.
#[derive(Debug, Clone, Copy, PartialEq, Eq, Structural)]
pub enum UpgradeSide<U> {
    North(U),
    South(U),
    West(U),
    East(U),
}

impl<U: Copy> UpgradeSide<U> {
    pub open spec fn spec_side(self) -> Side {
        match self {
            UpgradeSide::North(_) => Side::North,
            UpgradeSide::South(_) => Side::South,
            UpgradeSide::West(_) => Side::West,
            UpgradeSide::East(_) => Side::East,
        }
    }

    pub open spec fn spec_upgrade(self) -> U {
        match self {
            UpgradeSide::North(u) => u,
            UpgradeSide::South(u) => u,
            UpgradeSide::West(u) => u,
            UpgradeSide::East(u) => u,
        }
    }

    pub open spec fn spec_new(side: Side, u: U) -> Self {
        match side {
            Side::North => UpgradeSide::North(u),
            Side::South => UpgradeSide::South(u),
            Side::West => UpgradeSide::West(u),
            Side::East => UpgradeSide::East(u),
        }
    }

    pub fn new(side: Side, u: U) -> (r: Self)
        ensures
            r == Self::spec_new(side, u),
            r.spec_side() == side,
            r.spec_upgrade() == u,
    {
        match side {
            Side::North => UpgradeSide::North(u),
            Side::South => UpgradeSide::South(u),
            Side::West => UpgradeSide::West(u),
            Side::East => UpgradeSide::East(u),
        }
    }

    pub fn side(&self) -> (r: Side)
        ensures
            r == self.spec_side(),
    {
        match self {
            UpgradeSide::North(_) => Side::North,
            UpgradeSide::South(_) => Side::South,
            UpgradeSide::West(_) => Side::West,
            UpgradeSide::East(_) => Side::East,
        }
    }

    pub fn upgrade(&self) -> (r: U)
        ensures
            r == self.spec_upgrade(),
    {
        match self {
            UpgradeSide::North(u) => *u,
            UpgradeSide::South(u) => *u,
            UpgradeSide::West(u) => *u,
            UpgradeSide::East(u) => *u,
        }
    }

    /// The upgrade, if it applies to `side`.
    pub fn for_side(&self, side: Side) -> (r: Option<U>)
        ensures
            r == (if self.spec_side() == side { Some(self.spec_upgrade()) } else { None::<U> }),
    {
        let s = self.side();
        if s == side {
            Some(self.upgrade())
        } else {
            None
        }
    }
}

impl GlobalWallUpgrade {
    /// Number of kinds of this upgrade; a roll picks one of `0..KINDS`.
    pub const KINDS: u32 = 2;

    /// The closed range that the value of the upgrade of `kind` is drawn from.
    pub open spec fn spec_bounds(kind: u32) -> (u32, u32) {
        match kind {
            0 => (10, 30),
            _ => (20, 70),
        }
    }

    /// The upgrade of `kind` with `value`; kinds past the last one give the last.
    pub open spec fn spec_from_roll(kind: u32, value: u32) -> Self {
        match kind {
            0 => GlobalWallUpgrade::AdditionalMaxHp(value),
            _ => GlobalWallUpgrade::Heal(value),
        }
    }

    pub open spec fn spec_kind(self) -> u32 {
        match self {
            GlobalWallUpgrade::AdditionalMaxHp(v) => 0,
            GlobalWallUpgrade::Heal(v) => 1,
        }
    }

    pub open spec fn spec_value(self) -> u32 {
        match self {
            GlobalWallUpgrade::AdditionalMaxHp(v) => v,
            GlobalWallUpgrade::Heal(v) => v,
        }
    }

    /// The value lies in the range of its kind.
    pub open spec fn spec_valid(self) -> bool {
        Self::spec_bounds(self.spec_kind()).0 <= self.spec_value() <= Self::spec_bounds(
            self.spec_kind(),
        ).1
    }

    pub fn bounds(kind: u32) -> (r: (u32, u32))
        ensures
            r == Self::spec_bounds(kind),
            r.0 <= r.1,
    {
        match kind {
            0 => (10, 30),
            _ => (20, 70),
        }
    }

    pub fn from_roll(kind: u32, value: u32) -> (r: Self)
        ensures
            r == Self::spec_from_roll(kind, value),
            kind < Self::KINDS ==> r.spec_kind() == kind,
            r.spec_value() == value,
    {
        match kind {
            0 => GlobalWallUpgrade::AdditionalMaxHp(value),
            _ => GlobalWallUpgrade::Heal(value),
        }
    }

    pub fn value(&self) -> (r: u32)
        ensures
            r == self.spec_value(),
    {
        match *self {
            GlobalWallUpgrade::AdditionalMaxHp(v) => v,
            GlobalWallUpgrade::Heal(v) => v,
        }
    }
}

impl WallUpgrade {
    /// Number of kinds of this upgrade; a roll picks one of `0..KINDS`.
    pub const KINDS: u32 = 2;

    /// The closed range that the value of the upgrade of `kind` is drawn from.
    pub open spec fn spec_bounds(kind: u32) -> (u32, u32) {
        match kind {
            0 => (20, 50),
            _ => (40, 90),
        }
    }

    /// The upgrade of `kind` with `value`; kinds past the last one give the last.
    pub open spec fn spec_from_roll(kind: u32, value: u32) -> Self {
        match kind {
            0 => WallUpgrade::AdditionalMaxHp(value),
            _ => WallUpgrade::Heal(value),
        }
    }

    pub open spec fn spec_kind(self) -> u32 {
        match self {
            WallUpgrade::AdditionalMaxHp(v) => 0,
            WallUpgrade::Heal(v) => 1,
        }
    }

    pub open spec fn spec_value(self) -> u32 {
        match self {
            WallUpgrade::AdditionalMaxHp(v) => v,
            WallUpgrade::Heal(v) => v,
        }
    }

    /// The value lies in the range of its kind.
    pub open spec fn spec_valid(self) -> bool {
        Self::spec_bounds(self.spec_kind()).0 <= self.spec_value() <= Self::spec_bounds(
            self.spec_kind(),
        ).1
    }

    pub fn bounds(kind: u32) -> (r: (u32, u32))
        ensures
            r == Self::spec_bounds(kind),
            r.0 <= r.1,
    {
        match kind {
            0 => (20, 50),
            _ => (40, 90),
        }
    }

    pub fn from_roll(kind: u32, value: u32) -> (r: Self)
        ensures
            r == Self::spec_from_roll(kind, value),
            kind < Self::KINDS ==> r.spec_kind() == kind,
            r.spec_value() == value,
    {
        match kind {
            0 => WallUpgrade::AdditionalMaxHp(value),
            _ => WallUpgrade::Heal(value),
        }
    }

    pub fn value(&self) -> (r: u32)
        ensures
            r == self.spec_value(),
    {
        match *self {
            WallUpgrade::AdditionalMaxHp(v) => v,
            WallUpgrade::Heal(v) => v,
        }
    }
}

impl GlobalWeaponUpgrade {
    /// Number of kinds of this upgrade; a roll picks one of `0..KINDS`.
    pub const KINDS: u32 = 4;

    /// The closed range that the value of the upgrade of `kind` is drawn from.
    pub open spec fn spec_bounds(kind: u32) -> (u32, u32) {
        match kind {
            0 => (20, 150),
            1 => (20, 50),
            2 => (50, 200),
            _ => (10, 100),
        }
    }

    /// The upgrade of `kind` with `value`; kinds past the last one give the last.
    pub open spec fn spec_from_roll(kind: u32, value: u32) -> Self {
        match kind {
            0 => GlobalWeaponUpgrade::Damage(value),
            1 => GlobalWeaponUpgrade::DamageFlat(value),
            2 => GlobalWeaponUpgrade::CritDamage(value),
            _ => GlobalWeaponUpgrade::CritChance(value),
        }
    }

    pub open spec fn spec_kind(self) -> u32 {
        match self {
            GlobalWeaponUpgrade::Damage(v) => 0,
            GlobalWeaponUpgrade::DamageFlat(v) => 1,
            GlobalWeaponUpgrade::CritDamage(v) => 2,
            GlobalWeaponUpgrade::CritChance(v) => 3,
        }
    }

    pub open spec fn spec_value(self) -> u32 {
        match self {
            GlobalWeaponUpgrade::Damage(v) => v,
            GlobalWeaponUpgrade::DamageFlat(v) => v,
            GlobalWeaponUpgrade::CritDamage(v) => v,
            GlobalWeaponUpgrade::CritChance(v) => v,
        }
    }

    /// The value lies in the range of its kind.
    pub open spec fn spec_valid(self) -> bool {
        Self::spec_bounds(self.spec_kind()).0 <= self.spec_value() <= Self::spec_bounds(
            self.spec_kind(),
        ).1
    }

    pub fn bounds(kind: u32) -> (r: (u32, u32))
        ensures
            r == Self::spec_bounds(kind),
            r.0 <= r.1,
    {
        match kind {
            0 => (20, 150),
            1 => (20, 50),
            2 => (50, 200),
            _ => (10, 100),
        }
    }

    pub fn from_roll(kind: u32, value: u32) -> (r: Self)
        ensures
            r == Self::spec_from_roll(kind, value),
            kind < Self::KINDS ==> r.spec_kind() == kind,
            r.spec_value() == value,
    {
        match kind {
            0 => GlobalWeaponUpgrade::Damage(value),
            1 => GlobalWeaponUpgrade::DamageFlat(value),
            2 => GlobalWeaponUpgrade::CritDamage(value),
            _ => GlobalWeaponUpgrade::CritChance(value),
        }
    }

    pub fn value(&self) -> (r: u32)
        ensures
            r == self.spec_value(),
    {
        match *self {
            GlobalWeaponUpgrade::Damage(v) => v,
            GlobalWeaponUpgrade::DamageFlat(v) => v,
            GlobalWeaponUpgrade::CritDamage(v) => v,
            GlobalWeaponUpgrade::CritChance(v) => v,
        }
    }
}

impl WeaponUpgrade {
    /// Number of kinds of this upgrade; a roll picks one of `0..KINDS`.
    pub const KINDS: u32 = 15;

    /// The closed range that the value of the upgrade of `kind` is drawn from.
    pub open spec fn spec_bounds(kind: u32) -> (u32, u32) {
        match kind {
            0 => (10, 100),
            1 => (5, 70),
            2 => (10, 150),
            3 => (10, 100),
            4 => (100, 1000),
            5 => (10, 50),
            6 => (50, 200),
            7 => (10, 80),
            8 => (3, 40),
            9 => (10, 50),
            10 => (100, 100),
            11 => (50, 200),
            12 => (10, 50),
            13 => (10, 50),
            _ => (10, 30),
        }
    }

    /// The upgrade of `kind` with `value`; kinds past the last one give the last.
    pub open spec fn spec_from_roll(kind: u32, value: u32) -> Self {
        match kind {
            0 => WeaponUpgrade::CrossbowDamage(value),
            1 => WeaponUpgrade::CrossbowDamageFlat(value),
            2 => WeaponUpgrade::CrossbowCritDamage(value),
            3 => WeaponUpgrade::CrossbowCritChance(value),
            4 => WeaponUpgrade::CrossbowRange(value),
            5 => WeaponUpgrade::CrossbowAttackSpeed(value),
            6 => WeaponUpgrade::CrossbowArrowSpeed(value),
            7 => WeaponUpgrade::MolotovDamage(value),
            8 => WeaponUpgrade::MolotovDamageFlat(value),
            9 => WeaponUpgrade::MolotovCritDamage(value),
            10 => WeaponUpgrade::MolotovCritChance(value),
            11 => WeaponUpgrade::MolotovAreaSize(value),
            12 => WeaponUpgrade::MolotovAttackSpeed(value),
            13 => WeaponUpgrade::MolotovAreaAttackSpeed(value),
            _ => WeaponUpgrade::MolotovAreaLifespan(value),
        }
    }

    pub open spec fn spec_kind(self) -> u32 {
        match self {
            WeaponUpgrade::CrossbowDamage(v) => 0,
            WeaponUpgrade::CrossbowDamageFlat(v) => 1,
            WeaponUpgrade::CrossbowCritDamage(v) => 2,
            WeaponUpgrade::CrossbowCritChance(v) => 3,
            WeaponUpgrade::CrossbowRange(v) => 4,
            WeaponUpgrade::CrossbowAttackSpeed(v) => 5,
            WeaponUpgrade::CrossbowArrowSpeed(v) => 6,
            WeaponUpgrade::MolotovDamage(v) => 7,
            WeaponUpgrade::MolotovDamageFlat(v) => 8,
            WeaponUpgrade::MolotovCritDamage(v) => 9,
            WeaponUpgrade::MolotovCritChance(v) => 10,
            WeaponUpgrade::MolotovAreaSize(v) => 11,
            WeaponUpgrade::MolotovAttackSpeed(v) => 12,
            WeaponUpgrade::MolotovAreaAttackSpeed(v) => 13,
            WeaponUpgrade::MolotovAreaLifespan(v) => 14,
        }
    }

    pub open spec fn spec_value(self) -> u32 {
        match self {
            WeaponUpgrade::CrossbowDamage(v) => v,
            WeaponUpgrade::CrossbowDamageFlat(v) => v,
            WeaponUpgrade::CrossbowCritDamage(v) => v,
            WeaponUpgrade::CrossbowCritChance(v) => v,
            WeaponUpgrade::CrossbowRange(v) => v,
            WeaponUpgrade::CrossbowAttackSpeed(v) => v,
            WeaponUpgrade::CrossbowArrowSpeed(v) => v,
            WeaponUpgrade::MolotovDamage(v) => v,
            WeaponUpgrade::MolotovDamageFlat(v) => v,
            WeaponUpgrade::MolotovCritDamage(v) => v,
            WeaponUpgrade::MolotovCritChance(v) => v,
            WeaponUpgrade::MolotovAreaSize(v) => v,
            WeaponUpgrade::MolotovAttackSpeed(v) => v,
            WeaponUpgrade::MolotovAreaAttackSpeed(v) => v,
            WeaponUpgrade::MolotovAreaLifespan(v) => v,
        }
    }

    /// The value lies in the range of its kind.
    pub open spec fn spec_valid(self) -> bool {
        Self::spec_bounds(self.spec_kind()).0 <= self.spec_value() <= Self::spec_bounds(
            self.spec_kind(),
        ).1
    }

    pub fn bounds(kind: u32) -> (r: (u32, u32))
        ensures
            r == Self::spec_bounds(kind),
            r.0 <= r.1,
    {
        match kind {
            0 => (10, 100),
            1 => (5, 70),
            2 => (10, 150),
            3 => (10, 100),
            4 => (100, 1000),
            5 => (10, 50),
            6 => (50, 200),
            7 => (10, 80),
            8 => (3, 40),
            9 => (10, 50),
            10 => (100, 100),
            11 => (50, 200),
            12 => (10, 50),
            13 => (10, 50),
            _ => (10, 30),
        }
    }

    pub fn from_roll(kind: u32, value: u32) -> (r: Self)
        ensures
            r == Self::spec_from_roll(kind, value),
            kind < Self::KINDS ==> r.spec_kind() == kind,
            r.spec_value() == value,
    {
        match kind {
            0 => WeaponUpgrade::CrossbowDamage(value),
            1 => WeaponUpgrade::CrossbowDamageFlat(value),
            2 => WeaponUpgrade::CrossbowCritDamage(value),
            3 => WeaponUpgrade::CrossbowCritChance(value),
            4 => WeaponUpgrade::CrossbowRange(value),
            5 => WeaponUpgrade::CrossbowAttackSpeed(value),
            6 => WeaponUpgrade::CrossbowArrowSpeed(value),
            7 => WeaponUpgrade::MolotovDamage(value),
            8 => WeaponUpgrade::MolotovDamageFlat(value),
            9 => WeaponUpgrade::MolotovCritDamage(value),
            10 => WeaponUpgrade::MolotovCritChance(value),
            11 => WeaponUpgrade::MolotovAreaSize(value),
            12 => WeaponUpgrade::MolotovAttackSpeed(value),
            13 => WeaponUpgrade::MolotovAreaAttackSpeed(value),
            _ => WeaponUpgrade::MolotovAreaLifespan(value),
        }
    }

    pub fn value(&self) -> (r: u32)
        ensures
            r == self.spec_value(),
    {
        match *self {
            WeaponUpgrade::CrossbowDamage(v) => v,
            WeaponUpgrade::CrossbowDamageFlat(v) => v,
            WeaponUpgrade::CrossbowCritDamage(v) => v,
            WeaponUpgrade::CrossbowCritChance(v) => v,
            WeaponUpgrade::CrossbowRange(v) => v,
            WeaponUpgrade::CrossbowAttackSpeed(v) => v,
            WeaponUpgrade::CrossbowArrowSpeed(v) => v,
            WeaponUpgrade::MolotovDamage(v) => v,
            WeaponUpgrade::MolotovDamageFlat(v) => v,
            WeaponUpgrade::MolotovCritDamage(v) => v,
            WeaponUpgrade::MolotovCritChance(v) => v,
            WeaponUpgrade::MolotovAreaSize(v) => v,
            WeaponUpgrade::MolotovAttackSpeed(v) => v,
            WeaponUpgrade::MolotovAreaAttackSpeed(v) => v,
            WeaponUpgrade::MolotovAreaLifespan(v) => v,
        }
    }
}

impl GlobalEnemyUpgrade {
    /// Number of kinds of this upgrade; a roll picks one of `0..KINDS`.
    pub const KINDS: u32 = 5;

    /// The closed range that the value of the upgrade of `kind` is drawn from.
    pub open spec fn spec_bounds(kind: u32) -> (u32, u32) {
        match kind {
            0 => (10, 100),
            1 => (1, 10),
            2 => (10, 80),
            3 => (20, 100),
            _ => (10, 50),
        }
    }

    /// The upgrade of `kind` with `value`; kinds past the last one give the last.
    pub open spec fn spec_from_roll(kind: u32, value: u32) -> Self {
        match kind {
            0 => GlobalEnemyUpgrade::Health(value),
            1 => GlobalEnemyUpgrade::Speed(value),
            2 => GlobalEnemyUpgrade::Exp(value),
            3 => GlobalEnemyUpgrade::Damage(value),
            _ => GlobalEnemyUpgrade::AttackSpeed(value),
        }
    }

    pub open spec fn spec_kind(self) -> u32 {
        match self {
            GlobalEnemyUpgrade::Health(v) => 0,
            GlobalEnemyUpgrade::Speed(v) => 1,
            GlobalEnemyUpgrade::Exp(v) => 2,
            GlobalEnemyUpgrade::Damage(v) => 3,
            GlobalEnemyUpgrade::AttackSpeed(v) => 4,
        }
    }

    pub open spec fn spec_value(self) -> u32 {
        match self {
            GlobalEnemyUpgrade::Health(v) => v,
            GlobalEnemyUpgrade::Speed(v) => v,
            GlobalEnemyUpgrade::Exp(v) => v,
            GlobalEnemyUpgrade::Damage(v) => v,
            GlobalEnemyUpgrade::AttackSpeed(v) => v,
        }
    }

    /// The value lies in the range of its kind.
    pub open spec fn spec_valid(self) -> bool {
        Self::spec_bounds(self.spec_kind()).0 <= self.spec_value() <= Self::spec_bounds(
            self.spec_kind(),
        ).1
    }

    pub fn bounds(kind: u32) -> (r: (u32, u32))
        ensures
            r == Self::spec_bounds(kind),
            r.0 <= r.1,
    {
        match kind {
            0 => (10, 100),
            1 => (1, 10),
            2 => (10, 80),
            3 => (20, 100),
            _ => (10, 50),
        }
    }

    pub fn from_roll(kind: u32, value: u32) -> (r: Self)
        ensures
            r == Self::spec_from_roll(kind, value),
            kind < Self::KINDS ==> r.spec_kind() == kind,
            r.spec_value() == value,
    {
        match kind {
            0 => GlobalEnemyUpgrade::Health(value),
            1 => GlobalEnemyUpgrade::Speed(value),
            2 => GlobalEnemyUpgrade::Exp(value),
            3 => GlobalEnemyUpgrade::Damage(value),
            _ => GlobalEnemyUpgrade::AttackSpeed(value),
        }
    }

    pub fn value(&self) -> (r: u32)
        ensures
            r == self.spec_value(),
    {
        match *self {
            GlobalEnemyUpgrade::Health(v) => v,
            GlobalEnemyUpgrade::Speed(v) => v,
            GlobalEnemyUpgrade::Exp(v) => v,
            GlobalEnemyUpgrade::Damage(v) => v,
            GlobalEnemyUpgrade::AttackSpeed(v) => v,
        }
    }
}

impl EnemyUpgrade {
    /// Number of kinds of this upgrade; a roll picks one of `0..KINDS`.
    pub const KINDS: u32 = 5;

    /// The closed range that the value of the upgrade of `kind` is drawn from.
    pub open spec fn spec_bounds(kind: u32) -> (u32, u32) {
        match kind {
            0 => (10, 200),
            1 => (1, 50),
            2 => (10, 150),
            3 => (20, 250),
            _ => (10, 100),
        }
    }

    /// The upgrade of `kind` with `value`; kinds past the last one give the last.
    pub open spec fn spec_from_roll(kind: u32, value: u32) -> Self {
        match kind {
            0 => EnemyUpgrade::Health(value),
            1 => EnemyUpgrade::Speed(value),
            2 => EnemyUpgrade::Exp(value),
            3 => EnemyUpgrade::Damage(value),
            _ => EnemyUpgrade::AttackSpeed(value),
        }
    }

    pub open spec fn spec_kind(self) -> u32 {
        match self {
            EnemyUpgrade::Health(v) => 0,
            EnemyUpgrade::Speed(v) => 1,
            EnemyUpgrade::Exp(v) => 2,
            EnemyUpgrade::Damage(v) => 3,
            EnemyUpgrade::AttackSpeed(v) => 4,
        }
    }

    pub open spec fn spec_value(self) -> u32 {
        match self {
            EnemyUpgrade::Health(v) => v,
            EnemyUpgrade::Speed(v) => v,
            EnemyUpgrade::Exp(v) => v,
            EnemyUpgrade::Damage(v) => v,
            EnemyUpgrade::AttackSpeed(v) => v,
        }
    }

    /// The value lies in the range of its kind.
    pub open spec fn spec_valid(self) -> bool {
        Self::spec_bounds(self.spec_kind()).0 <= self.spec_value() <= Self::spec_bounds(
            self.spec_kind(),
        ).1
    }

    pub fn bounds(kind: u32) -> (r: (u32, u32))
        ensures
            r == Self::spec_bounds(kind),
            r.0 <= r.1,
    {
        match kind {
            0 => (10, 200),
            1 => (1, 50),
            2 => (10, 150),
            3 => (20, 250),
            _ => (10, 100),
        }
    }

    pub fn from_roll(kind: u32, value: u32) -> (r: Self)
        ensures
            r == Self::spec_from_roll(kind, value),
            kind < Self::KINDS ==> r.spec_kind() == kind,
            r.spec_value() == value,
    {
        match kind {
            0 => EnemyUpgrade::Health(value),
            1 => EnemyUpgrade::Speed(value),
            2 => EnemyUpgrade::Exp(value),
            3 => EnemyUpgrade::Damage(value),
            _ => EnemyUpgrade::AttackSpeed(value),
        }
    }

    pub fn value(&self) -> (r: u32)
        ensures
            r == self.spec_value(),
    {
        match *self {
            EnemyUpgrade::Health(v) => v,
            EnemyUpgrade::Speed(v) => v,
            EnemyUpgrade::Exp(v) => v,
            EnemyUpgrade::Damage(v) => v,
            EnemyUpgrade::AttackSpeed(v) => v,
        }
    }
}

/// One candidate offered at a level-up: six independent, optional slots.
#[derive(Debug, Clone, Copy, PartialEq, Eq, Structural)]
pub struct Upgrade {
    pub global_wall_upgrade: Option<GlobalWallUpgrade>,
    pub wall_upgrade: Option<UpgradeSide<WallUpgrade>>,
    pub global_weapon_upgrade: Option<GlobalWeaponUpgrade>,
    pub weapon_upgrade: Option<UpgradeSide<WeaponUpgrade>>,
    pub global_enemy_upgrade: Option<GlobalEnemyUpgrade>,
    pub enemy_upgrade: Option<UpgradeSide<EnemyUpgrade>>,
}

/// The player-side upgrades of a candidate that touch every side.
#[derive(Debug, Clone, Copy, PartialEq, Eq, Structural)]
pub struct GlobalBuffs {
    pub wall_upgrade: Option<GlobalWallUpgrade>,
    pub weapon_upgrade: Option<GlobalWeaponUpgrade>,
}

/// The enemy-side upgrade of a candidate that touches every side.
#[derive(Debug, Clone, Copy, PartialEq, Eq, Structural)]
pub struct GlobalDebuffs {
    pub enemy_upgrade: Option<GlobalEnemyUpgrade>,
}

/// The player-side upgrades of a candidate that touch one side.
#[derive(Debug, Clone, Copy, PartialEq, Eq, Structural)]
pub struct SideBuffs {
    pub side: Side,
    pub wall_upgrade: Option<WallUpgrade>,
    pub weapon_upgrade: Option<WeaponUpgrade>,
}

impl SideBuffs {
    pub fn new(side: Side, wall_upgrade: Option<WallUpgrade>, weapon_upgrade: Option<WeaponUpgrade>) -> (r: Self)
        ensures
            r == (SideBuffs { side, wall_upgrade, weapon_upgrade }),
    {
        SideBuffs { side, wall_upgrade, weapon_upgrade }
    }
}

/// The enemy-side upgrade of a candidate that touches one side.
#[derive(Debug, Clone, Copy, PartialEq, Eq, Structural)]
pub struct SideDebuffs {
    pub side: Side,
    pub enemy_upgrade: Option<EnemyUpgrade>,
}

impl SideDebuffs {
    pub fn new(side: Side, enemy_upgrade: Option<EnemyUpgrade>) -> (r: Self)
        ensures
            r == (SideDebuffs { side, enemy_upgrade }),
    {
        SideDebuffs { side, enemy_upgrade }
    }
}

/// The part of an optional sided upgrade that applies to `side`.
pub open spec fn spec_on_side<U: Copy>(u: Option<UpgradeSide<U>>, side: Side) -> Option<U> {
    match u {
        Some(s) => if s.spec_side() == side { Some(s.spec_upgrade()) } else { None },
        None => None,
    }
}

fn on_side<U: Copy>(u: Option<UpgradeSide<U>>, side: Side) -> (r: Option<U>)
    ensures
        r == spec_on_side(u, side),
{
    match u {
        Some(s) => s.for_side(side),
        None => None,
    }
}

impl Upgrade {
    /// A candidate with every slot empty.
    pub open spec fn spec_empty() -> Self {
        Upgrade {
            global_wall_upgrade: None,
            wall_upgrade: None,
            global_weapon_upgrade: None,
            weapon_upgrade: None,
            global_enemy_upgrade: None,
            enemy_upgrade: None,
        }
    }

    pub fn empty() -> (r: Self)
        ensures
            r == Self::spec_empty(),
    {
        Upgrade {
            global_wall_upgrade: None,
            wall_upgrade: None,
            global_weapon_upgrade: None,
            weapon_upgrade: None,
            global_enemy_upgrade: None,
            enemy_upgrade: None,
        }
    }

    pub open spec fn spec_has_global_upgrades(self) -> bool {
        self.global_wall_upgrade.is_some() || self.global_weapon_upgrade.is_some()
            || self.global_enemy_upgrade.is_some()
    }

    pub open spec fn spec_has_side_upgrades(self, side: Side) -> bool {
        spec_on_side(self.wall_upgrade, side).is_some() || spec_on_side(
            self.weapon_upgrade,
            side,
        ).is_some() || spec_on_side(self.enemy_upgrade, side).is_some()
    }

    pub fn has_global_upgrades(&self) -> (r: bool)
        ensures
            r == self.spec_has_global_upgrades(),
    {
        self.global_wall_upgrade.is_some() || self.global_weapon_upgrade.is_some()
            || self.global_enemy_upgrade.is_some()
    }

    pub fn global_upgrades(&self) -> (r: (GlobalBuffs, GlobalDebuffs))
        ensures
            r.0.wall_upgrade == self.global_wall_upgrade,
            r.0.weapon_upgrade == self.global_weapon_upgrade,
            r.1.enemy_upgrade == self.global_enemy_upgrade,
    {
        (
            GlobalBuffs {
                wall_upgrade: self.global_wall_upgrade,
                weapon_upgrade: self.global_weapon_upgrade,
            },
            GlobalDebuffs { enemy_upgrade: self.global_enemy_upgrade },
        )
    }

    pub fn has_side_upgrades(&self, side: Side) -> (r: bool)
        ensures
            r == self.spec_has_side_upgrades(side),
    {
        on_side(self.wall_upgrade, side).is_some() || on_side(self.weapon_upgrade, side).is_some()
            || on_side(self.enemy_upgrade, side).is_some()
    }

    pub fn side_upgrades(&self, side: Side) -> (r: (SideBuffs, SideDebuffs))
        ensures
            r.0 == (SideBuffs {
                side,
                wall_upgrade: spec_on_side(self.wall_upgrade, side),
                weapon_upgrade: spec_on_side(self.weapon_upgrade, side),
            }),
            r.1 == (SideDebuffs { side, enemy_upgrade: spec_on_side(self.enemy_upgrade, side) }),
    {
        (
            SideBuffs::new(side, on_side(self.wall_upgrade, side), on_side(self.weapon_upgrade, side)),
            SideDebuffs::new(side, on_side(self.enemy_upgrade, side)),
        )
    }

    pub fn has_north_upgrades(&self) -> (r: bool)
        ensures
            r == self.spec_has_side_upgrades(Side::North),
    {
        self.has_side_upgrades(Side::North)
    }

    pub fn north_upgrades(&self) -> (r: (SideBuffs, SideDebuffs))
        ensures
            r.0.wall_upgrade == spec_on_side(self.wall_upgrade, Side::North),
            r.0.weapon_upgrade == spec_on_side(self.weapon_upgrade, Side::North),
            r.1.enemy_upgrade == spec_on_side(self.enemy_upgrade, Side::North),
            r.0.side == Side::North && r.1.side == Side::North,
    {
        self.side_upgrades(Side::North)
    }

    pub fn has_south_upgrades(&self) -> (r: bool)
        ensures
            r == self.spec_has_side_upgrades(Side::South),
    {
        self.has_side_upgrades(Side::South)
    }

    pub fn south_upgrades(&self) -> (r: (SideBuffs, SideDebuffs))
        ensures
            r.0.wall_upgrade == spec_on_side(self.wall_upgrade, Side::South),
            r.0.weapon_upgrade == spec_on_side(self.weapon_upgrade, Side::South),
            r.1.enemy_upgrade == spec_on_side(self.enemy_upgrade, Side::South),
            r.0.side == Side::South && r.1.side == Side::South,
    {
        self.side_upgrades(Side::South)
    }

    pub fn has_west_upgrades(&self) -> (r: bool)
        ensures
            r == self.spec_has_side_upgrades(Side::West),
    {
        self.has_side_upgrades(Side::West)
    }

    pub fn west_upgrades(&self) -> (r: (SideBuffs, SideDebuffs))
        ensures
            r.0.wall_upgrade == spec_on_side(self.wall_upgrade, Side::West),
            r.0.weapon_upgrade == spec_on_side(self.weapon_upgrade, Side::West),
            r.1.enemy_upgrade == spec_on_side(self.enemy_upgrade, Side::West),
            r.0.side == Side::West && r.1.side == Side::West,
    {
        self.side_upgrades(Side::West)
    }

    pub fn has_east_upgrades(&self) -> (r: bool)
        ensures
            r == self.spec_has_side_upgrades(Side::East),
    {
        self.has_side_upgrades(Side::East)
    }

    pub fn east_upgrades(&self) -> (r: (SideBuffs, SideDebuffs))
        ensures
            r.0.wall_upgrade == spec_on_side(self.wall_upgrade, Side::East),
            r.0.weapon_upgrade == spec_on_side(self.weapon_upgrade, Side::East),
            r.1.enemy_upgrade == spec_on_side(self.enemy_upgrade, Side::East),
            r.0.side == Side::East && r.1.side == Side::East,
    {
        self.side_upgrades(Side::East)
    }
}

} // verus!
