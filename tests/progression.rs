use mind_your_sides::buffs::{Balance, GlobalWeaponBuffs};
use mind_your_sides::castle::{Castle, CastleWall, CASTLE_FIRST_LEVEL_EXP};
use mind_your_sides::game::{Game, GameState};
use mind_your_sides::side::Side;
use mind_your_sides::timer::{Timer, TimerMode};
use mind_your_sides::upgrades::apply::apply_upgrades;
use mind_your_sides::upgrades::generate::{genereate_upgrades, upgrade_from_rolls, SlotRoll, Upgrades};
use mind_your_sides::upgrades::{
    GlobalWallUpgrade, GlobalWeaponUpgrade, Upgrade, UpgradeSide, WallUpgrade, WeaponUpgrade,
};

#[test]
fn castle_starts_at_level_zero() {
    let c = Castle::new();
    assert_eq!(c.level, 0);
    assert_eq!(c.exp, 0);
    assert_eq!(c.next_level_exp, CASTLE_FIRST_LEVEL_EXP);
}

#[test]
fn level_up_carries_excess_experience() {
    let mut c = Castle::new();
    c.gain_exp(150);
    assert!(c.castle_level_up());
    assert_eq!(c.level, 1);
    assert_eq!(c.exp, 50);
    assert_eq!(c.next_level_exp, 110);
    assert!(!c.castle_level_up());
    assert_eq!(c.level, 1);
}

#[test]
fn level_up_overshooting_two_thresholds_takes_two_steps() {
    let mut c = Castle::new();
    c.gain_exp(250);
    assert!(c.castle_level_up());
    assert_eq!((c.level, c.exp, c.next_level_exp), (1, 150, 110));
    assert!(c.castle_level_up());
    assert_eq!((c.level, c.exp, c.next_level_exp), (2, 40, 121));
    assert!(!c.castle_level_up());
}

#[test]
fn no_level_up_below_threshold() {
    let mut c = Castle::new();
    c.gain_exp(99);
    assert!(!c.castle_level_up());
    assert_eq!(c.exp, 99);
    assert_eq!(c.level, 0);
}

#[test]
fn heal_never_exceeds_max_health() {
    let mut w = CastleWall::new(100);
    w.take_damage(30);
    assert_eq!(w.health, 70);
    w.heal(50);
    assert_eq!(w.health, 100);
    assert_eq!(w.max_health, 100);
    w.take_damage(10);
    w.heal(4);
    assert_eq!(w.health, 94);
}

#[test]
fn damage_may_take_wall_below_zero() {
    let mut w = CastleWall::new(10);
    w.take_damage(25);
    assert_eq!(w.health, -15);
    assert!(w.is_destroyed());
}

#[test]
fn additional_max_hp_keeps_health() {
    let mut w = CastleWall::new(100);
    w.take_damage(20);
    w.add_max_hp(30);
    assert_eq!(w.max_health, 130);
    assert_eq!(w.health, 80);
    w.heal(100);
    assert_eq!(w.health, 130);
}

fn weapon_damage_upgrade(value: u32) -> Upgrade {
    let mut u = Upgrade::empty();
    u.global_weapon_upgrade = Some(GlobalWeaponUpgrade::Damage(value));
    u
}

#[test]
fn buffs_add_in_either_order() {
    let walls0 = mind_your_sides::side::PerSide::splat(CastleWall::new(100));
    let a = weapon_damage_upgrade(100);
    let b = weapon_damage_upgrade(50);

    let mut first = Balance::new();
    let mut walls = walls0;
    apply_upgrades(&mut first, &mut walls, &a);
    apply_upgrades(&mut first, &mut walls, &b);

    let mut second = Balance::new();
    let mut walls = walls0;
    apply_upgrades(&mut second, &mut walls, &b);
    apply_upgrades(&mut second, &mut walls, &a);

    assert_eq!(first.global_weapon.damage, 150);
    assert_eq!(first, second);
}

#[test]
fn side_weapon_upgrade_touches_only_its_side() {
    let mut balance = Balance::new();
    let mut walls = mind_your_sides::side::PerSide::splat(CastleWall::new(100));
    let mut u = Upgrade::empty();
    u.weapon_upgrade = Some(UpgradeSide::West(WeaponUpgrade::CrossbowRange(200)));
    apply_upgrades(&mut balance, &mut walls, &u);
    assert_eq!(balance.weapons.west.crossbow.range, 200);
    assert_eq!(balance.weapons.north.crossbow.range, 0);
    assert_eq!(balance.global_weapon, GlobalWeaponBuffs::new());
}

#[test]
fn global_heal_touches_every_wall() {
    let mut balance = Balance::new();
    let mut walls = mind_your_sides::side::PerSide::splat(CastleWall::new(100));
    walls.north.take_damage(50);
    walls.east.take_damage(10);
    let mut u = Upgrade::empty();
    u.global_wall_upgrade = Some(GlobalWallUpgrade::Heal(30));
    apply_upgrades(&mut balance, &mut walls, &u);
    assert_eq!(walls.north.health, 80);
    assert_eq!(walls.east.health, 100);
    assert_eq!(walls.south.health, 100);
}

#[test]
fn side_wall_upgrade_touches_only_its_wall() {
    let mut balance = Balance::new();
    let mut walls = mind_your_sides::side::PerSide::splat(CastleWall::new(100));
    let mut u = Upgrade::empty();
    u.wall_upgrade = Some(UpgradeSide::South(WallUpgrade::AdditionalMaxHp(25)));
    apply_upgrades(&mut balance, &mut walls, &u);
    assert_eq!(walls.south.max_health, 125);
    assert_eq!(walls.north.max_health, 100);
}

fn roll(present: bool, global: bool, kind: u32, side: Side, value: u32) -> SlotRoll {
    SlotRoll { present, global, kind, side, value }
}

#[test]
fn rolls_without_wall_force_a_weapon() {
    let u = upgrade_from_rolls(
        roll(false, false, 0, Side::North, 30),
        roll(false, false, 4, Side::East, 150),
        roll(true, true, 2, Side::North, 40),
    );
    assert_eq!(u.global_wall_upgrade, None);
    assert_eq!(u.wall_upgrade, None);
    assert_eq!(u.weapon_upgrade, Some(UpgradeSide::East(WeaponUpgrade::CrossbowRange(150))));
    assert!(u.has_global_upgrades());
    assert!(u.has_east_upgrades());
    assert!(!u.has_north_upgrades());
}

#[test]
fn rolls_with_wall_may_skip_weapon() {
    let u = upgrade_from_rolls(
        roll(true, false, 1, Side::West, 60),
        roll(false, false, 4, Side::East, 150),
        roll(false, true, 2, Side::North, 40),
    );
    assert_eq!(u.wall_upgrade, Some(UpgradeSide::West(WallUpgrade::Heal(60))));
    assert_eq!(u.weapon_upgrade, None);
    assert_eq!(u.global_weapon_upgrade, None);
    assert_eq!(u.global_enemy_upgrade, None);
    let (buffs, debuffs) = u.side_upgrades(Side::West);
    assert_eq!(buffs.wall_upgrade, Some(WallUpgrade::Heal(60)));
    assert_eq!(debuffs.enemy_upgrade, None);
}

fn in_range(u: &Upgrade) -> bool {
    let ok = |v: u32, b: (u32, u32)| b.0 <= v && v <= b.1;
    let mut fine = true;
    if let Some(UpgradeSide::North(w) | UpgradeSide::South(w) | UpgradeSide::West(w) | UpgradeSide::East(w)) =
        u.weapon_upgrade
    {
        let kind = match w {
            WeaponUpgrade::CrossbowDamage(_) => 0,
            WeaponUpgrade::CrossbowDamageFlat(_) => 1,
            WeaponUpgrade::CrossbowCritDamage(_) => 2,
            WeaponUpgrade::CrossbowCritChance(_) => 3,
            WeaponUpgrade::CrossbowRange(_) => 4,
            WeaponUpgrade::CrossbowAttackSpeed(_) => 5,
            WeaponUpgrade::CrossbowArrowSpeed(_) => 6,
            WeaponUpgrade::MolotovDamage(_) => 7,
            WeaponUpgrade::MolotovDamageFlat(_) => 8,
            WeaponUpgrade::MolotovCritDamage(_) => 9,
            WeaponUpgrade::MolotovCritChance(_) => 10,
            WeaponUpgrade::MolotovAreaSize(_) => 11,
            WeaponUpgrade::MolotovAttackSpeed(_) => 12,
            WeaponUpgrade::MolotovAreaAttackSpeed(_) => 13,
            WeaponUpgrade::MolotovAreaLifespan(_) => 14,
        };
        fine &= ok(w.value(), WeaponUpgrade::bounds(kind));
    }
    fine
}

#[test]
fn slot_frequencies_match_configured_chances() {
    let mut wall = 0u32;
    let mut weapon = 0u32;
    let mut enemy = 0u32;
    let mut global_wall = 0u32;
    let n = 1000u32;
    for _ in 0..(n / 4) {
        let Upgrades { upgrades } = genereate_upgrades();
        for u in upgrades.iter() {
            let has_wall = u.global_wall_upgrade.is_some() || u.wall_upgrade.is_some();
            let has_weapon = u.global_weapon_upgrade.is_some() || u.weapon_upgrade.is_some();
            assert!(has_wall || has_weapon);
            assert!(!(u.global_wall_upgrade.is_some() && u.wall_upgrade.is_some()));
            assert!(in_range(u));
            if has_wall {
                wall += 1;
            }
            if u.global_wall_upgrade.is_some() {
                global_wall += 1;
            }
            if has_weapon {
                weapon += 1;
            }
            if u.global_enemy_upgrade.is_some() || u.enemy_upgrade.is_some() {
                enemy += 1;
            }
        }
    }
    let rate = |k: u32| k as f64 / n as f64;
    assert!((rate(wall) - 0.2).abs() < 0.05, "wall rate {}", rate(wall));
    // weapon: always without a wall, 90% with one
    assert!((rate(weapon) - (0.8 + 0.2 * 0.9)).abs() < 0.05, "weapon rate {}", rate(weapon));
    assert!((rate(enemy) - 0.99).abs() < 0.05, "enemy rate {}", rate(enemy));
    assert!((rate(global_wall) - 0.06).abs() < 0.05, "global wall rate {}", rate(global_wall));
}

#[test]
fn paused_timer_makes_no_progress() {
    let mut t = Timer::from_millis(1000, TimerMode::Repeating);
    t.tick(300);
    t.pause();
    assert!(!t.tick(5000));
    assert_eq!(t.elapsed, 300);
    t.unpause();
    assert!(!t.tick(600));
    assert_eq!(t.elapsed, 900);
    assert!(t.tick(200));
    assert_eq!(t.elapsed, 100);
}

#[test]
fn pause_is_transparent() {
    let mut a = Timer::from_millis(1000, TimerMode::Once);
    let mut b = a;
    a.tick(400);
    b.tick(400);
    b.pause();
    b.tick(10_000);
    b.unpause();
    assert_eq!(a.tick(700), b.tick(700));
    assert_eq!(a, b);
    assert!(a.finished);
}

#[test]
fn game_feeds_no_time_while_paused() {
    let mut g = Game::new(genereate_upgrades());
    assert_eq!(g.sim_delta(16), 16);
    g.pause();
    assert_eq!(g.state, GameState::Paused);
    assert_eq!(g.sim_delta(16), 0);
    g.resume();
    assert_eq!(g.state, GameState::InGame);
    assert_eq!(g.sim_delta(16), 16);
    g.open_stats(Side::East);
    assert_eq!(g.state, GameState::StatsEast);
    assert_eq!(g.sim_delta(16), 0);
}

#[test]
fn game_levels_up_and_applies_the_chosen_upgrade() {
    let mut offered = genereate_upgrades();
    offered.upgrades[2] = weapon_damage_upgrade(120);
    let mut g = Game::new(offered);
    assert_eq!(g.spawners.len(), 24);
    assert!(!g.select_upgrade(2, genereate_upgrades()));
    g.castle.gain_exp(120);
    assert!(g.castle_level_up());
    assert_eq!(g.state, GameState::LevelUp);
    assert_eq!(g.castle.exp, 20);
    assert_eq!(g.sim_delta(16), 0);
    assert!(!g.castle_level_up());
    let fresh = genereate_upgrades();
    assert!(g.select_upgrade(2, fresh));
    assert_eq!(g.state, GameState::InGame);
    assert_eq!(g.balance.global_weapon.damage, 120);
    assert_eq!(g.upgrades.upgrades, fresh.upgrades);
}

#[test]
fn breached_wall_ends_the_run() {
    let mut g = Game::new(genereate_upgrades());
    assert!(!g.check_wall_destroyed());
    g.walls.south.take_damage(100);
    assert!(g.check_wall_destroyed());
    assert_eq!(g.state, GameState::GameOver);
    assert_eq!(g.sim_delta(16), 0);
}
