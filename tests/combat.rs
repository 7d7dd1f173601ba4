use mind_your_sides::buffs::{CrossbowBuffs, EnemyBuffs, GlobalEnemyBuffs, GlobalWeaponBuffs, MolotovBuffs};
use mind_your_sides::castle::{Castle, CastleWall};
use mind_your_sides::damage::{damage_enemy, damage_wall, find_enemy, EnemyDamageEvent, WallDamageEvent};
use mind_your_sides::enemies::{
    enemy_death, roll_jitters, spawn_group, Enemy, EnemyAttack, EnemySpawn, EnemyType, SpawnState,
    SpawnStateTimer, FULL_TURN, SPAWN_JITTER,
};
use mind_your_sides::game::Game;
use mind_your_sides::side::Side;
use mind_your_sides::timer::{Timer, TimerMode};
use mind_your_sides::upgrades::generate::genereate_upgrades;
use mind_your_sides::weapons::molotov::{is_throw_ok, roll_throw, AreaStep, DamageArea, Molotov, MolotovBottle};
use mind_your_sides::weapons::{nearest_in_range, roll_crit, Crossbow, Point, ProjectileStep, Target};

fn enemy(id: u64, side: Side, health: i64, exp: u64) -> Enemy {
    Enemy {
        id,
        side,
        kind: EnemyType::Goblin,
        health,
        speed: 15_000,
        exp,
        attack: EnemyAttack {
            damage: 10,
            range: 20,
            attack_timer: Timer { duration: 1000, elapsed: 0, mode: TimerMode::Repeating, paused: true, finished: false },
        },
    }
}

#[test]
fn spawned_enemy_snapshots_buffs() {
    let g = GlobalEnemyBuffs { health: 100, speed: 0, exp: 50, damage: 200, attack_speed: 0 };
    let s = EnemyBuffs { health: 50, speed: 100, exp: 50, damage: 0, attack_speed: 100 };
    let e = Enemy::new(7, Side::North, EnemyType::Goblin, &g, &s);
    assert_eq!(e.id, 7);
    assert_eq!(e.health, 92); // 80 * 1.15
    assert_eq!(e.speed, 16_500); // 15 * 1.1, in thousandths
    assert_eq!(e.exp, 4); // 5 * (1 - 0.1), rounded down
    assert_eq!(e.attack.damage, 12); // 10 * 1.2
    assert_eq!(e.attack.attack_timer.duration, 1100);
    assert!(e.attack.attack_timer.paused);
}

#[test]
fn large_exp_cut_gives_no_reward() {
    let g = GlobalEnemyBuffs { health: 0, speed: 0, exp: 700, damage: 0, attack_speed: 0 };
    let s = EnemyBuffs { health: 0, speed: 0, exp: 400, damage: 0, attack_speed: 0 };
    let e = Enemy::new(1, Side::West, EnemyType::SpearGoblin, &g, &s);
    assert_eq!(e.exp, 0);
}

#[test]
fn spawn_group_has_its_kind_count_evenly_spread() {
    let jitters = vec![0, 29_999, 100, 5_000, 12_345];
    let group = spawn_group(Side::East, EnemyType::Bat, 10, &jitters, &GlobalEnemyBuffs::new(), &EnemyBuffs::new());
    assert_eq!(group.len(), EnemyType::Bat.number_per_spawn() as usize);
    assert_eq!(group.len(), 5);
    let slice = FULL_TURN / 5;
    for (i, s) in group.iter().enumerate() {
        assert_eq!(s.enemy.id, 10 + i as u64);
        assert_eq!(s.enemy.side, Side::East);
        assert_eq!(s.angle, i as u32 * slice + jitters[i]);
        assert_eq!(s.enemy.health, 30);
    }
}

#[test]
fn spawn_group_of_one() {
    let group = spawn_group(Side::South, EnemyType::MadCrab, 0, &vec![400], &GlobalEnemyBuffs::new(), &EnemyBuffs::new());
    assert_eq!(group.len(), 1);
    assert_eq!(group[0].angle, 400);
}

#[test]
fn random_jitters_stay_within_bound() {
    let mut rng = rand::thread_rng();
    let j = roll_jitters(&mut rng, 200);
    assert_eq!(j.len(), 200);
    assert!(j.iter().all(|&x| x < SPAWN_JITTER));
    assert!(j.iter().any(|&x| x != j[0]));
}

#[test]
fn stages_unlock_kinds_additively() {
    let mut t = SpawnStateTimer::new();
    assert_eq!(t.current_state, SpawnState::Stage1);
    assert!(EnemyType::Bat.unlocked(SpawnState::Stage1));
    assert!(!EnemyType::Skull.unlocked(SpawnState::Stage1));
    assert!(!t.enemy_spawn_state_progress(59_999));
    assert!(t.enemy_spawn_state_progress(1));
    assert_eq!(t.current_state, SpawnState::Stage2);
    assert!(t.enemy_spawn_state_progress(120_000));
    assert_eq!(t.current_state, SpawnState::Stage3);
    assert!(t.enemy_spawn_state_progress(120_000));
    assert_eq!(t.current_state, SpawnState::Stage4);
    assert_eq!(t.timer, None);
    assert!(!t.enemy_spawn_state_progress(1_000_000));
    assert!(EnemyType::MadCrab.unlocked(SpawnState::Stage4));
    assert!(EnemyType::Bat.unlocked(SpawnState::Stage4));
    assert!(!EnemyType::MadCrab.unlocked(SpawnState::Stage3));
}

#[test]
fn spawner_fires_on_its_cadence_for_unlocked_kinds() {
    let mut s = EnemySpawn::new(EnemyType::Goblin);
    assert!(!s.enemy_spawn(4_999, SpawnState::Stage1));
    assert!(s.enemy_spawn(1, SpawnState::Stage1));
    let mut crab = EnemySpawn::new(EnemyType::MadCrab);
    assert!(!crab.enemy_spawn(5_000, SpawnState::Stage1));
    assert!(crab.enemy_spawn(5_000, SpawnState::Stage4));
}

#[test]
fn enemy_attacks_only_in_range_and_keeps_progress() {
    let mut e = enemy(1, Side::North, 50, 5);
    assert_eq!(e.enemy_attack(100, 600), None);
    assert_eq!(e.attack.attack_timer.elapsed, 0);
    assert_eq!(e.enemy_attack(15, 600), None);
    assert_eq!(e.enemy_attack(100, 10_000), None);
    assert!(e.attack.attack_timer.paused);
    assert_eq!(e.attack.attack_timer.elapsed, 600);
    assert_eq!(e.enemy_attack(20, 400), Some(10));
}

#[test]
fn wall_damage_goes_to_its_side() {
    let mut w = CastleWall::new(100);
    let events = vec![
        WallDamageEvent::new(Side::North, 10),
        WallDamageEvent::new(Side::South, 50),
        WallDamageEvent::new(Side::North, 15),
    ];
    damage_wall(Side::North, &mut w, &events);
    assert_eq!(w.health, 75);
}

#[test]
fn stale_damage_event_is_ignored() {
    let mut enemies = vec![enemy(1, Side::East, 30, 5), enemy(2, Side::East, 30, 5)];
    let events = vec![
        EnemyDamageEvent::new(9, 100, false),
        EnemyDamageEvent::new(2, 10, false),
        EnemyDamageEvent::new(2, 25, true),
    ];
    damage_enemy(&mut enemies, &events);
    assert_eq!(enemies[0].health, 30);
    assert_eq!(enemies[1].health, -5);
    assert_eq!(find_enemy(&enemies, 2), Some(1));
    assert_eq!(find_enemy(&enemies, 9), None);
}

#[test]
fn each_death_rewards_the_castle() {
    let mut enemies = vec![enemy(1, Side::East, 0, 5), enemy(2, Side::East, 3, 7), enemy(3, Side::West, -4, 8)];
    let mut castle = Castle::new();
    enemy_death(&mut enemies, &mut castle);
    assert_eq!(castle.exp, 13);
    assert_eq!(enemies.len(), 1);
    assert_eq!(enemies[0].id, 2);
}

#[test]
fn crit_uses_base_damage_times_crit_bonus() {
    let mut c = Crossbow::new();
    c.crit_chance = 1000;
    let targets = vec![Target { id: 4, pos: Point { x: 0, y: 100 } }];
    for roll in [0u32, 500, 999] {
        let mut c = c;
        let shot = c
            .crossbow_attack(&CrossbowBuffs::new(), &GlobalWeaponBuffs::new(), Point { x: 0, y: 0 }, &targets, 1000, roll)
            .expect("a target in range");
        assert_eq!(shot.projectile.damage, 40);
        assert!(shot.projectile.was_crit);
    }
}

#[test]
fn crit_is_not_compounded_with_damage_buffs() {
    let c = Crossbow::new();
    let s = CrossbowBuffs { damage: 500, damage_flat: 10, crit_damage: 0, crit_chance: 0, range: 0, attack_speed: 0, arrow_speed: 0 };
    let g = GlobalWeaponBuffs { damage: 0, damage_flat: 0, crit_damage: 500, crit_chance: 0 };
    assert_eq!(c.with_buffs(&s, &g).damage, 45); // (20 + 10) * 1.5
    assert_eq!(c.crit_damage(&s, &g), 50); // 20 * (1 + 1.0 + 0.5)
}

#[test]
fn crossbow_buffs_raise_range_and_interval() {
    let c = Crossbow::new();
    let s = CrossbowBuffs { damage: 0, damage_flat: 0, crit_damage: 0, crit_chance: 20, range: 100, attack_speed: 250, arrow_speed: 100 };
    let e = c.with_buffs(&s, &GlobalWeaponBuffs::new());
    assert_eq!(e.range, 550);
    assert_eq!(e.attack_timer.duration, 1250);
    assert_eq!(e.arrow_speed, 220);
    assert_eq!(e.crit_chance, 70);
}

#[test]
fn crossbow_misses_without_target_in_range_and_restarts() {
    let mut c = Crossbow::new();
    let far = vec![Target { id: 1, pos: Point { x: 501, y: 0 } }];
    let r = c.crossbow_attack(&CrossbowBuffs::new(), &GlobalWeaponBuffs::new(), Point { x: 0, y: 0 }, &far, 1000, 999);
    assert_eq!(r, None);
    assert_eq!(c.attack_timer.elapsed, 0);
    assert!(!c.attack_timer.finished);
}

#[test]
fn nearest_target_is_chosen() {
    let targets = vec![
        Target { id: 1, pos: Point { x: 300, y: 0 } },
        Target { id: 2, pos: Point { x: 0, y: -120 } },
        Target { id: 3, pos: Point { x: 90, y: 90 } },
    ];
    assert_eq!(nearest_in_range(Point { x: 0, y: 0 }, &targets, 500), Some(1));
    assert_eq!(nearest_in_range(Point { x: 0, y: 0 }, &targets, 100), None);
    assert_eq!(nearest_in_range(Point { x: 0, y: 0 }, &targets, 120), Some(1));
    assert_eq!(nearest_in_range(Point { x: 0, y: 0 }, &vec![], 120), None);
}

#[test]
fn one_shot_kills_adjacent_enemy_and_rewards_castle() {
    let mut enemies = vec![enemy(1, Side::North, 10, 5)];
    let reward = enemies[0].exp;
    let mut castle = Castle::new();
    let mut c = Crossbow::new();
    c.damage = 15;
    c.crit_chance = 0;
    let targets = vec![Target { id: 1, pos: Point { x: 0, y: 10 } }];
    let shot = c
        .crossbow_attack(&CrossbowBuffs::new(), &GlobalWeaponBuffs::new(), Point { x: 0, y: 0 }, &targets, 1000, 0)
        .expect("enemy in range");
    assert_eq!(shot.target, 1);
    let mut bolt = shot.projectile;
    let hit = match bolt.projectile_update(16, &vec![shot.target]) {
        ProjectileStep::Hit(ev) => ev,
        other => panic!("expected a hit, got {:?}", other),
    };
    assert_eq!(hit, EnemyDamageEvent::new(1, 15, false));
    damage_enemy(&mut enemies, &vec![hit]);
    assert!(enemies[0].health <= 0);
    enemy_death(&mut enemies, &mut castle);
    assert_eq!(castle.exp, reward);
    assert!(enemies.is_empty());
}

#[test]
fn bolt_expires_after_its_lifespan() {
    let mut c = Crossbow::new();
    let targets = vec![Target { id: 1, pos: Point { x: 0, y: 10 } }];
    let shot = c
        .crossbow_attack(&CrossbowBuffs::new(), &GlobalWeaponBuffs::new(), Point { x: 0, y: 0 }, &targets, 1000, 999)
        .expect("enemy in range");
    let mut bolt = shot.projectile;
    assert_eq!(bolt.projectile_update(9_999, &vec![]), ProjectileStep::Flying);
    assert_eq!(bolt.projectile_update(1, &vec![1]), ProjectileStep::Expired);
}

#[test]
fn area_hits_everything_in_it_on_its_cadence() {
    let mut a = DamageArea::new(20, 10, 25, 300, 500, 2000);
    assert_eq!(a.damage_area_update(400, &vec![1, 2], &vec![0, 0]), AreaStep::Active(vec![]));
    let step = a.damage_area_update(100, &vec![1, 2], &vec![299, 300]);
    assert_eq!(
        step,
        AreaStep::Active(vec![EnemyDamageEvent::new(1, 25, true), EnemyDamageEvent::new(2, 10, false)])
    );
    assert_eq!(a.damage_area_update(1500, &vec![1], &vec![0]), AreaStep::Expired);
}

#[test]
fn molotov_throws_into_its_cone() {
    let mut m = Molotov::new();
    let s = MolotovBuffs { damage: 0, damage_flat: 5, crit_damage: 500, crit_chance: 100, area_size: 500, attack_speed: 0, area_attack_speed: 0, area_lifespan: 1000 };
    let none = m.molotov_attack(&s, &GlobalWeaponBuffs::new(), Side::North, Point { x: 0, y: 100 }, 12, 3000, 112, 20);
    assert_eq!(none, None);
    let bottle: MolotovBottle = m
        .molotov_attack(&s, &GlobalWeaponBuffs::new(), Side::North, Point { x: 0, y: 100 }, 12, 333, 112, 20)
        .expect("cadence fired");
    assert_eq!(bottle.target, Point { x: -20, y: 212 });
    assert_eq!(bottle.area.damage, 15);
    assert_eq!(bottle.area.crit_damage, 15);
    assert_eq!(bottle.area.size, 30);
    assert_eq!(bottle.area.crit_chance, 100);
    assert_eq!(bottle.area.lifespan.duration, 4000);
    let mut b = bottle;
    assert!(!b.molotov_bottle_update(1999));
    assert!(b.molotov_bottle_update(1));
}

#[test]
fn random_throws_and_crit_rolls_stay_in_bounds() {
    let mut rng = rand::thread_rng();
    let mut rolls = Vec::new();
    let mut throws = Vec::new();
    for _ in 0..200 {
        let (f, l) = roll_throw(&mut rng, 30, 300, 12);
        assert!(is_throw_ok(30, 300, 12, f, l));
        let dist = ((f * f + l * l) as f64).sqrt() - 12.0;
        assert!((30.0..=300.0).contains(&dist), "distance {dist}");
        assert!((l as f64).atan2(f as f64).abs() <= 30f64.to_radians() + 1e-9);
        throws.push((f, l));
        let r = roll_crit(&mut rng);
        assert!(r < 1000);
        rolls.push(r);
    }
    assert!(rolls.iter().any(|&r| r != rolls[0]));
    assert!(throws.iter().any(|&t| t != throws[0]));
}

#[test]
fn throws_outside_cone_or_reach_are_refused() {
    // the draw that used to land 345 beyond the wall face
    assert!(!is_throw_ok(30, 300, 12, 312, 173));
    assert!(is_throw_ok(30, 300, 12, 312, 0));
    assert!(!is_throw_ok(30, 300, 12, 313, 0));
    assert!(!is_throw_ok(30, 300, 12, 41, 0));
    assert!(is_throw_ok(30, 300, 12, 42, 0));
    // within 30 degrees: three times the square of the offset at most the square of the distance ahead
    assert!(!is_throw_ok(30, 300, 12, 100, 58));
    assert!(is_throw_ok(30, 300, 12, 100, 57));
    assert!(!is_throw_ok(30, 300, 12, -100, 0));
}

#[test]
fn game_spawns_after_the_cadence() {
    let mut g = Game::new(genereate_upgrades());
    let mut rng = rand::thread_rng();
    assert!(g.progress_spawns(4_999, &mut rng).is_empty());
    let spawned = g.progress_spawns(1, &mut rng);
    // stage one: bats (five a group) and goblins (three) on each side
    assert_eq!(spawned.len(), 4 * (5 + 3));
    assert_eq!(g.enemies.len(), spawned.len());
    assert_eq!(g.next_id, spawned.len() as u64);
    let distances: Vec<i64> = g.enemies.iter().map(|_| 1000).collect();
    let hits = g.enemy_attacks(&distances, 16);
    assert!(hits.is_empty());
}

#[test]
fn molotov_stats_with_buffs() {
    let m = Molotov::new();
    let s = MolotovBuffs { damage: 200, damage_flat: 10, crit_damage: 0, crit_chance: 0, area_size: 250, attack_speed: 100, area_attack_speed: 500, area_lifespan: 0 };
    let g = GlobalWeaponBuffs { damage: 300, damage_flat: 0, crit_damage: 0, crit_chance: 0 };
    let b = m.with_buffs(&s, &g);
    assert_eq!(b.damage, 30); // (10 + 10) * 1.5
    assert_eq!(b.range, 300);
    assert_eq!(b.area_size, 25);
    assert_eq!(b.area_attack_speed, 3000);
    assert_eq!(b.area_lifespan, 2000);
    assert_eq!(b.attack_timer.duration, 3666);
}

#[test]
fn game_round_kills_and_levels() {
    let mut g = Game::new(genereate_upgrades());
    let mut rng = rand::thread_rng();
    let spawned = g.progress_spawns(5_000, &mut rng);
    assert!(!spawned.is_empty());
    let events: Vec<EnemyDamageEvent> = g.enemies.iter().map(|e| EnemyDamageEvent::new(e.id, 1_000, false)).collect();
    let reward: u64 = g.enemies.iter().map(|e| e.exp).sum();
    g.resolve_damage(&events, &vec![WallDamageEvent::new(Side::West, 30)]);
    assert!(g.enemies.iter().all(|e| e.health <= 0));
    assert_eq!(g.walls.west.health, 70);
    assert_eq!(g.walls.east.health, 100);
    g.enemy_death();
    assert!(g.enemies.is_empty());
    assert_eq!(g.castle.exp, reward);
    assert_eq!(g.castle_level_up(), reward >= 100);
}

#[test]
fn paused_game_spawns_nothing() {
    let mut g = Game::new(genereate_upgrades());
    let mut rng = rand::thread_rng();
    g.pause();
    let delta = g.sim_delta(60_000);
    assert_eq!(delta, 0);
    assert!(g.progress_spawns(delta, &mut rng).is_empty());
    assert_eq!(g.spawn_state, SpawnStateTimer::new());
    g.resume();
    assert!(!g.progress_spawns(g.sim_delta(5_000), &mut rng).is_empty());
}

#[test]
fn end_frame_rewards_the_kill_before_checking_the_level() {
    let mut g = Game::new(genereate_upgrades());
    g.castle.gain_exp(98);
    g.enemies.push(enemy(0, Side::North, 10, 5));
    g.next_id = 1;
    let state = g.end_frame(&vec![EnemyDamageEvent::new(0, 15, false)], &vec![WallDamageEvent::new(Side::East, 5)]);
    assert_eq!(state, mind_your_sides::game::GameState::LevelUp);
    assert!(g.enemies.is_empty());
    assert_eq!(g.castle.level, 1);
    assert_eq!(g.castle.exp, 3);
    assert_eq!(g.walls.east.health, 95);
}

#[test]
fn end_frame_breach_ends_the_run_before_levelling() {
    let mut g = Game::new(genereate_upgrades());
    g.castle.gain_exp(150);
    let state = g.end_frame(&vec![], &vec![WallDamageEvent::new(Side::South, 100)]);
    assert_eq!(state, mind_your_sides::game::GameState::GameOver);
    assert_eq!(g.castle.level, 0);
    assert_eq!(g.castle.exp, 150);
}
