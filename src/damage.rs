use vstd::prelude::*;

use crate::castle::CastleWall;
use crate::enemies::Enemy;
use crate::side::Side;

verus! {

/// A hit on one enemy, by id.
#[derive(Debug, Clone, Copy, PartialEq, Eq, Structural)]
pub struct EnemyDamageEvent {
    pub target: u64,
    pub damage: u32,
    pub was_crit: bool,
}

impl EnemyDamageEvent {
    pub fn new(target: u64, damage: u32, was_crit: bool) -> (r: Self)
        ensures
            r == (EnemyDamageEvent { target, damage, was_crit }),
    {
        EnemyDamageEvent { target, damage, was_crit }
    }
}

/// A hit on the wall of a side.
#[derive(Debug, Clone, Copy, PartialEq, Eq, Structural)]
pub struct WallDamageEvent {
    pub side: Side,
    pub damage: u32,
}

impl WallDamageEvent {
    pub fn new(side: Side, damage: u32) -> (r: Self)
        ensures
            r == (WallDamageEvent { side, damage }),
    {
        WallDamageEvent { side, damage }
    }
}

/// `h - d`, held to `i64::MIN`.
pub open spec fn sub_capped(h: i64, d: nat) -> i64 {
    if h - d < i64::MIN {
        i64::MIN
    } else {
        (h - d) as i64
    }
}

/// The total damage that `events` deal to the enemy `id`.
pub open spec fn damage_to(events: Seq<EnemyDamageEvent>, id: u64) -> nat
    decreases events.len(),
{
    if events.len() == 0 {
        0
    } else if events.last().target == id {
        (damage_to(events.drop_last(), id) + events.last().damage) as nat
    } else {
        damage_to(events.drop_last(), id)
    }
}

/// The total damage of `events` on the wall of `side`.
pub open spec fn wall_damage(events: Seq<WallDamageEvent>, side: Side) -> nat
    decreases events.len(),
{
    if events.len() == 0 {
        0
    } else if events.last().side == side {
        (wall_damage(events.drop_last(), side) + events.last().damage) as nat
    } else {
        wall_damage(events.drop_last(), side)
    }
}

pub open spec fn ids_unique(s: Seq<Enemy>) -> bool {
    forall|i: int, j: int| 0 <= i < s.len() && 0 <= j < s.len() && i != j ==> s[i].id != s[j].id
}

proof fn lemma_sub_capped_twice(h: i64, a: nat, b: nat)
    ensures
        sub_capped(sub_capped(h, a), b) == sub_capped(h, a + b),
{
}

/// The position of the enemy `id`, if it is still there.
pub fn find_enemy(enemies: &Vec<Enemy>, id: u64) -> (r: Option<usize>)
    ensures
        match r {
            Some(i) => i < enemies@.len() && enemies@[i as int].id == id,
            None => forall|j: int| 0 <= j < enemies@.len() ==> enemies@[j].id != id,
        },
{
    let mut i: usize = 0;
    while i < enemies.len()
        invariant
            i <= enemies@.len(),
            forall|j: int| 0 <= j < i ==> enemies@[j].id != id,
        decreases enemies@.len() - i,
    {
        if enemies[i].id == id {
            return Some(i);
        }
        i = i + 1;
    }
    None
}

/// Applies every hit to its target, if the target is still there; health is
/// not held at zero here (the death sweep comes after).
pub fn damage_enemy(enemies: &mut Vec<Enemy>, events: &Vec<EnemyDamageEvent>)
    requires
        ids_unique(old(enemies)@),
    ensures
        final(enemies)@.len() == old(enemies)@.len(),
        forall|j: int|
            0 <= j < final(enemies)@.len() ==> #[trigger] final(enemies)@[j] == (Enemy {
                health: sub_capped(old(enemies)@[j].health, damage_to(events@, old(enemies)@[j].id)),
                ..old(enemies)@[j]
            }),
{
    let ghost start = enemies@;
    let mut k: usize = 0;
    while k < events.len()
        invariant
            k <= events@.len(),
            enemies@.len() == start.len(),
            ids_unique(start),
            forall|j: int|
                0 <= j < enemies@.len() ==> #[trigger] enemies@[j] == (Enemy {
                    health: sub_capped(start[j].health, damage_to(events@.subrange(0, k as int), start[j].id)),
                    ..start[j]
                }),
        decreases events@.len() - k,
    {
        let ev = events[k];
        proof {
            assert(events@.subrange(0, k as int + 1).drop_last() =~= events@.subrange(0, k as int));
        }
        match find_enemy(enemies, ev.target) {
            Some(i) => {
                let mut e = enemies[i];
                let h = e.health;
                e.health = if h < i64::MIN + ev.damage as i64 {
                    i64::MIN
                } else {
                    h - ev.damage as i64
                };
                enemies.set(i, e);
                proof {
                    assert forall|j: int| 0 <= j < enemies@.len() implies #[trigger] enemies@[j] == (Enemy {
                        health: sub_capped(start[j].health, damage_to(events@.subrange(0, k as int + 1), start[j].id)),
                        ..start[j]
                    }) by {
                        lemma_sub_capped_twice(
                            start[j].health,
                            damage_to(events@.subrange(0, k as int), start[j].id),
                            ev.damage as nat,
                        );
                    }
                }
            },
            None => {},
        }
        k = k + 1;
    }
    proof {
        assert(events@.subrange(0, events@.len() as int) =~= events@);
    }
}

/// Applies the hits on the wall of `side` to it; health is not held at zero.
pub fn damage_wall(side: Side, wall: &mut CastleWall, events: &Vec<WallDamageEvent>)
    requires
        old(wall).wf(),
    ensures
        final(wall).wf(),
        *final(wall) == (CastleWall { health: sub_capped(old(wall).health, wall_damage(events@, side)), ..*old(wall) }),
{
    let mut k: usize = 0;
    while k < events.len()
        invariant
            k <= events@.len(),
            wall.wf(),
            *wall == (CastleWall {
                health: sub_capped(old(wall).health, wall_damage(events@.subrange(0, k as int), side)),
                ..*old(wall)
            }),
        decreases events@.len() - k,
    {
        proof {
            assert(events@.subrange(0, k as int + 1).drop_last() =~= events@.subrange(0, k as int));
            lemma_sub_capped_twice(old(wall).health, wall_damage(events@.subrange(0, k as int), side), events@[k as int].damage as nat);
        }
        if events[k].side == side {
            wall.take_damage(events[k].damage);
        }
        k = k + 1;
    }
    proof {
        assert(events@.subrange(0, events@.len() as int) =~= events@);
    }
}

} // verus!
