//! Combat and progression rules of a castle defence game: four walls, one per
//! side, each with a crossbow and a molotov, hold off waves of enemies; kills
//! level the castle up, and each level-up offers four randomly drawn upgrades
//! whose effects add up in the buff state of the run.
//!
//! Time is counted in milliseconds, percentages in tenths of a percent and
//! positions in whole units of the field.

pub mod buffs;
pub mod castle;
pub mod damage;
pub mod enemies;
pub mod game;
mod rng;
pub mod side;
pub mod timer;
pub mod upgrades;
pub mod weapons;
