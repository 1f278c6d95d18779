//! Combat resolution and menu-flow core of a turn-based creature battler.
//!
//! The library decides what choices a battle menu offers, how an attack
//! selection maps to a damage calculation through an elemental type matchup
//! table, and how a combatant's health evolves, including defeat.
//!
//! All quantities are integers. Damage multipliers are expressed in tenths
//! of a unit (a multiplier of `9` means 0.9 times the raw strength), so the
//! matchup rules stay exact and every computation is proved free of overflow.

pub mod attack;
pub mod battle;
pub mod beast;
pub mod types;
