//! Elemental types and the damage-multiplier matchup table.

use vstd::prelude::*;

verus! {

/// One multiplier unit is ten tenths: multipliers returned by the matchup
/// table are given in tenths of a unit, so that 9 stands for 0.9 times the
/// raw strength, 20 for 2.0 times, and so on.
pub const TENTHS_PER_UNIT: u64 = 10;

/// The closed set of elemental categories. Every combatant and every attack
/// carries exactly one of these.
#[derive(Clone, Copy, PartialEq, Eq, Structural, Debug)]
pub enum BeastType {
    Basic,
    Earth,
    Wind,
    Fire,
    Water,
}

/// The matchup table: the damage multiplier, in tenths of a unit, that a
/// defender of type `defender` receives from an attack of type `attacker`.
///
/// An attacker of type `Basic` always yields 9 (0.9), checked before any
/// other rule. Every pair not listed, including every pair with `Water` as
/// the attacker and every pair of identical types, defaults to 10 (neutral).
/// The table is intentionally not symmetric: Earth defending against Wind
/// gives 5, while Wind defending against Earth gives 20.
pub open spec fn modifier_tenths(defender: BeastType, attacker: BeastType) -> int {
    match (defender, attacker) {
        (_, BeastType::Basic) => 9,
        (BeastType::Earth, BeastType::Wind) => 5,
        (BeastType::Earth, BeastType::Fire) => 20,
        (BeastType::Wind, BeastType::Fire) => 5,
        (BeastType::Wind, BeastType::Earth) => 20,
        (BeastType::Fire, BeastType::Earth) => 5,
        (BeastType::Fire, BeastType::Wind) => 20,
        _ => 10,
    }
}

impl BeastType {
    /// The damage multiplier, in tenths of a unit, that a defender of this
    /// type receives from an attack of type `attacker`.
    pub fn modifier_when_receiving(&self, attacker: BeastType) -> (m: u64)
        ensures
            m == modifier_tenths(*self, attacker),
    {
        match (self, attacker) {
            (_, BeastType::Basic) => 9,
            (BeastType::Earth, BeastType::Wind) => 5,
            (BeastType::Earth, BeastType::Fire) => 20,
            (BeastType::Wind, BeastType::Fire) => 5,
            (BeastType::Wind, BeastType::Earth) => 20,
            (BeastType::Fire, BeastType::Earth) => 5,
            (BeastType::Fire, BeastType::Wind) => 20,
            _ => 10,
        }
    }
}

/// A `Basic` attacker is slightly weakened against every defender: the
/// multiplier is 9 tenths (0.9), whatever the defender's type.
pub proof fn lemma_basic_attacker_always_nine_tenths(defender: BeastType)
    ensures
        modifier_tenths(defender, BeastType::Basic) == 9,
{
}

/// The matchup table is total: every pair of types yields one definite
/// multiplier, and it is always one of 5, 9, 10 or 20 tenths.
pub proof fn lemma_matchup_table_total(defender: BeastType, attacker: BeastType)
    ensures
        modifier_tenths(defender, attacker) == 5 || modifier_tenths(defender, attacker) == 9
            || modifier_tenths(defender, attacker) == 10 || modifier_tenths(defender, attacker)
            == 20,
{
}

} // verus!
