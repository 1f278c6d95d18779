//! Attacks: immutable data records read at battle time.

use vstd::prelude::*;
use crate::types::BeastType;
use crate::types::modifier_tenths;

verus! {

/// An immutable attack record: a display name, an elemental type, and a
/// base strength. Authored as shared configuration data before battle
/// start; never mutated afterwards.
#[derive(Debug)]
pub struct BeastAttack {
    pub name: String,
    pub element: BeastType,
    pub strength: u32,
}

/// The damage an attack of the given raw strength deals through a matchup
/// multiplier of `tenths` tenths of a unit. The product is scaled back to
/// whole units, rounding toward zero.
pub open spec fn damage_of(strength: int, tenths: int) -> int {
    strength * tenths / (crate::types::TENTHS_PER_UNIT as int)
}

impl Clone for BeastAttack {
    /// A clone is equal to the record it was made from.
    fn clone(&self) -> (res: Self)
        ensures
            res == *self,
    {
        BeastAttack { name: self.name.clone(), element: self.element, strength: self.strength }
    }
}

impl BeastAttack {
    pub fn new(name: String, element: BeastType, strength: u32) -> (a: BeastAttack)
        ensures
            a.name == name,
            a.element == element,
            a.strength == strength,
    {
        BeastAttack { name, element, strength }
    }

    /// The damage this attack deals to a defender of type `defender`:
    /// raw strength times the matchup multiplier.
    pub fn damage_to(&self, defender: BeastType) -> (d: u64)
        ensures
            d == damage_of(self.strength as int, modifier_tenths(defender, self.element)),
    {
        let tenths: u64 = defender.modifier_when_receiving(self.element);
        proof {
            // The multiplier is at most 20 tenths, so the product fits in u64.
            crate::types::lemma_matchup_table_total(defender, self.element);
        }
        (self.strength as u64) * tenths / crate::types::TENTHS_PER_UNIT
    }
}

} // verus!
