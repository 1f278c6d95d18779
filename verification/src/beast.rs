//! Combatants: health, elemental type, and defeat signaling.

use vstd::prelude::*;
use crate::attack::BeastAttack;
use crate::types::BeastType;

verus! {

/// What a health change reports back, so the caller can forward the right
/// notifications: a health-changed notification for `Changed` and `Died`,
/// and additionally the one-time defeat notification for `Died`.
#[derive(Clone, Copy, PartialEq, Eq, Structural, Debug)]
pub enum HealthChangeOutcome {
    /// The combatant was already defeated; the call changed nothing.
    Rejected,
    /// Health moved (or was clamped) and the combatant is still standing.
    Changed,
    /// Health reached zero on this call: the combatant is now defeated.
    Died,
}

/// A combatant. Its health always stays between 0 and `max_health`, and a
/// defeated combatant stays at 0 health and rejects further changes.
pub struct Beast {
    pub name: String,
    pub element: BeastType,
    pub max_health: u32,
    pub attacks: Vec<BeastAttack>,
    pub health: u32,
    pub defeated: bool,
}

impl Beast {
    /// Well-formedness: positive maximum, health within bounds, and a
    /// defeated combatant is exactly at zero health.
    pub open spec fn wf(self) -> bool {
        &&& self.max_health > 0
        &&& self.health <= self.max_health
        &&& self.defeated ==> self.health == 0
    }

    /// A freshly configured combatant: health stays at zero until the
    /// battle activates it.
    pub fn new(name: String, element: BeastType, max_health: u32, attacks: Vec<BeastAttack>) -> (b:
        Beast)
        requires
            max_health > 0,
        ensures
            b.wf(),
            b.name == name,
            b.element == element,
            b.max_health == max_health,
            b.attacks == attacks,
            b.health == 0,
            !b.defeated,
    {
        Beast { name, element, max_health, attacks, health: 0, defeated: false }
    }

    /// Activation at battle start: health is set to the maximum. Runs once
    /// before any damage is applied; the caller then announces the new
    /// health to whoever displays it.
    pub fn activate(&mut self)
        requires
            old(self).wf(),
        ensures
            final(self).wf(),
            final(self).health == old(self).max_health,
            !final(self).defeated,
            final(self).name == old(self).name,
            final(self).element == old(self).element,
            final(self).max_health == old(self).max_health,
            final(self).attacks == old(self).attacks,
    {
        self.health = self.max_health;
        self.defeated = false;
    }

    /// The combatant after a health change of `amount` (negative for
    /// damage, positive for healing): no change at all if it was already
    /// defeated, otherwise health moves by `amount` and is clamped into
    /// `[0, max_health]`; reaching 0 defeats the combatant.
    pub open spec fn change_health_spec(self, amount: int) -> Beast {
        if self.defeated {
            self
        } else {
            let target = self.health + amount;
            if target >= self.max_health {
                Beast { health: self.max_health, ..self }
            } else if target <= 0 {
                Beast { health: 0, defeated: true, ..self }
            } else {
                Beast { health: target as u32, ..self }
            }
        }
    }

    /// What a health change of `amount` reports: `Rejected` on an already
    /// defeated combatant, `Died` exactly when this change brings health
    /// down to zero, `Changed` otherwise.
    pub open spec fn change_health_outcome_spec(self, amount: int) -> HealthChangeOutcome {
        if self.defeated {
            HealthChangeOutcome::Rejected
        } else if self.health + amount <= 0 {
            HealthChangeOutcome::Died
        } else {
            HealthChangeOutcome::Changed
        }
    }

    /// Move health by `amount` (negative for damage, positive for healing),
    /// clamped into `[0, max_health]`. On a combatant that is already
    /// defeated this is a rejected no-op; otherwise the outcome says
    /// whether this very call defeated the combatant, so that the defeat
    /// notification fires exactly once.
    pub fn change_health(&mut self, amount: i64) -> (outcome: HealthChangeOutcome)
        requires
            old(self).wf(),
        ensures
            final(self).wf(),
            *final(self) == old(self).change_health_spec(amount as int),
            outcome == old(self).change_health_outcome_spec(amount as int),
    {
        if self.defeated {
            return HealthChangeOutcome::Rejected;
        }
        let max: i64 = self.max_health as i64;
        let target: i64 = if amount >= max {
            // health is nonnegative, so the sum would only clamp to the
            // maximum anyway; this branch keeps the addition in bounds for
            // arbitrarily large healing amounts.
            max
        } else {
            self.health as i64 + amount
        };
        if target >= max {
            self.health = self.max_health;
            HealthChangeOutcome::Changed
        } else if target <= 0 {
            self.health = 0;
            self.defeated = true;
            HealthChangeOutcome::Died
        } else {
            self.health = target as u32;
            HealthChangeOutcome::Changed
        }
    }
}

/// The combatant reached by a sequence of health changes, applied first to
/// last.
pub open spec fn change_health_seq(b: Beast, amounts: Seq<int>) -> Beast
    decreases amounts.len(),
{
    if amounts.len() == 0 {
        b
    } else {
        change_health_seq(b.change_health_spec(amounts[0]), amounts.drop_first())
    }
}

/// One health change keeps a combatant well formed; in particular its
/// health stays between 0 and `max_health`.
pub proof fn lemma_change_health_keeps_wf(b: Beast, amount: int)
    requires
        b.wf(),
    ensures
        b.change_health_spec(amount).wf(),
        0 <= b.change_health_spec(amount).health <= b.change_health_spec(amount).max_health,
{
}

/// After any sequence of health changes, a well-formed combatant is still
/// well formed: `0 <= health <= max_health` holds at every observation
/// point.
pub proof fn lemma_health_bounded_after_any_sequence(b: Beast, amounts: Seq<int>)
    requires
        b.wf(),
    ensures
        change_health_seq(b, amounts).wf(),
        0 <= change_health_seq(b, amounts).health <= change_health_seq(b, amounts).max_health,
    decreases amounts.len(),
{
    if amounts.len() > 0 {
        lemma_change_health_keeps_wf(b, amounts[0]);
        lemma_health_bounded_after_any_sequence(b.change_health_spec(amounts[0]), amounts.drop_first());
    }
}

/// Defeat is reported exactly once: a health change that reports `Died`
/// leaves the combatant defeated, and every later change is rejected and
/// never reports `Died` again.
pub proof fn lemma_defeat_reported_once(b: Beast, first: int, second: int)
    requires
        b.wf(),
        b.change_health_outcome_spec(first) == HealthChangeOutcome::Died,
    ensures
        b.change_health_spec(first).defeated,
        b.change_health_spec(first).change_health_outcome_spec(second)
            == HealthChangeOutcome::Rejected,
        b.change_health_spec(first).change_health_spec(second) == b.change_health_spec(first),
{
}

/// Healing clamps to exactly `max_health`, never above: any change that
/// would push health to the maximum or beyond lands exactly on it.
pub proof fn lemma_heal_clamps_to_max(b: Beast, amount: int)
    requires
        b.wf(),
        !b.defeated,
        b.health + amount >= b.max_health,
    ensures
        b.change_health_spec(amount).health == b.max_health,
{
}

} // verus!
