use beast_battle::attack::BeastAttack;
use beast_battle::beast::Beast;
use beast_battle::beast::HealthChangeOutcome;
use beast_battle::types::BeastType;

fn fresh_beast(max_health: u32) -> Beast {
    let mut b = Beast::new(
        String::from("Terra"),
        BeastType::Earth,
        max_health,
        Vec::new(),
    );
    b.activate();
    b
}

#[test]
fn activation_sets_full_health() {
    let b = fresh_beast(100);
    assert_eq!(b.health, 100);
    assert_eq!(b.max_health, 100);
    assert!(!b.defeated);
}

#[test]
fn health_stays_bounded_after_any_sequence() {
    let mut b = fresh_beast(100);
    let deltas: Vec<i64> = vec![-30, 1000, -50, -10, 5, -100, 7, i64::MAX, i64::MIN, 3];
    for delta in deltas {
        b.change_health(delta);
        assert!(b.health <= b.max_health, "after {}", delta);
    }
}

#[test]
fn overkill_defeats_and_reports_death_once() {
    let mut b = fresh_beast(100);
    let outcome = b.change_health(-101);
    assert_eq!(outcome, HealthChangeOutcome::Died);
    assert_eq!(b.health, 0);
    assert!(b.defeated);
    // Further changes are rejected; death is never reported twice.
    assert_eq!(b.change_health(-5), HealthChangeOutcome::Rejected);
    assert_eq!(b.change_health(50), HealthChangeOutcome::Rejected);
    assert_eq!(b.health, 0);
}

#[test]
fn exact_lethal_damage_defeats() {
    let mut b = fresh_beast(100);
    assert_eq!(b.change_health(-100), HealthChangeOutcome::Died);
    assert_eq!(b.health, 0);
}

#[test]
fn huge_heal_clamps_to_exactly_max_health() {
    let mut b = fresh_beast(100);
    assert_eq!(b.change_health(-40), HealthChangeOutcome::Changed);
    assert_eq!(b.health, 60);
    assert_eq!(b.change_health(i64::MAX), HealthChangeOutcome::Changed);
    assert_eq!(b.health, 100);
}

#[test]
fn small_heal_beyond_max_clamps_too() {
    let mut b = fresh_beast(100);
    b.change_health(-1);
    assert_eq!(b.health, 99);
    b.change_health(2);
    assert_eq!(b.health, 100);
}

#[test]
fn damage_scales_strength_by_tenths() {
    // A Basic attack is weakened to 0.9: strength 20 deals 18.
    let basic = BeastAttack::new(String::from("Tackle"), BeastType::Basic, 20);
    assert_eq!(basic.damage_to(BeastType::Water), 18);
    // A neutral pair keeps the raw strength.
    let water = BeastAttack::new(String::from("Splash"), BeastType::Water, 20);
    assert_eq!(water.damage_to(BeastType::Earth), 20);
    // Scaling rounds toward zero.
    let weak = BeastAttack::new(String::from("Gust"), BeastType::Wind, 15);
    assert_eq!(weak.damage_to(BeastType::Earth), 7);
}
