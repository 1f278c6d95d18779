use beast_battle::types::BeastType;

fn all_types() -> Vec<BeastType> {
    vec![
        BeastType::Basic,
        BeastType::Earth,
        BeastType::Wind,
        BeastType::Fire,
        BeastType::Water,
    ]
}

#[test]
fn basic_attacker_always_nine_tenths() {
    for defender in all_types() {
        assert_eq!(defender.modifier_when_receiving(BeastType::Basic), 9);
    }
}

#[test]
fn matchup_table_all_pairs() {
    // Expected multipliers in tenths, rows by defender, columns by
    // attacker, both in the order Basic, Earth, Wind, Fire, Water.
    let expected: [[u64; 5]; 5] = [
        [9, 10, 10, 10, 10],
        [9, 10, 5, 20, 10],
        [9, 20, 10, 5, 10],
        [9, 5, 20, 10, 10],
        [9, 10, 10, 10, 10],
    ];
    let types = all_types();
    for (i, defender) in types.iter().enumerate() {
        for (j, attacker) in types.iter().enumerate() {
            assert_eq!(
                defender.modifier_when_receiving(*attacker),
                expected[i][j],
                "defender {:?} vs attacker {:?}",
                defender,
                attacker
            );
        }
    }
}

#[test]
fn matchup_table_is_deterministic() {
    for defender in all_types() {
        for attacker in all_types() {
            let first = defender.modifier_when_receiving(attacker);
            let second = defender.modifier_when_receiving(attacker);
            assert_eq!(first, second);
        }
    }
}

#[test]
fn matchup_table_is_not_symmetric() {
    assert_eq!(BeastType::Earth.modifier_when_receiving(BeastType::Wind), 5);
    assert_eq!(BeastType::Wind.modifier_when_receiving(BeastType::Earth), 20);
}
