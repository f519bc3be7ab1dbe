use genshin_roles::condition::{ConditionField, ConditionOperator};

const FIELDS: [ConditionField; 9] = [
    ConditionField::Level,
    ConditionField::WorldLevel,
    ConditionField::FinishAchievementNum,
    ConditionField::SpiralAbyss,
    ConditionField::TowerStarIndex,
    ConditionField::FetterCount,
    ConditionField::Region,
    ConditionField::HasAvatar,
    ConditionField::HasNameCard,
];

const OPERATORS: [ConditionOperator; 6] = [
    ConditionOperator::Eq,
    ConditionOperator::Gt,
    ConditionOperator::Gte,
    ConditionOperator::Lt,
    ConditionOperator::Lte,
    ConditionOperator::Between,
];

#[test]
fn field_keys_round_trip() {
    for f in FIELDS {
        assert_eq!(ConditionField::from_key(f.json_key()), Some(f));
    }
    assert_eq!(ConditionField::from_key("Level"), None);
    assert_eq!(ConditionField::from_key(""), None);
}

#[test]
fn operator_keys_round_trip() {
    for o in OPERATORS {
        assert_eq!(ConditionOperator::from_key(o.key()), Some(o));
    }
    assert_eq!(ConditionOperator::from_key("ge"), None);
}

#[test]
fn field_spellings() {
    assert_eq!(ConditionField::FinishAchievementNum.json_key(), "finishAchievementNum");
    assert_eq!(ConditionField::SpiralAbyss.sql_column(), Some("pc.abyss_progress"));
    assert_eq!(ConditionField::TowerStarIndex.sql_column(), Some("pc.abyss_stars"));
    assert_eq!(ConditionField::HasAvatar.sql_column(), None);
    assert!(ConditionField::Level.is_numeric());
    assert!(ConditionField::FetterCount.is_numeric());
    assert!(!ConditionField::SpiralAbyss.is_numeric());
    assert!(!ConditionField::Region.is_numeric());
}

#[test]
fn operator_spellings() {
    assert_eq!(ConditionOperator::Gte.sql_operator(), ">=");
    assert_eq!(ConditionOperator::Between.sql_operator(), "BETWEEN");
    assert_eq!(ConditionOperator::Between.key(), "between");
    assert_eq!(ConditionOperator::Lte.key(), "lte");
}
