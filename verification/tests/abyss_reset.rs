use genshin_roles::condition::{Condition, ConditionField, ConditionOperator};
use genshin_roles::condition_eval::{evaluate_conditions_at, last_abyss_reset_at};
use genshin_roles::json::JsonValue;
use genshin_roles::player::PlayerInfo;

#[test]
fn na_reset_on_the_sixteenth_at_nine_utc() {
    // 2024-01-20 12:00 UTC → 2024-01-16 09:00 UTC
    assert_eq!(last_abyss_reset_at("NA", 1705752000), 1705395600);
}

#[test]
fn eu_reset_before_first_of_month_uses_previous_sixteenth() {
    // 2024-01-01 05:00 UTC is after the EU reset of the 1st at 03:00 UTC
    assert_eq!(last_abyss_reset_at("EU", 1704085200), 1704078000);
    // 2024-03-01 02:00 UTC is before it → 2024-02-16 03:00 UTC
    assert_eq!(last_abyss_reset_at("EU", 1709258400), 1708052400);
}

#[test]
fn asia_reset_the_evening_before() {
    // 2024-01-10 00:00 UTC → 2023-12-31 20:00 UTC
    assert_eq!(last_abyss_reset_at("ASIA", 1704844800), 1704052800);
    // Any region other than NA and EU follows the UTC+8 schedule.
    assert_eq!(last_abyss_reset_at("TW", 1704844800), 1704052800);
}

#[test]
fn asia_month_end_takes_next_cycle_reset() {
    // 2024-01-31 21:00 UTC is after the reset of February 1st, 04:00 UTC+8.
    assert_eq!(last_abyss_reset_at("ASIA", 1706734800), 1706731200);
    // 2024-03-31 22:00 UTC → 2024-03-31 20:00 UTC (April 1st, server time).
    assert_eq!(last_abyss_reset_at("ASIA", 1711922400), 1711915200);
    // An hour before that reset, the mid-month one still stands.
    assert_eq!(last_abyss_reset_at("CN", 1711911600), 1710532800);
    // The western servers reset on the 1st itself.
    assert_eq!(last_abyss_reset_at("NA", 1711922400), 1710579600);
}

#[test]
fn clock_reset_is_case_insensitive() {
    let a = genshin_roles::condition_eval::last_abyss_reset_utc("na");
    let b = genshin_roles::condition_eval::last_abyss_reset_utc("NA");
    // The two calls read the clock separately; they agree unless a reset
    // falls between them.
    assert!(a == b || b > a);
}

#[test]
fn reset_is_never_after_now() {
    for now in [1705752000i64, 1704085200, 1709258400, 1704844800, 1706734800] {
        for region in ["NA", "EU", "ASIA", "CN"] {
            assert!(last_abyss_reset_at(region, now) <= now);
        }
    }
}

#[test]
fn freshness_gate_at_a_fixed_instant() {
    let player = PlayerInfo {
        fields: vec![
            ("towerFloorIndex".to_string(), JsonValue::Int(12)),
            ("towerLevelIndex".to_string(), JsonValue::Int(3)),
        ],
        show_avatar_info_list: None,
        show_name_card_id_list: None,
    };
    let c = Condition {
        field: ConditionField::SpiralAbyss,
        operator: ConditionOperator::Gte,
        value: JsonValue::Int(123),
        value_end: None,
        avatar_level: None,
        avatar_constellation: None,
    };
    let now = 1705752000; // 2024-01-20 12:00 UTC, last NA reset 2024-01-16 09:00 UTC
    let conds = [c];
    assert!(evaluate_conditions_at(&conds, &player, Some("na"), Some(1705395600), now));
    assert!(!evaluate_conditions_at(&conds, &player, Some("na"), Some(1705395599), now));
    // Without a region the NA schedule applies.
    assert!(evaluate_conditions_at(&conds, &player, None, Some(1705395600), now));
}
