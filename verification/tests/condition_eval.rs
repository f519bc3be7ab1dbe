use genshin_roles::condition::{Condition, ConditionField, ConditionOperator};
use genshin_roles::condition_eval::{evaluate_conditions, last_abyss_reset_utc};
use genshin_roles::json::JsonValue;
use genshin_roles::player::{JsonObject, PlayerInfo};

fn entry(key: &str, value: JsonValue) -> (String, JsonValue) {
    (key.to_string(), value)
}

fn sample_player_info() -> PlayerInfo {
    let avatars: Vec<JsonObject> = vec![
        vec![
            entry("avatarId", JsonValue::Int(10000021)),
            entry("level", JsonValue::Int(90)),
            entry("talentLevel", JsonValue::Int(2)),
        ],
        vec![entry("avatarId", JsonValue::Int(10000032)), entry("level", JsonValue::Int(80))],
    ];
    let cards = vec![JsonValue::Int(210051), JsonValue::Int(210087), JsonValue::Int(210018)];
    PlayerInfo {
        fields: vec![
            entry("nickname", JsonValue::Str("TestPlayer".to_string())),
            entry("level", JsonValue::Int(57)),
            entry("worldLevel", JsonValue::Int(8)),
            entry("finishAchievementNum", JsonValue::Int(458)),
            entry("towerFloorIndex", JsonValue::Int(12)),
            entry("towerLevelIndex", JsonValue::Int(3)),
            entry("towerStarIndex", JsonValue::Int(36)),
            entry("fetterCount", JsonValue::Int(13)),
            entry(
                "showAvatarInfoList",
                JsonValue::Composite(
                    "[{\"avatarId\":10000021,\"level\":90,\"talentLevel\":2},{\"avatarId\":10000032,\"level\":80}]"
                        .to_string(),
                ),
            ),
            entry("showNameCardIdList", JsonValue::Composite("[210051,210087,210018]".to_string())),
        ],
        show_avatar_info_list: Some(avatars),
        show_name_card_id_list: Some(cards),
    }
}

fn cond(field: ConditionField, operator: ConditionOperator, value: JsonValue) -> Condition {
    Condition { field, operator, value, value_end: None, avatar_level: None, avatar_constellation: None }
}

fn now_secs() -> i64 {
    chrono::Utc::now().timestamp()
}

fn old_date() -> i64 {
    chrono::DateTime::parse_from_rfc3339("2020-01-01T00:00:00Z").unwrap().timestamp()
}

#[test]
fn test_level_gte() {
    let conditions = vec![cond(ConditionField::Level, ConditionOperator::Gte, JsonValue::Int(50))];
    assert!(evaluate_conditions(&conditions, &sample_player_info(), Some("NA"), None));
}

#[test]
fn test_level_gte_fail() {
    let conditions = vec![cond(ConditionField::Level, ConditionOperator::Gte, JsonValue::Int(60))];
    assert!(!evaluate_conditions(&conditions, &sample_player_info(), Some("NA"), None));
}

#[test]
fn test_region_eq() {
    let conditions = vec![cond(ConditionField::Region, ConditionOperator::Eq, JsonValue::Str("NA".to_string()))];
    assert!(evaluate_conditions(&conditions, &sample_player_info(), Some("NA"), None));
    assert!(!evaluate_conditions(&conditions, &sample_player_info(), Some("EU"), None));
}

#[test]
fn test_has_avatar() {
    let conditions = vec![cond(ConditionField::HasAvatar, ConditionOperator::Eq, JsonValue::Int(10000021))];
    assert!(evaluate_conditions(&conditions, &sample_player_info(), None, None));
}

#[test]
fn test_has_avatar_missing() {
    let conditions = vec![cond(ConditionField::HasAvatar, ConditionOperator::Eq, JsonValue::Int(99999999))];
    assert!(!evaluate_conditions(&conditions, &sample_player_info(), None, None));
}

#[test]
fn test_has_namecard() {
    let conditions = vec![cond(ConditionField::HasNameCard, ConditionOperator::Eq, JsonValue::Int(210051))];
    assert!(evaluate_conditions(&conditions, &sample_player_info(), None, None));
}

#[test]
fn test_multiple_conditions_and() {
    let conditions = vec![
        cond(ConditionField::Level, ConditionOperator::Gte, JsonValue::Int(50)),
        cond(ConditionField::WorldLevel, ConditionOperator::Eq, JsonValue::Int(8)),
        cond(ConditionField::Region, ConditionOperator::Eq, JsonValue::Str("NA".to_string())),
    ];
    assert!(evaluate_conditions(&conditions, &sample_player_info(), Some("NA"), None));
}

#[test]
fn test_multiple_conditions_one_fails() {
    let conditions = vec![
        cond(ConditionField::Level, ConditionOperator::Gte, JsonValue::Int(50)),
        cond(ConditionField::Region, ConditionOperator::Eq, JsonValue::Str("EU".to_string())),
    ];
    assert!(!evaluate_conditions(&conditions, &sample_player_info(), Some("NA"), None));
}

#[test]
fn test_spiral_abyss_combined() {
    // Player has floor 12, chamber 3 → progress = 123
    let conditions = vec![cond(ConditionField::SpiralAbyss, ConditionOperator::Gte, JsonValue::Int(121))];
    // No fetched_at → freshness check skipped
    assert!(evaluate_conditions(&conditions, &sample_player_info(), Some("NA"), None));
}

#[test]
fn test_spiral_abyss_exact() {
    let conditions = vec![cond(ConditionField::SpiralAbyss, ConditionOperator::Eq, JsonValue::Int(123))];
    assert!(evaluate_conditions(&conditions, &sample_player_info(), Some("NA"), None));
}

#[test]
fn test_spiral_abyss_fail() {
    let conditions = vec![cond(ConditionField::SpiralAbyss, ConditionOperator::Gte, JsonValue::Int(124))];
    assert!(!evaluate_conditions(&conditions, &sample_player_info(), Some("NA"), None));
}

#[test]
fn test_spiral_abyss_stale_data() {
    let conditions = vec![cond(ConditionField::SpiralAbyss, ConditionOperator::Gte, JsonValue::Int(121))];
    // fetched_at far in the past → stale → should fail
    assert!(!evaluate_conditions(&conditions, &sample_player_info(), Some("NA"), Some(old_date())));
}

#[test]
fn test_spiral_abyss_fresh_data() {
    let conditions = vec![cond(ConditionField::SpiralAbyss, ConditionOperator::Gte, JsonValue::Int(121))];
    // fetched_at = now → fresh
    assert!(evaluate_conditions(&conditions, &sample_player_info(), Some("NA"), Some(now_secs())));
}

#[test]
fn test_tower_star_index_gte() {
    let conditions = vec![cond(ConditionField::TowerStarIndex, ConditionOperator::Gte, JsonValue::Int(30))];
    assert!(evaluate_conditions(&conditions, &sample_player_info(), Some("NA"), None));
}

#[test]
fn test_tower_star_index_fail() {
    let conditions = vec![cond(ConditionField::TowerStarIndex, ConditionOperator::Gt, JsonValue::Int(36))];
    assert!(!evaluate_conditions(&conditions, &sample_player_info(), Some("NA"), None));
}

#[test]
fn test_tower_star_index_stale_data() {
    let conditions = vec![cond(ConditionField::TowerStarIndex, ConditionOperator::Gte, JsonValue::Int(30))];
    assert!(!evaluate_conditions(&conditions, &sample_player_info(), Some("NA"), Some(old_date())));
}

#[test]
fn test_missing_abyss_fields_defaults_zero() {
    let player = PlayerInfo {
        fields: vec![entry("level", JsonValue::Int(50))],
        show_avatar_info_list: None,
        show_name_card_id_list: None,
    };
    let conditions = vec![cond(ConditionField::SpiralAbyss, ConditionOperator::Gte, JsonValue::Int(1))];
    assert!(!evaluate_conditions(&conditions, &player, None, None));
}

#[test]
fn test_between_level_in_range() {
    // Player level is 57, range 50-60 should pass
    let mut c = cond(ConditionField::Level, ConditionOperator::Between, JsonValue::Int(50));
    c.value_end = Some(JsonValue::Int(60));
    assert!(evaluate_conditions(&[c], &sample_player_info(), Some("NA"), None));
}

#[test]
fn test_between_level_out_of_range() {
    // Player level is 57, range 58-60 should fail
    let mut c = cond(ConditionField::Level, ConditionOperator::Between, JsonValue::Int(58));
    c.value_end = Some(JsonValue::Int(60));
    assert!(!evaluate_conditions(&[c], &sample_player_info(), Some("NA"), None));
}

#[test]
fn test_between_level_exact_boundary() {
    // Player level is 57, range 57-57 should pass (inclusive)
    let mut c = cond(ConditionField::Level, ConditionOperator::Between, JsonValue::Int(57));
    c.value_end = Some(JsonValue::Int(57));
    assert!(evaluate_conditions(&[c], &sample_player_info(), Some("NA"), None));
}

#[test]
fn test_between_spiral_abyss() {
    // Player has 12-3 (123), range 12-1 (121) to 12-3 (123) should pass
    let mut c = cond(ConditionField::SpiralAbyss, ConditionOperator::Between, JsonValue::Int(121));
    c.value_end = Some(JsonValue::Int(123));
    assert!(evaluate_conditions(&[c], &sample_player_info(), Some("NA"), None));
}

#[test]
fn test_empty_conditions_always_true() {
    let conditions: Vec<Condition> = vec![];
    assert!(evaluate_conditions(&conditions, &sample_player_info(), None, None));
}

#[test]
fn test_last_abyss_reset_returns_past() {
    let reset = last_abyss_reset_utc("NA");
    assert!(reset <= now_secs());
}

#[test]
fn test_has_avatar_with_level() {
    // Avatar 10000021 has level 90 → level >= 90 should pass
    let mut c = cond(ConditionField::HasAvatar, ConditionOperator::Eq, JsonValue::Int(10000021));
    c.avatar_level = Some(90);
    assert!(evaluate_conditions(&[c], &sample_player_info(), None, None));
}

#[test]
fn test_has_avatar_with_level_fail() {
    // Avatar 10000032 has level 80 → level >= 90 should fail
    let mut c = cond(ConditionField::HasAvatar, ConditionOperator::Eq, JsonValue::Int(10000032));
    c.avatar_level = Some(90);
    assert!(!evaluate_conditions(&[c], &sample_player_info(), None, None));
}

#[test]
fn test_has_avatar_with_constellation() {
    // Avatar 10000021 has talentLevel 2 → constellation >= 2 should pass
    let mut c = cond(ConditionField::HasAvatar, ConditionOperator::Eq, JsonValue::Int(10000021));
    c.avatar_constellation = Some(2);
    assert!(evaluate_conditions(&[c], &sample_player_info(), None, None));
}

#[test]
fn test_has_avatar_with_constellation_fail() {
    // Avatar 10000021 has talentLevel 2 → constellation >= 3 should fail
    let mut c = cond(ConditionField::HasAvatar, ConditionOperator::Eq, JsonValue::Int(10000021));
    c.avatar_constellation = Some(3);
    assert!(!evaluate_conditions(&[c], &sample_player_info(), None, None));
}

#[test]
fn test_has_avatar_with_level_and_constellation() {
    // Avatar 10000021: level 90, talentLevel 2 → both pass
    let mut c = cond(ConditionField::HasAvatar, ConditionOperator::Eq, JsonValue::Int(10000021));
    c.avatar_level = Some(90);
    c.avatar_constellation = Some(2);
    assert!(evaluate_conditions(&[c], &sample_player_info(), None, None));
}

#[test]
fn test_has_avatar_missing_constellation_defaults_zero() {
    // Avatar 10000032 has no talentLevel → defaults to 0 → constellation >= 1 should fail
    let mut c = cond(ConditionField::HasAvatar, ConditionOperator::Eq, JsonValue::Int(10000032));
    c.avatar_constellation = Some(1);
    assert!(!evaluate_conditions(&[c], &sample_player_info(), None, None));
}

#[test]
fn test_has_avatar_no_sub_filters() {
    // Just avatar ID, no sub-filters — should work as before
    let conditions = vec![cond(ConditionField::HasAvatar, ConditionOperator::Eq, JsonValue::Int(10000032))];
    assert!(evaluate_conditions(&conditions, &sample_player_info(), None, None));
}
