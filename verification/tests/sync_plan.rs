use genshin_roles::condition::{Condition, ConditionField, ConditionOperator};
use genshin_roles::json::JsonValue;
use genshin_roles::player::PlayerInfo;
use genshin_roles::sync::{
    build_condition_where, may_exceed_limit, plan_player_sync, plan_player_sync_at, role_link_queries, user_limit_or_default,
    ConditionBind, RoleLinkRule, SyncAction,
};

fn cond(field: ConditionField, operator: ConditionOperator, value: JsonValue) -> Condition {
    Condition { field, operator, value, value_end: None, avatar_level: None, avatar_constellation: None }
}

fn link(guild: &str, role: &str, conditions: Vec<Condition>) -> RoleLinkRule {
    RoleLinkRule {
        guild_id: guild.to_string(),
        role_id: role.to_string(),
        api_token: format!("token-{guild}-{role}"),
        conditions,
    }
}

fn player(level: i64) -> PlayerInfo {
    PlayerInfo {
        fields: vec![("level".to_string(), JsonValue::Int(level))],
        show_avatar_info_list: None,
        show_name_card_id_list: None,
    }
}

const NOW: i64 = 1705752000;

#[test]
fn where_clause_for_conditions() {
    let (sql, binds) = build_condition_where(&[]);
    assert_eq!(sql, "TRUE");
    assert!(binds.is_empty());
    let conds = vec![
        cond(ConditionField::Level, ConditionOperator::Gte, JsonValue::Int(50)),
        cond(ConditionField::Region, ConditionOperator::Eq, JsonValue::Str("na".to_string())),
        cond(ConditionField::HasAvatar, ConditionOperator::Eq, JsonValue::Int(10000021)),
        cond(ConditionField::HasNameCard, ConditionOperator::Eq, JsonValue::Int(210051)),
    ];
    let (sql, binds) = build_condition_where(&conds);
    assert_eq!(
        sql,
        "pc.level >= $1 AND LOWER(pc.region) = LOWER($2) AND \
         pc.player_info->'showAvatarInfoList' @> concat('[{\"avatarId\":', $3::text, '}]')::jsonb AND \
         pc.player_info->'showNameCardIdList' @> concat('[', $4::text, ']')::jsonb"
    );
    assert_eq!(binds.len(), 4);
    assert!(matches!(binds[0], ConditionBind::Int(50)));
    assert!(matches!(&binds[1], ConditionBind::Text(t) if t == "na"));
    assert!(matches!(binds[2], ConditionBind::Int(10000021)));
}

#[test]
fn between_binds_both_bounds() {
    let mut c = cond(ConditionField::SpiralAbyss, ConditionOperator::Between, JsonValue::Int(91));
    c.value_end = Some(JsonValue::Int(123));
    let (sql, binds) = build_condition_where(&[c]);
    assert_eq!(sql, "pc.abyss_progress BETWEEN $1 AND $2");
    assert_eq!(binds.len(), 2);
    assert!(matches!(binds[0], ConditionBind::Int(91)));
    assert!(matches!(binds[1], ConditionBind::Int(123)));
}

#[test]
fn between_shifts_later_placeholders() {
    let mut level = cond(ConditionField::Level, ConditionOperator::Between, JsonValue::Int(50));
    level.value_end = Some(JsonValue::Int(60));
    let region = cond(ConditionField::Region, ConditionOperator::Eq, JsonValue::Str("EU".to_string()));
    let open_range = cond(ConditionField::WorldLevel, ConditionOperator::Between, JsonValue::Int(7));
    let (sql, binds) = build_condition_where(&[level, region, open_range]);
    assert_eq!(
        sql,
        "pc.level BETWEEN $1 AND $2 AND LOWER(pc.region) = LOWER($3) AND pc.world_level BETWEEN $4 AND $5"
    );
    assert_eq!(binds.len(), 5);
    assert!(matches!(binds[1], ConditionBind::Int(60)));
    // A range without an end closes at its start, as the evaluation reads it.
    assert!(matches!(binds[3], ConditionBind::Int(7)));
    assert!(matches!(binds[4], ConditionBind::Int(7)));
    let mut again = cond(ConditionField::Level, ConditionOperator::Between, JsonValue::Int(50));
    again.value_end = Some(JsonValue::Int(60));
    let q = role_link_queries(&[again]);
    assert_eq!(q.guild_bind_index, 3);
    assert_eq!(q.limit_bind_index, 4);
    assert!(q.select_sql.ends_with("ug.guild_id = $3 WHERE pc.level BETWEEN $1 AND $2 ORDER BY la.linked_at ASC LIMIT $4"));
}

#[test]
fn role_link_query_positions() {
    let conds = vec![cond(ConditionField::Level, ConditionOperator::Gte, JsonValue::Int(50))];
    let q = role_link_queries(&conds);
    assert_eq!(q.guild_bind_index, 2);
    assert_eq!(q.limit_bind_index, 3);
    assert!(q.select_sql.starts_with("SELECT la.discord_id FROM linked_accounts la"));
    assert!(q.select_sql.contains("ug.guild_id = $2 WHERE pc.level >= $1 ORDER BY la.linked_at ASC LIMIT $3"));
    assert!(q.count_sql.starts_with("SELECT COUNT(*) FROM linked_accounts la"));
    assert!(q.count_sql.ends_with("ug.guild_id = $2 WHERE pc.level >= $1"));
}

#[test]
fn user_limits() {
    assert_eq!(user_limit_or_default(None), 100);
    assert_eq!(user_limit_or_default(Some(500)), 500);
    assert!(may_exceed_limit(100, 100));
    assert!(!may_exceed_limit(99, 100));
    assert!(!may_exceed_limit(0, 0));
}

#[test]
fn plan_adds_missing_and_removes_unearned_roles() {
    let links = vec![
        link("g1", "r1", vec![cond(ConditionField::Level, ConditionOperator::Gte, JsonValue::Int(50))]),
        link("g1", "r2", vec![cond(ConditionField::Level, ConditionOperator::Gte, JsonValue::Int(60))]),
        link("g2", "r3", vec![]),
        link("g2", "r4", vec![cond(ConditionField::Level, ConditionOperator::Lt, JsonValue::Int(10))]),
    ];
    let existing = vec![("g1".to_string(), "r2".to_string()), ("g2".to_string(), "r3".to_string())];
    let plan = plan_player_sync_at(&links, &player(55), Some("NA"), None, &existing, NOW);
    assert_eq!(plan.len(), 2);
    match &plan[0] {
        SyncAction::Add { guild_id, role_id, api_token } => {
            assert_eq!((guild_id.as_str(), role_id.as_str(), api_token.as_str()), ("g1", "r1", "token-g1-r1"));
        }
        other => panic!("expected an addition, got {:?}", other),
    }
    match &plan[1] {
        SyncAction::Remove { guild_id, role_id, .. } => {
            assert_eq!((guild_id.as_str(), role_id.as_str()), ("g1", "r2"));
        }
        other => panic!("expected a removal, got {:?}", other),
    }
}

#[test]
fn plan_is_empty_when_assignments_agree() {
    let links = vec![link("g1", "r1", vec![cond(ConditionField::Level, ConditionOperator::Gte, JsonValue::Int(50))])];
    let existing = vec![("g1".to_string(), "r1".to_string())];
    assert!(plan_player_sync_at(&links, &player(55), None, None, &existing, NOW).is_empty());
    assert!(plan_player_sync_at(&links, &player(40), None, None, &vec![], NOW).is_empty());
}

#[test]
fn plan_by_the_clock_agrees_for_clock_free_conditions() {
    let links = vec![
        link("g1", "r1", vec![cond(ConditionField::Level, ConditionOperator::Gte, JsonValue::Int(50))]),
        link("g1", "r2", vec![cond(ConditionField::WorldLevel, ConditionOperator::Eq, JsonValue::Int(8))]),
    ];
    let existing = vec![("g1".to_string(), "r2".to_string())];
    let plan = plan_player_sync(&links, &player(55), None, None, &existing);
    assert_eq!(plan.len(), 2);
    assert!(matches!(&plan[0], SyncAction::Add { role_id, .. } if role_id == "r1"));
    assert!(matches!(&plan[1], SyncAction::Remove { role_id, .. } if role_id == "r2"));
}

#[test]
fn second_plan_after_carrying_out_is_empty() {
    let links = vec![
        link("g1", "r1", vec![cond(ConditionField::Level, ConditionOperator::Gte, JsonValue::Int(50))]),
        link("g1", "r2", vec![cond(ConditionField::Level, ConditionOperator::Gte, JsonValue::Int(60))]),
    ];
    let existing = vec![("g1".to_string(), "r2".to_string())];
    let plan = plan_player_sync_at(&links, &player(55), None, None, &existing, NOW);
    assert_eq!(plan.len(), 2);
    // After adding r1 and removing r2:
    let after = vec![("g1".to_string(), "r1".to_string())];
    assert!(plan_player_sync_at(&links, &player(55), None, None, &after, NOW).is_empty());
}
