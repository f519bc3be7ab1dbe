use genshin_roles::condition::{Condition, ConditionField, ConditionOperator};
use genshin_roles::error::AppError;
use genshin_roles::json::JsonValue;
use genshin_roles::schema::{build_config_schema, parse_config, parse_floor_chamber, FloorChamberError};

fn form(entries: &[(&str, JsonValue)]) -> Vec<(String, JsonValue)> {
    entries.iter().map(|(k, v)| (k.to_string(), copy(v))).collect()
}

fn copy(v: &JsonValue) -> JsonValue {
    v.duplicate()
}

fn s(text: &str) -> JsonValue {
    JsonValue::Str(text.to_string())
}

fn bad_request(r: Result<Vec<Condition>, AppError>) -> String {
    match r {
        Err(AppError::BadRequest(m)) => m,
        other => panic!("expected a bad request, got {:?}", other),
    }
}

fn one(r: Result<Vec<Condition>, AppError>) -> Condition {
    let mut v = r.expect("the form should be accepted");
    assert_eq!(v.len(), 1);
    v.remove(0)
}

#[test]
fn parse_level_from_number() {
    let c = one(parse_config(&form(&[
        ("field", s("level")),
        ("operator", s("gte")),
        ("value_level", JsonValue::Int(50)),
    ])));
    assert_eq!(c.field, ConditionField::Level);
    assert_eq!(c.operator, ConditionOperator::Gte);
    assert_eq!(c.value.as_i64(), Some(50));
    assert!(c.value_end.is_none());
}

#[test]
fn parse_level_from_text_and_generic_key() {
    let c = one(parse_config(&form(&[("field", s("worldLevel")), ("operator", s("eq")), ("value", s("8"))])));
    assert_eq!(c.field, ConditionField::WorldLevel);
    assert_eq!(c.value.as_i64(), Some(8));
}

#[test]
fn parse_spiral_abyss_range() {
    let c = one(parse_config(&form(&[
        ("field", s("spiralAbyss")),
        ("operator", s("between")),
        ("value_spiralAbyss", s(" 9 - 1 ")),
        ("value_end_spiralAbyss", s("12-3")),
    ])));
    assert_eq!(c.value.as_i64(), Some(91));
    assert_eq!(c.value_end.as_ref().and_then(|v| v.as_i64()), Some(123));
}

#[test]
fn parse_region_defaults_operator_and_uppercases() {
    let c = one(parse_config(&form(&[("field", s("region")), ("value_region", s("asia"))])));
    assert_eq!(c.operator, ConditionOperator::Eq);
    assert_eq!(c.value.as_str(), Some("ASIA"));
}

#[test]
fn parse_errors_have_their_messages() {
    assert_eq!(bad_request(parse_config(&form(&[]))), "Field is required");
    assert_eq!(bad_request(parse_config(&form(&[("field", s("rank"))]))), "Invalid field 'rank'");
    assert_eq!(bad_request(parse_config(&form(&[("field", s("level"))]))), "Operator is required");
    assert_eq!(
        bad_request(parse_config(&form(&[("field", s("level")), ("operator", s("ne"))]))),
        "Invalid operator 'ne'"
    );
    assert_eq!(
        bad_request(parse_config(&form(&[("field", s("level")), ("operator", s("eq"))]))),
        "Value is required"
    );
    assert_eq!(
        bad_request(parse_config(&form(&[("field", s("region")), ("operator", s("gt")), ("value", s("NA"))]))),
        "Region only supports '= (equals)' condition"
    );
    assert_eq!(
        bad_request(parse_config(&form(&[
            ("field", s("hasAvatar")),
            ("operator", s("between")),
            ("value", JsonValue::Int(1)),
        ]))),
        "Between is not supported for this field"
    );
    assert_eq!(
        bad_request(parse_config(&form(&[("field", s("region")), ("value", s("mars"))]))),
        "Invalid region 'mars'. Use NA, EU, ASIA, TW, or CN"
    );
    assert_eq!(
        bad_request(parse_config(&form(&[("field", s("level")), ("operator", s("eq")), ("value", s("high"))]))),
        "Value must be a number for 'level'"
    );
    assert_eq!(
        bad_request(parse_config(&form(&[("field", s("level")), ("operator", s("between")), ("value", JsonValue::Int(3))]))),
        "End value is required for between operator"
    );
    assert_eq!(
        bad_request(parse_config(&form(&[
            ("field", s("level")),
            ("operator", s("between")),
            ("value", JsonValue::Int(3)),
            ("value_end", s("x")),
        ]))),
        "End value must be a number for 'level'"
    );
    assert_eq!(
        bad_request(parse_config(&form(&[
            ("field", s("level")),
            ("operator", s("between")),
            ("value", JsonValue::Int(30)),
            ("value_end", JsonValue::Int(20)),
        ]))),
        "Start value must be less than or equal to end value"
    );
}

#[test]
fn parse_abyss_errors_have_their_messages() {
    let abyss = |v: &str| parse_config(&form(&[("field", s("spiralAbyss")), ("operator", s("gte")), ("value", s(v))]));
    assert_eq!(bad_request(abyss("12")), "Spiral Abyss value must be in floor-chamber format (e.g. 12-3)");
    assert_eq!(bad_request(abyss("a-3")), "Floor must be a number (e.g. 12-3)");
    assert_eq!(bad_request(abyss("12-c")), "Chamber must be a number (e.g. 12-3)");
    assert_eq!(bad_request(abyss("13-1")), "Floor must be 1-12 and chamber must be 1-3");
    let end = |v: &str| {
        parse_config(&form(&[
            ("field", s("spiralAbyss")),
            ("operator", s("between")),
            ("value", s("1-1")),
            ("value_end", s(v)),
        ]))
    };
    assert_eq!(bad_request(end("1-2-3")), "Spiral Abyss end value must be in floor-chamber format (e.g. 12-3)");
    assert_eq!(bad_request(end("x-1")), "End floor must be a number (e.g. 12-3)");
    assert_eq!(bad_request(end("1-")), "End chamber must be a number (e.g. 12-3)");
    assert_eq!(bad_request(end("12-4")), "End floor must be 1-12 and chamber must be 1-3");
}

#[test]
fn floor_chamber_reading() {
    assert_eq!(parse_floor_chamber("12-3"), Ok(123));
    assert_eq!(parse_floor_chamber("+1-1"), Ok(11));
    assert_eq!(parse_floor_chamber("0-1"), Err(FloorChamberError::Range));
    assert_eq!(parse_floor_chamber("1--1"), Err(FloorChamberError::Format));
}

fn schema_values(conditions: &[Condition]) -> serde_json::Value {
    let text = build_config_schema(conditions, "https://x.example/verify", "https://x.example/players/1");
    let doc: serde_json::Value = serde_json::from_str(&text).expect("the schema is JSON");
    doc["values"].clone()
}

#[test]
fn schema_is_json_with_sections_and_links() {
    let text = build_config_schema(&[], "https://x.example/verify", "https://x.example/players/\"1\"");
    let doc: serde_json::Value = serde_json::from_str(&text).expect("the schema is JSON");
    assert_eq!(doc["version"], 1);
    assert_eq!(doc["name"], "Genshin Roles");
    assert_eq!(doc["sections"].as_array().map(|a| a.len()), Some(3));
    let info = doc["sections"][0]["fields"][0]["value"].as_str().unwrap();
    assert!(info.contains("linking their Genshin UID at:\nhttps://x.example/verify\n"));
    assert!(info.ends_with("this server:\nhttps://x.example/players/\"1\""));
    assert_eq!(doc["sections"][1]["fields"][8]["validation"]["pattern"], "^\\d{1,2}-[1-3]$");
    assert_eq!(doc["values"]["field"], "");
    assert_eq!(doc["values"]["operator"], "");
    assert_eq!(doc["values"].as_object().map(|o| o.len()), Some(2));
}

#[test]
fn schema_values_show_abyss_range() {
    let c = Condition {
        field: ConditionField::SpiralAbyss,
        operator: ConditionOperator::Between,
        value: JsonValue::Int(91),
        value_end: Some(JsonValue::Int(123)),
        avatar_level: None,
        avatar_constellation: None,
    };
    let v = schema_values(&[c]);
    assert_eq!(v["field"], "spiralAbyss");
    assert_eq!(v["operator"], "between");
    assert_eq!(v["value_spiralAbyss"], "9-1");
    assert_eq!(v["value_end_spiralAbyss"], "12-3");
    assert_eq!(v.as_object().map(|o| o.len()), Some(4));
}

#[test]
fn schema_values_show_negative_progress_as_truncated_parts() {
    let c = Condition {
        field: ConditionField::SpiralAbyss,
        operator: ConditionOperator::Gte,
        value: JsonValue::Int(-15),
        value_end: None,
        avatar_level: None,
        avatar_constellation: None,
    };
    assert_eq!(schema_values(&[c])["value_spiralAbyss"], "-1--5");
}

#[test]
fn schema_values_show_plain_values() {
    let c = Condition {
        field: ConditionField::Level,
        operator: ConditionOperator::Gte,
        value: JsonValue::Bool(true),
        value_end: None,
        avatar_level: None,
        avatar_constellation: None,
    };
    assert_eq!(schema_values(&[c])["value_level"], "");
    let r = Condition {
        field: ConditionField::Region,
        operator: ConditionOperator::Eq,
        value: JsonValue::Str("EU".to_string()),
        value_end: None,
        avatar_level: None,
        avatar_constellation: None,
    };
    assert_eq!(schema_values(&[r])["value_region"], "EU");
}

#[test]
fn form_values_read_back_through_parse_config() {
    let original = Condition {
        field: ConditionField::SpiralAbyss,
        operator: ConditionOperator::Between,
        value: JsonValue::Int(111),
        value_end: Some(JsonValue::Int(122)),
        avatar_level: None,
        avatar_constellation: None,
    };
    let values = schema_values(&[original]);
    let entries: Vec<(String, JsonValue)> = values
        .as_object()
        .unwrap()
        .iter()
        .map(|(k, v)| (k.clone(), JsonValue::Str(v.as_str().unwrap().to_string())))
        .collect();
    let c = one(parse_config(&entries));
    assert_eq!(c.field, ConditionField::SpiralAbyss);
    assert_eq!(c.operator, ConditionOperator::Between);
    assert_eq!(c.value.as_i64(), Some(111));
    assert_eq!(c.value_end.as_ref().and_then(|v| v.as_i64()), Some(122));
}
