use genshin_roles::enka::{check_status, player_info_url, response_from_body};
use genshin_roles::error::EnkaError;
use genshin_roles::json::JsonValue;
use genshin_roles::player::PlayerInfo;

#[test]
fn profile_address() {
    assert_eq!(player_info_url("800000001"), "https://enka.network/api/uid/800000001/?info");
}

#[test]
fn status_codes() {
    assert!(check_status(200).is_ok());
    assert!(matches!(check_status(400), Err(EnkaError::BadUid)));
    assert!(matches!(check_status(404), Err(EnkaError::NotFound)));
    assert!(matches!(check_status(424), Err(EnkaError::Maintenance)));
    assert!(matches!(check_status(429), Err(EnkaError::RateLimited)));
    assert!(matches!(check_status(500), Err(EnkaError::Server(500))));
    assert!(matches!(check_status(201), Err(EnkaError::Server(201))));
}

#[test]
fn answer_fields() {
    let body = vec![
        ("ttl".to_string(), JsonValue::Int(120)),
        ("region".to_string(), JsonValue::Str("ASIA".to_string())),
    ];
    let r = response_from_body(&body, PlayerInfo::empty());
    assert_eq!(r.ttl, 120);
    assert_eq!(r.region.as_deref(), Some("ASIA"));
    let r = response_from_body(&vec![("ttl".to_string(), JsonValue::Str("x".to_string()))], PlayerInfo::empty());
    assert_eq!(r.ttl, 60);
    assert_eq!(r.region, None);
    // A TTL beyond 32 bits is cut as `as i32` cuts it.
    let r = response_from_body(&vec![("ttl".to_string(), JsonValue::Int(4294967297))], PlayerInfo::empty());
    assert_eq!(r.ttl, 1);
}
