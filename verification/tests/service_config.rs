use genshin_roles::config::{derive_origin, AppConfig};
use genshin_roles::error::{AppError, EnkaError};

#[test]
fn origin_of_base_url() {
    assert_eq!(derive_origin("https://plugin.example.net/genshin"), "https://plugin.example.net");
    assert_eq!(derive_origin("https://plugin.example.net"), "https://plugin.example.net");
    assert_eq!(derive_origin("http://localhost:8080/a/b"), "http://localhost:8080");
    assert_eq!(derive_origin("no-scheme/path"), "no-scheme/path");
}

#[test]
fn settings_defaults() {
    let c = AppConfig::from_settings(
        "postgres://db".to_string(),
        "secret".to_string(),
        "https://plugin.example.net/genshin".to_string(),
        None,
        None,
        None,
    );
    assert_eq!(c.enka_user_agent, "GenshinRoles/1.0");
    assert_eq!(c.listen_addr, "0.0.0.0:8080");
    assert_eq!(c.auth_gateway_url, "https://plugin.example.net");
    let c = AppConfig::from_settings(
        "postgres://db".to_string(),
        "secret".to_string(),
        "https://plugin.example.net/genshin".to_string(),
        Some("Agent/2".to_string()),
        Some("127.0.0.1:9000".to_string()),
        Some("http://localhost:8080//".to_string()),
    );
    assert_eq!(c.enka_user_agent, "Agent/2");
    assert_eq!(c.listen_addr, "127.0.0.1:9000");
    assert_eq!(c.auth_gateway_url, "http://localhost:8080");
}

#[test]
fn error_responses() {
    assert_eq!(AppError::Database("boom".to_string()).response_parts(), (500, "Internal server error".to_string()));
    assert_eq!(AppError::Enka(EnkaError::BadUid).response_parts().0, 400);
    assert_eq!(AppError::Enka(EnkaError::NotFound).response_parts().0, 404);
    assert_eq!(AppError::Enka(EnkaError::RateLimited).response_parts().0, 429);
    assert_eq!(AppError::Enka(EnkaError::Maintenance).response_parts().0, 503);
    assert_eq!(
        AppError::Enka(EnkaError::Server(500)).response_parts(),
        (502, "Failed to fetch player data. Please try again later.".to_string())
    );
    assert_eq!(AppError::Enka(EnkaError::Network("x".to_string())).response_parts().0, 502);
    assert_eq!(AppError::RoleLogic("x".to_string()).response_parts(), (502, "Failed to sync roles".to_string()));
    assert_eq!(AppError::UserLimitReached { limit: 100 }.response_parts(), (403, "Role link user limit reached".to_string()));
    assert_eq!(AppError::BadRequest("nope".to_string()).response_parts(), (400, "nope".to_string()));
    assert_eq!(AppError::Unauthorized.response_parts(), (401, "Invalid or missing authorization".to_string()));
    assert_eq!(AppError::NotFound("gone".to_string()).response_parts(), (404, "gone".to_string()));
    assert_eq!(AppError::VerificationFailed("no".to_string()).response_parts(), (422, "no".to_string()));
    assert_eq!(AppError::Internal("secret detail".to_string()).response_parts(), (500, "Internal server error".to_string()));
}
