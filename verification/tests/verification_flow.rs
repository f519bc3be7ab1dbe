use genshin_roles::error::AppError;
use genshin_roles::json::JsonValue;
use genshin_roles::player::PlayerInfo;
use genshin_roles::verification::{
    cache_ttl, callback_refused, code_from_indices, check_attempts, check_signature, check_start_allowed, generate_code,
    generate_oauth_state, player_summary, render_verify_page, start_instructions, validate_uid, verify_page_url,
    CallbackQuery, CheckOutcome, CODE_ALPHABET,
};

fn message(r: Result<(), AppError>) -> String {
    match r {
        Err(AppError::BadRequest(m)) => m,
        other => panic!("expected a bad request, got {:?}", other),
    }
}

fn profile(signature: Option<&str>) -> PlayerInfo {
    let mut fields = vec![
        ("nickname".to_string(), JsonValue::Str("Traveler".to_string())),
        ("level".to_string(), JsonValue::Int(60)),
    ];
    if let Some(s) = signature {
        fields.push(("signature".to_string(), JsonValue::Str(s.to_string())));
    }
    PlayerInfo { fields, show_avatar_info_list: None, show_name_card_id_list: None }
}

#[test]
fn uid_rules() {
    assert!(validate_uid("123456789").is_ok());
    assert!(validate_uid("1234567890").is_ok());
    assert_eq!(message(validate_uid("12345678")), "UID must be 9-10 digits");
    assert_eq!(message(validate_uid("12345678901")), "UID must be 9-10 digits");
    assert_eq!(message(validate_uid("12345678a")), "UID must contain only digits");
    // Nine bytes but eight characters: the byte length counts.
    assert_eq!(message(validate_uid("1234567é")), "UID must contain only digits");
}

#[test]
fn codes_have_prefix_and_alphabet() {
    for _ in 0..20 {
        let code = generate_code();
        assert_eq!(code.len(), 9);
        assert!(code.starts_with("GR-"));
        assert!(code[3..].chars().all(|c| CODE_ALPHABET.contains(c)));
    }
}

#[test]
fn oauth_state_is_alphanumeric() {
    let s = generate_oauth_state();
    assert_eq!(s.len(), 32);
    assert!(s.chars().all(|c| c.is_ascii_alphanumeric()));
}

#[test]
fn verify_page_names_the_service() {
    let page = render_verify_page("https://svc.example");
    assert!(page.starts_with("<!DOCTYPE html>"));
    assert!(page.contains("https://svc.example/favicon.ico"));
    assert!(page.contains("https://svc.example/verify/login"));
    assert!(page.trim_end().ends_with("</html>"));
    assert_eq!(verify_page_url("https://svc.example"), "https://svc.example/verify");
}

#[test]
fn callback_refusals() {
    let ok = CallbackQuery { code: Some("c".to_string()), state: "s".to_string(), error: None };
    assert!(!callback_refused(&ok));
    let denied = CallbackQuery { code: Some("c".to_string()), state: "s".to_string(), error: Some("access_denied".to_string()) };
    assert!(callback_refused(&denied));
    let no_code = CallbackQuery { code: None, state: "s".to_string(), error: None };
    assert!(callback_refused(&no_code));
}

#[test]
fn start_rules_and_instructions() {
    assert_eq!(
        message(check_start_allowed(Some("800000001"), false)),
        "You already have a linked account (UID: 800000001). Unlink it first."
    );
    assert_eq!(message(check_start_allowed(None, true)), "This UID is already linked to another Discord account");
    assert!(check_start_allowed(None, false).is_ok());
    assert_eq!(
        start_instructions("GR-ABC234"),
        "Set your in-game signature to include: GR-ABC234  Then click Verify. The code expires in 15 minutes."
    );
}

#[test]
fn check_limits_and_cache() {
    assert!(check_attempts(9).is_ok());
    assert_eq!(message(check_attempts(10)), "Too many attempts. Please start a new verification.");
    assert_eq!(cache_ttl(30), 60);
    assert_eq!(cache_ttl(300), 300);
}

#[test]
fn signature_check_outcomes() {
    assert!(matches!(check_signature(&profile(Some("hi GR-ABC234 bye")), 120, "GR-ABC234"), CheckOutcome::Verified));
    match check_signature(&profile(Some("hello")), 120, "GR-ABC234") {
        CheckOutcome::CodeMissing { ttl, signature, message } => {
            assert_eq!(ttl, 120);
            assert_eq!(signature, "hello");
            assert_eq!(message, "Code not found in your signature. Enka cache refreshes in ~120s.");
        }
        CheckOutcome::Verified => panic!("the code is not in the signature"),
    }
    match check_signature(&profile(None), -5, "GR-ABC234") {
        CheckOutcome::CodeMissing { ttl, signature, .. } => {
            assert_eq!(ttl, 0);
            assert_eq!(signature, "");
        }
        CheckOutcome::Verified => panic!("there is no signature"),
    }
}

#[test]
fn summary_of_profile() {
    let (name, level) = player_summary(&profile(None));
    assert_eq!(name.as_deref(), Some("Traveler"));
    assert_eq!(level, Some(60));
    let (name, level) = player_summary(&PlayerInfo::empty());
    assert_eq!(name, None);
    assert_eq!(level, None);
}

#[test]
fn code_from_drawn_indices() {
    assert_eq!(code_from_indices(&[0, 1, 2, 29, 30, 31]), "GR-ABC789");
    assert_eq!(code_from_indices(&[8, 8, 8, 8, 8, 8]), "GR-JJJJJJ");
}
