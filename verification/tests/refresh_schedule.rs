use genshin_roles::error::EnkaError;
use genshin_roles::refresh::{
    failure_response, max_requests_from, next_refresh_delay, refresh_interval, CachedInterval, FailureResponse,
};

#[test]
fn request_budget_setting() {
    assert_eq!(max_requests_from(None), 360);
    assert_eq!(max_requests_from(Some("720")), 720);
    assert_eq!(max_requests_from(Some("lots")), 360);
    assert_eq!(max_requests_from(Some(" 720")), 360);
}

#[test]
fn interval_formula() {
    assert_eq!(refresh_interval(0, 360), 1800);
    // 1000 players at 360 requests/hour → 10000 s
    assert_eq!(refresh_interval(1000, 360), 10000);
    // few players → floor of 30 minutes
    assert_eq!(refresh_interval(10, 360), 1800);
    // many players → cap of 24 hours
    assert_eq!(refresh_interval(100_000, 360), 86400);
    // a negative budget rounds toward zero, then clamps
    assert_eq!(refresh_interval(1000, -360), 1800);
}

#[test]
fn cached_interval_lifecycle() {
    let mut c = CachedInterval::new(360);
    assert_eq!(c.get(), 1800);
    assert!(CachedInterval::is_stale(None));
    assert!(CachedInterval::is_stale(Some(300)));
    assert!(!CachedInterval::is_stale(Some(299)));
    assert_eq!(c.player_count, None);
    c.recompute(2000);
    assert_eq!(c.get(), 20000);
    assert_eq!(c.player_count, Some(2000));
    assert_eq!(c.max_req_per_hour, 360);
    c.recompute(0);
    assert_eq!(c.get(), 1800);
}

#[test]
fn next_refresh_scales_inactive_players() {
    assert_eq!(next_refresh_delay(1800, true, 60), 1800);
    assert_eq!(next_refresh_delay(1800, false, 60), 10800);
    assert_eq!(next_refresh_delay(1800, true, 7200), 7200);
}

#[test]
fn failures_back_off() {
    assert_eq!(failure_response(&EnkaError::RateLimited), FailureResponse::Pause { sleep_secs: 5 });
    assert_eq!(
        failure_response(&EnkaError::Maintenance),
        FailureResponse::Postpone { postpone_secs: 600, sleep_secs: 600 }
    );
    assert_eq!(failure_response(&EnkaError::NotFound), FailureResponse::CountFailure);
    assert_eq!(failure_response(&EnkaError::Server(503)), FailureResponse::CountFailure);
}
