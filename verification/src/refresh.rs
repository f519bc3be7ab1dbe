//! The refresh schedule of cached player profiles.
use vstd::prelude::*;

use crate::error::EnkaError;
use crate::text::{parse_i64, parse_i64_seq};

verus! {

/// The default sustained request rate to Enka (6 per minute).
pub const DEFAULT_MAX_REQUESTS_PER_HOUR: i64 = 360;

/// The shortest refresh interval (30 minutes).
pub const MIN_REFRESH_SECS: i64 = 1800;

/// The longest refresh interval (24 hours).
pub const MAX_REFRESH_SECS: i64 = 86400;

/// How long a computed refresh interval is reused (5 minutes).
pub const INTERVAL_CACHE_SECS: u64 = 300;

/// Inactive players (no role_assignments) are refreshed this many times slower.
pub const INACTIVE_MULTIPLIER: i64 = 6;

/// The pause when no profile is due (seconds).
pub const IDLE_SLEEP_SECS: u64 = 30;

/// The pause after a database error (seconds).
pub const DB_ERROR_SLEEP_SECS: u64 = 5;

/// The request budget from its setting: the setting parsed as an integer,
/// or the default when it is absent or not an integer.
pub fn max_requests_from(setting: Option<&str>) -> (r: i64)
    ensures
        r == (match setting {
            Some(s) => match parse_i64_seq(s@) {
                Some(v) => v,
                None => DEFAULT_MAX_REQUESTS_PER_HOUR,
            },
            None => DEFAULT_MAX_REQUESTS_PER_HOUR,
        }),
{
    match setting {
        Some(s) => match parse_i64(s) {
            Some(v) => v,
            None => DEFAULT_MAX_REQUESTS_PER_HOUR,
        },
        None => DEFAULT_MAX_REQUESTS_PER_HOUR,
    }
}

/// Integer division rounding toward zero, as Rust's `/` on integers.
pub open spec fn div_toward_zero(a: int, b: int) -> int {
    let q = (if a >= 0 {
        a
    } else {
        -a
    }) / (if b >= 0 {
        b
    } else {
        -b
    });
    if (a >= 0) == (b >= 0) {
        q
    } else {
        -q
    }
}

/// `x.clamp(lo, hi)`.
pub open spec fn clamp(x: int, lo: int, hi: int) -> int {
    if x < lo {
        lo
    } else if x > hi {
        hi
    } else {
        x
    }
}

/// The base refresh interval: the time the request budget needs to go
/// through every linked player once, within 30 minutes and 24 hours.
pub open spec fn refresh_interval_for(player_count: int, max_req_per_hour: int) -> int {
    if player_count == 0 {
        MIN_REFRESH_SECS as int
    } else {
        clamp(
            div_toward_zero(player_count * 3600, max_req_per_hour),
            MIN_REFRESH_SECS as int,
            MAX_REFRESH_SECS as int,
        )
    }
}

/// Whether the interval can be computed in 64-bit arithmetic: a nonzero
/// budget, and a product and quotient that fit.
pub open spec fn interval_computable(player_count: int, max_req_per_hour: int) -> bool {
    player_count != 0 ==> {
        &&& max_req_per_hour != 0
        &&& i64::MIN <= player_count * 3600 <= i64::MAX
        &&& !(player_count * 3600 == i64::MIN && max_req_per_hour == -1)
    }
}

/// The base refresh interval for the number of linked players.
pub fn refresh_interval(player_count: i64, max_req_per_hour: i64) -> (r: i64)
    requires
        interval_computable(player_count as int, max_req_per_hour as int),
    ensures
        r == refresh_interval_for(player_count as int, max_req_per_hour as int),
        MIN_REFRESH_SECS <= r <= MAX_REFRESH_SECS,
{
    if player_count == 0 {
        MIN_REFRESH_SECS
    } else {
        let p: i128 = (player_count as i128) * 3600;
        let m: i128 = max_req_per_hour as i128;
        let pa: i128 = if p >= 0 {
            p
        } else {
            -p
        };
        let ma: i128 = if m >= 0 {
            m
        } else {
            -m
        };
        let qa: i128 = pa / ma;
        let q: i128 = if (p >= 0) == (m >= 0) {
            qa
        } else {
            -qa
        };
        if q < MIN_REFRESH_SECS as i128 {
            MIN_REFRESH_SECS
        } else if q > MAX_REFRESH_SECS as i128 {
            MAX_REFRESH_SECS
        } else {
            q as i64
        }
    }
}

/// The interval last computed for a request budget: the base interval for
/// the player count it was computed from, or the shortest interval before
/// any count is known.
pub open spec fn cached_interval_for(player_count: Option<i64>, max_req_per_hour: i64) -> int {
    match player_count {
        Some(n) => refresh_interval_for(n as int, max_req_per_hour as int),
        None => MIN_REFRESH_SECS as int,
    }
}

/// The base refresh interval, reused for a while so that the number of
/// linked players is not counted on every fetch.
pub struct CachedInterval {
    pub value: i64,
    pub max_req_per_hour: i64,
    /// The player count the interval was last computed from.
    pub player_count: Option<i64>,
}

impl CachedInterval {
    /// The stored interval is the one computed from the stored count, and
    /// lies within the refresh bounds.
    pub open spec fn wf(&self) -> bool {
        &&& self.value == cached_interval_for(self.player_count, self.max_req_per_hour)
        &&& MIN_REFRESH_SECS <= self.value <= MAX_REFRESH_SECS
    }

    /// A cache that starts at the shortest interval, with no count yet.
    pub fn new(max_req_per_hour: i64) -> (r: CachedInterval)
        ensures
            r.wf(),
            r.value == MIN_REFRESH_SECS,
            r.player_count is None,
            r.max_req_per_hour == max_req_per_hour,
    {
        CachedInterval { value: MIN_REFRESH_SECS, max_req_per_hour, player_count: None }
    }

    /// Whether the interval is due to be computed again, given the seconds
    /// since it last was (`None` before the first time).
    pub fn is_stale(elapsed_secs: Option<u64>) -> (r: bool)
        ensures
            r == match elapsed_secs {
                Some(e) => e >= INTERVAL_CACHE_SECS,
                None => true,
            },
    {
        match elapsed_secs {
            Some(e) => e >= INTERVAL_CACHE_SECS,
            None => true,
        }
    }

    /// Computes the interval again from the number of linked players.
    pub fn recompute(&mut self, player_count: i64)
        requires
            interval_computable(player_count as int, old(self).max_req_per_hour as int),
        ensures
            final(self).wf(),
            final(self).player_count == Some(player_count),
            final(self).value == refresh_interval_for(player_count as int, old(self).max_req_per_hour as int),
            final(self).max_req_per_hour == old(self).max_req_per_hour,
    {
        self.value = refresh_interval(player_count, self.max_req_per_hour);
        self.player_count = Some(player_count);
    }

    /// The current interval: the one computed from the last count (the
    /// shortest before any), within the refresh bounds.
    pub fn get(&self) -> (r: i64)
        requires
            self.wf(),
        ensures
            r == cached_interval_for(self.player_count, self.max_req_per_hour),
            MIN_REFRESH_SECS <= r <= MAX_REFRESH_SECS,
    {
        self.value
    }
}

/// How long until a refreshed profile is due again: Enka's TTL, at least the
/// base interval (six times longer for players without role assignments).
pub open spec fn next_refresh_delay_for(base_interval: int, is_active: bool, enka_ttl: int) -> int {
    let interval = base_interval * (if is_active {
        1int
    } else {
        INACTIVE_MULTIPLIER as int
    });
    if enka_ttl >= interval {
        enka_ttl
    } else {
        interval
    }
}

/// Scale refresh interval: active players get base interval, inactive
/// players get `INACTIVE_MULTIPLIER` times longer, never before Enka's TTL.
pub fn next_refresh_delay(base_interval: i64, is_active: bool, enka_ttl: i32) -> (r: i64)
    requires
        MIN_REFRESH_SECS <= base_interval <= MAX_REFRESH_SECS,
    ensures
        r == next_refresh_delay_for(base_interval as int, is_active, enka_ttl as int),
        r >= base_interval,
        r >= enka_ttl,
{
    let multiplier: i64 = if is_active {
        1
    } else {
        INACTIVE_MULTIPLIER
    };
    let interval: i64 = base_interval * multiplier;
    let ttl: i64 = enka_ttl as i64;
    if ttl >= interval {
        ttl
    } else {
        interval
    }
}

/// A player without role assignments waits at least as long for a refresh
/// as an active one, and six times the base interval when Enka's TTL is
/// shorter.
pub proof fn inactive_players_wait_longer(base_interval: int, enka_ttl: int)
    requires
        base_interval >= 0,
    ensures
        next_refresh_delay_for(base_interval, false, enka_ttl) >= next_refresh_delay_for(
            base_interval,
            true,
            enka_ttl,
        ),
        enka_ttl < base_interval * INACTIVE_MULTIPLIER ==> next_refresh_delay_for(
            base_interval,
            false,
            enka_ttl,
        ) == base_interval * INACTIVE_MULTIPLIER,
{
}

/// What the refresh worker does after a failed fetch.
#[derive(Debug, Clone, Copy, PartialEq, Eq, Structural)]
pub enum FailureResponse {
    /// Pause before the next request.
    Pause { sleep_secs: u64 },
    /// Push back every due refresh and pause: the game is in maintenance.
    Postpone { postpone_secs: i64, sleep_secs: u64 },
    /// Count a failure for this UID, which backs its next fetch off.
    CountFailure,
}

/// The response to a failed fetch: rate limits pause 5 seconds, maintenance
/// postpones everything by 10 minutes, other failures back the UID off.
pub fn failure_response(err: &EnkaError) -> (r: FailureResponse)
    ensures
        (*err is RateLimited) ==> r == (FailureResponse::Pause { sleep_secs: 5 }),
        (*err is Maintenance) ==> r == (FailureResponse::Postpone { postpone_secs: 600, sleep_secs: 600 }),
        !(*err is RateLimited) && !(*err is Maintenance) ==> r == FailureResponse::CountFailure,
{
    match err {
        EnkaError::RateLimited => FailureResponse::Pause { sleep_secs: 5 },
        EnkaError::Maintenance => FailureResponse::Postpone { postpone_secs: 600, sleep_secs: 600 },
        _ => FailureResponse::CountFailure,
    }
}

} // verus!
