//! Reading answers of the Enka.Network API.
use vstd::prelude::*;

use crate::error::EnkaError;
use crate::json::{JsonValue, JsonValueView, Entries, entries_view, lookup, map_get, get_entry, or_i64};
use crate::player::PlayerInfo;
use crate::schema::concat3;

verus! {

/// What a profile request yields.
#[derive(Debug)]
pub struct EnkaResponse {
    pub player_info: PlayerInfo,
    pub region: Option<String>,
    pub ttl: i32,
}

/// The address of a UID's profile.
pub fn player_info_url(uid: &str) -> (r: String)
    ensures
        r@ == "https://enka.network/api/uid/"@ + uid@ + "/?info"@,
{
    concat3("https://enka.network/api/uid/", uid, "/?info")
}

/// The error an HTTP status stands for, if any.
pub open spec fn status_error(code: u16) -> Option<EnkaError> {
    if code == 200 {
        None
    } else if code == 400 {
        Some(EnkaError::BadUid)
    } else if code == 404 {
        Some(EnkaError::NotFound)
    } else if code == 424 {
        Some(EnkaError::Maintenance)
    } else if code == 429 {
        Some(EnkaError::RateLimited)
    } else {
        Some(EnkaError::Server(code))
    }
}

/// Classifies the HTTP status of a profile request.
pub fn check_status(code: u16) -> (r: Result<(), EnkaError>)
    ensures
        match status_error(code) {
            None => r is Ok,
            Some(e) => r is Err && r->Err_0 == e,
        },
{
    match code {
        200 => Ok(()),
        400 => Err(EnkaError::BadUid),
        404 => Err(EnkaError::NotFound),
        424 => Err(EnkaError::Maintenance),
        429 => Err(EnkaError::RateLimited),
        code => Err(EnkaError::Server(code)),
    }
}

/// The TTL Enka's answer reports when it has none.
pub const DEFAULT_ENKA_TTL: i64 = 60;

/// The cache TTL of an answer: its `ttl` when that is an integer (cut to 32
/// bits as `as i32` does), 60 otherwise.
pub open spec fn body_ttl(body: Entries) -> i32 {
    let t = match map_get(body, "ttl"@) {
        Some(v) => or_i64(v.as_i64(), DEFAULT_ENKA_TTL),
        None => DEFAULT_ENKA_TTL,
    };
    t as i32
}

/// The region an answer reports, if it holds a string.
pub open spec fn body_region(body: Entries) -> Option<Seq<char>> {
    match map_get(body, "region"@) {
        Some(v) => v.as_str(),
        None => None,
    }
}

/// Reads a successful answer: the top-level entries of its body, and its
/// `playerInfo` (an empty profile when absent).
pub fn response_from_body(body: &Vec<(String, JsonValue)>, player_info: PlayerInfo) -> (r: EnkaResponse)
    ensures
        r.player_info == player_info,
        r.region is Some == body_region(entries_view(body@)) is Some,
        r.region matches Some(s) ==> s@ == body_region(entries_view(body@))->0,
        r.ttl == body_ttl(entries_view(body@)),
{
    let region: Option<String> = match get_entry(body, "region") {
        Some(v) => match v.as_str() {
            Some(s) => Some(String::from_str(s)),
            None => None,
        },
        None => None,
    };
    let t: i64 = match get_entry(body, "ttl") {
        Some(v) => match v.as_i64() {
            Some(x) => x,
            None => DEFAULT_ENKA_TTL,
        },
        None => DEFAULT_ENKA_TTL,
    };
    EnkaResponse { player_info, region, ttl: t as i32 }
}

} // verus!
