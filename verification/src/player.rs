//! Player data as the role logic reads it, and the stored rows about players
//! and role links. Instants are Unix timestamps in seconds.
use vstd::prelude::*;

use crate::condition::Condition;
use crate::json::{JsonValue, lookup, JsonValueView, entries_view};

verus! {

/// The entries of a JSON object. An element that is not an object has no
/// entries: every lookup in it gives `Null`, as indexing a non-object does.
pub type JsonObject = Vec<(String, JsonValue)>;

/// A player's public profile, as Enka.Network reports it.
#[derive(Debug)]
pub struct PlayerInfo {
    /// The top-level entries of the profile object.
    pub fields: JsonObject,
    /// `showAvatarInfoList`, when it holds an array: one object per
    /// showcased character.
    pub show_avatar_info_list: Option<Vec<JsonObject>>,
    /// `showNameCardIdList`, when it holds an array.
    pub show_name_card_id_list: Option<Vec<JsonValue>>,
}

impl PlayerInfo {
    /// The value under a top-level key.
    pub open spec fn field(&self, key: Seq<char>) -> JsonValueView {
        lookup(entries_view(self.fields@), key)
    }

    /// A profile with nothing in it.
    pub fn empty() -> (r: PlayerInfo)
        ensures
            r.fields@.len() == 0,
            r.show_avatar_info_list is None,
            r.show_name_card_id_list is None,
    {
        PlayerInfo { fields: Vec::new(), show_avatar_info_list: None, show_name_card_id_list: None }
    }
}

/// A Discord account linked to a Genshin UID.
#[derive(Debug)]
pub struct LinkedAccount {
    pub id: i64,
    pub discord_id: String,
    pub uid: String,
    pub linked_at: i64,
}

/// The cached profile of a UID and its refresh schedule.
#[derive(Debug)]
pub struct PlayerCache {
    pub uid: String,
    pub player_info: PlayerInfo,
    pub region: Option<String>,
    pub enka_ttl: i32,
    pub fetched_at: i64,
    pub next_fetch_at: i64,
    pub fetch_failures: i32,
}

/// A guild role whose members are chosen by conditions.
#[derive(Debug)]
pub struct RoleLink {
    pub id: i64,
    pub guild_id: String,
    pub role_id: String,
    pub api_token: String,
    pub conditions: Vec<Condition>,
    pub created_at: i64,
    pub updated_at: i64,
}

} // verus!
