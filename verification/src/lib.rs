//! Role assignment logic for linking Discord accounts with Genshin Impact
//! player data: condition evaluation, configuration parsing, account
//! verification rules and synchronisation planning.
pub mod text;
pub mod json;
pub mod condition;
pub mod calendar;
pub mod player;
pub mod condition_eval;
pub mod error;
pub mod schema;
pub mod sync;
pub mod verification;
pub mod config;
pub mod enka;
pub mod refresh;
