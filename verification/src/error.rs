//! Errors of the service, and the HTTP answer each one gets.
use vstd::prelude::*;

verus! {

/// An error of the service.
#[derive(Debug)]
pub enum AppError {
    /// A database failure, with the database's message.
    Database(String),
    Enka(EnkaError),
    RoleLogic(String),
    UserLimitReached { limit: usize },
    BadRequest(String),
    Unauthorized,
    NotFound(String),
    VerificationFailed(String),
    Internal(String),
}

/// An error from the Enka.Network API.
#[derive(Debug)]
pub enum EnkaError {
    BadUid,
    NotFound,
    Maintenance,
    RateLimited,
    Server(u16),
    /// A transport failure, with the HTTP client's message.
    Network(String),
}

pub const MSG_INTERNAL: &'static str = "Internal server error";

pub const MSG_BAD_UID: &'static str = "Invalid UID. Please check and try again.";

pub const MSG_PLAYER_NOT_FOUND: &'static str =
    "Player not found. Make sure your UID is correct and your profile is public.";

pub const MSG_RATE_LIMITED: &'static str = "Too many requests. Please wait a moment and try again.";

pub const MSG_MAINTENANCE: &'static str =
    "Game data is temporarily unavailable (maintenance). Please try again later.";

pub const MSG_ENKA_FAILED: &'static str = "Failed to fetch player data. Please try again later.";

pub const MSG_SYNC_FAILED: &'static str = "Failed to sync roles";

pub const MSG_USER_LIMIT: &'static str = "Role link user limit reached";

pub const MSG_UNAUTHORIZED: &'static str = "Invalid or missing authorization";

/// The HTTP status that answers an error.
pub open spec fn error_status(e: AppError) -> u16 {
    match e {
        AppError::Database(_) => 500,
        AppError::Enka(EnkaError::BadUid) => 400,
        AppError::Enka(EnkaError::NotFound) => 404,
        AppError::Enka(EnkaError::RateLimited) => 429,
        AppError::Enka(EnkaError::Maintenance) => 503,
        AppError::Enka(_) => 502,
        AppError::RoleLogic(_) => 502,
        AppError::UserLimitReached { .. } => 403,
        AppError::BadRequest(_) => 400,
        AppError::Unauthorized => 401,
        AppError::NotFound(_) => 404,
        AppError::VerificationFailed(_) => 422,
        AppError::Internal(_) => 500,
    }
}

/// The message shown to the client for an error: the error's own message
/// for the errors a client caused, a fixed text otherwise.
pub open spec fn error_message(e: AppError) -> Seq<char> {
    match e {
        AppError::Database(_) => MSG_INTERNAL@,
        AppError::Enka(EnkaError::BadUid) => MSG_BAD_UID@,
        AppError::Enka(EnkaError::NotFound) => MSG_PLAYER_NOT_FOUND@,
        AppError::Enka(EnkaError::RateLimited) => MSG_RATE_LIMITED@,
        AppError::Enka(EnkaError::Maintenance) => MSG_MAINTENANCE@,
        AppError::Enka(_) => MSG_ENKA_FAILED@,
        AppError::RoleLogic(_) => MSG_SYNC_FAILED@,
        AppError::UserLimitReached { .. } => MSG_USER_LIMIT@,
        AppError::BadRequest(msg) => msg@,
        AppError::Unauthorized => MSG_UNAUTHORIZED@,
        AppError::NotFound(msg) => msg@,
        AppError::VerificationFailed(msg) => msg@,
        AppError::Internal(_) => MSG_INTERNAL@,
    }
}

impl AppError {
    /// The status code and the client-facing message of the error response.
    pub fn response_parts(&self) -> (r: (u16, String))
        ensures
            r.0 == error_status(*self),
            r.1@ == error_message(*self),
    {
        match self {
            AppError::Database(_) => (500, String::from_str(MSG_INTERNAL)),
            AppError::Enka(EnkaError::BadUid) => (400, String::from_str(MSG_BAD_UID)),
            AppError::Enka(EnkaError::NotFound) => (404, String::from_str(MSG_PLAYER_NOT_FOUND)),
            AppError::Enka(EnkaError::RateLimited) => (429, String::from_str(MSG_RATE_LIMITED)),
            AppError::Enka(EnkaError::Maintenance) => (503, String::from_str(MSG_MAINTENANCE)),
            AppError::Enka(_) => (502, String::from_str(MSG_ENKA_FAILED)),
            AppError::RoleLogic(_) => (502, String::from_str(MSG_SYNC_FAILED)),
            AppError::UserLimitReached { .. } => (403, String::from_str(MSG_USER_LIMIT)),
            AppError::BadRequest(msg) => (400, msg.clone()),
            AppError::Unauthorized => (401, String::from_str(MSG_UNAUTHORIZED)),
            AppError::NotFound(msg) => (404, msg.clone()),
            AppError::VerificationFailed(msg) => (422, msg.clone()),
            AppError::Internal(_) => (500, String::from_str(MSG_INTERNAL)),
        }
    }

    /// A `BadRequest` with the given message.
    pub fn bad_request(msg: &str) -> (r: AppError)
        ensures
            r is BadRequest,
            r->BadRequest_0@ == msg@,
    {
        AppError::BadRequest(String::from_str(msg))
    }
}

/// Errors the server answers with status 500 or 502 are never the client's
/// fault: their message is one of the fixed texts.
pub proof fn server_errors_hide_details(e: AppError)
    ensures
        error_status(e) >= 500 ==> error_message(e) == MSG_INTERNAL@ || error_message(e)
            == MSG_MAINTENANCE@ || error_message(e) == MSG_ENKA_FAILED@ || error_message(e)
            == MSG_SYNC_FAILED@,
{
}

} // verus!
