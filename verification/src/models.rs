//! The values that travel between the server and its clients, and the HTTP
//! status codes that the server answers with.

use vstd::prelude::*;

verus! {

/// `201 Created`.
pub const STATUS_CREATED: u16 = 201;
/// `204 No Content`.
pub const STATUS_NO_CONTENT: u16 = 204;
/// `400 Bad Request`.
pub const STATUS_BAD_REQUEST: u16 = 400;
/// `401 Unauthorized`.
pub const STATUS_UNAUTHORIZED: u16 = 401;
/// `403 Forbidden`.
pub const STATUS_FORBIDDEN: u16 = 403;
/// `404 Not Found`.
pub const STATUS_NOT_FOUND: u16 = 404;
/// `409 Conflict`.
pub const STATUS_CONFLICT: u16 = 409;
/// `500 Internal Server Error`.
pub const STATUS_INTERNAL_SERVER_ERROR: u16 = 500;

/// A registered user as the admin endpoints show it.
#[derive(Debug, Clone)]
pub struct UserRecord {
    pub id: i64,
    pub username: String,
    pub is_admin: bool,
    pub created_at: String,
    /// The personal access token; only shown when it was just issued.
    pub token: Option<String>,
}

/// The body of a request that creates a user.
#[derive(Debug, Clone)]
pub struct CreateUserRequest {
    pub username: String,
    pub is_admin: bool,
}

/// Figures about the whole server, for admins.
#[derive(Debug, Clone)]
pub struct AdminStats {
    pub total_users: i64,
    pub total_reports: i64,
    pub total_tokens_processed: i64,
    pub active_users_5h: i64,
    pub active_users_7d: i64,
    pub db_size_bytes: i64,
}

/// The answer to a usage report, and to a request that a gate refused.
#[derive(Debug, Clone)]
pub struct ReportResponse {
    pub status: String,
    pub message: Option<String>,
}

/// The usage of one user over a time window.
///
/// The latest quota percentages are kept as the IEEE-754 bit patterns of the
/// `f64` values that the clients reported (`f64::to_bits`), so that they are
/// carried through unchanged.
#[derive(Debug, Clone)]
pub struct UserSummary {
    pub username: String,
    pub total_input_tokens: i64,
    pub total_output_tokens: i64,
    pub total_cache_read_tokens: i64,
    pub total_cache_creation_tokens: i64,
    pub total_messages: i64,
    pub total_tool_uses: i64,
    pub report_count: i64,
    pub last_active: String,
    pub latest_percent_5h_bits: Option<u64>,
    pub latest_percent_7d_bits: Option<u64>,
}

/// The summaries of the two windows that the dashboard shows.
#[derive(Debug, Clone)]
pub struct SummaryResponse {
    pub window_5h: Vec<UserSummary>,
    pub window_7d: Vec<UserSummary>,
}

/// The query string of the usage and hourly endpoints.
#[derive(Debug, Clone)]
pub struct UsageQuery {
    pub window: Option<String>,
    pub user: Option<String>,
}

/// `body` has the given status word and message.
pub open spec fn reply_is(body: ReportResponse, status: Seq<char>, message: Option<Seq<char>>) -> bool {
    &&& body.status@ == status
    &&& match (body.message, message) {
        (None, None) => true,
        (Some(m), Some(expected)) => m@ == expected,
        _ => false,
    }
}

/// Law: `reply_is` says exactly that the body carries the given status word,
/// and a message exactly when one is expected, with that text.
pub proof fn lemma_reply_is_status_and_message(
    body: ReportResponse,
    status: Seq<char>,
    message: Option<Seq<char>>,
)
    ensures
        reply_is(body, status, message) <==> (body.status@ == status && (body.message is Some
            <==> message is Some) && (body.message matches Some(m) ==> message == Some(m@))),
{
}

/// A user that has sent reports.
#[derive(Debug, Clone)]
pub struct UserInfo {
    pub username: String,
    pub last_active: String,
    pub total_reports: i64,
}

} // verus!
