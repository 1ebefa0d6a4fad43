//! What the server asks its SQLite database: the schema, the statement that
//! stores a report, and the queries behind the summaries, the user list and
//! the hourly timeline. Running them is left to the caller.

use vstd::prelude::*;

use crate::models::UserRecord;

verus! {

/// Run on every new connection: write-ahead logging, and a wait of up to five
/// seconds on a locked database.
pub const CONNECTION_PRAGMAS: &'static str = "PRAGMA journal_mode=WAL; PRAGMA busy_timeout=5000;";

/// Creates the report table and its indexes where they do not exist yet. A
/// report's `report_id` is unique, which is what turns a resent report into a
/// duplicate.
pub const SCHEMA_SQL: &'static str = "CREATE TABLE IF NOT EXISTS usage_reports (
                id INTEGER PRIMARY KEY AUTOINCREMENT,
                report_id TEXT NOT NULL UNIQUE,
                username TEXT NOT NULL,
                session_id TEXT NOT NULL,
                timestamp TEXT NOT NULL,
                model TEXT NOT NULL,
                input_tokens INTEGER NOT NULL,
                output_tokens INTEGER NOT NULL,
                cache_read_input_tokens INTEGER NOT NULL DEFAULT 0,
                cache_creation_input_tokens INTEGER NOT NULL DEFAULT 0,
                message_count INTEGER NOT NULL DEFAULT 0,
                tool_use_count INTEGER NOT NULL DEFAULT 0,
                usage_percent_5h REAL,
                usage_percent_7d REAL,
                received_at TEXT NOT NULL DEFAULT (datetime('now'))
            );
            CREATE INDEX IF NOT EXISTS idx_usage_username ON usage_reports(username);
            CREATE INDEX IF NOT EXISTS idx_usage_timestamp ON usage_reports(timestamp);
            CREATE INDEX IF NOT EXISTS idx_usage_session ON usage_reports(session_id);";

/// Stores a report, with its fields bound in the order `report_id, username,
/// session_id, timestamp, model, input_tokens, output_tokens,
/// cache_read_input_tokens, cache_creation_input_tokens, message_count,
/// tool_use_count, usage_percent_5h, usage_percent_7d`; a report whose id is
/// already stored is ignored.
pub const INSERT_REPORT_SQL: &'static str = "INSERT OR IGNORE INTO usage_reports (report_id, username, session_id, timestamp, model, input_tokens, output_tokens, cache_read_input_tokens, cache_creation_input_tokens, message_count, tool_use_count, usage_percent_5h, usage_percent_7d)
             VALUES (?1, ?2, ?3, ?4, ?5, ?6, ?7, ?8, ?9, ?10, ?11, ?12, ?13)";

/// Whether storing a report stored it, given how many rows the statement
/// [`INSERT_REPORT_SQL`] changed: none when the report was a duplicate.
pub fn report_stored(rows_changed: usize) -> (stored: bool)
    ensures
        stored == (rows_changed > 0),
{
    rows_changed > 0
}

/// The SQL expression for the start of a window: `5h`, `24h` and `7d` reach
/// that far back from now; any other window, `all` among them, reaches back
/// to the start of 1970, so covers every report.
pub open spec fn time_filter_of(window: Seq<char>) -> Seq<char> {
    if window == "5h"@ {
        "datetime('now', '-5 hours')"@
    } else if window == "24h"@ {
        "datetime('now', '-24 hours')"@
    } else if window == "7d"@ {
        "datetime('now', '-7 days')"@
    } else {
        "datetime('1970-01-01')"@
    }
}

/// The start of a window as an SQL expression; see [`time_filter_of`].
pub fn time_filter(window: &str) -> (filter: &'static str)
    ensures
        filter@ == time_filter_of(window@),
        window@ == "5h"@ ==> filter@ == "datetime('now', '-5 hours')"@,
        window@ == "24h"@ ==> filter@ == "datetime('now', '-24 hours')"@,
        window@ == "7d"@ ==> filter@ == "datetime('now', '-7 days')"@,
        window@ != "5h"@ && window@ != "24h"@ && window@ != "7d"@ ==> filter@
            == "datetime('1970-01-01')"@,
{
    proof {
        reveal_strlit("5h");
        reveal_strlit("24h");
        reveal_strlit("7d");
        assert("5h"@.len() == 2 && "24h"@.len() == 3 && "7d"@.len() == 2);
        assert("5h"@[0] != "7d"@[0]);
    }
    let w = String::from_str(window);
    if w == String::from_str("5h") {
        "datetime('now', '-5 hours')"
    } else if w == String::from_str("24h") {
        "datetime('now', '-24 hours')"
    } else if w == String::from_str("7d") {
        "datetime('now', '-7 days')"
    } else {
        "datetime('1970-01-01')"
    }
}

/// The part of the summary query before the window's start.
pub const SUMMARIES_QUERY_HEAD: &'static str = "SELECT r.username,
                    COALESCE(SUM(r.input_tokens), 0),
                    COALESCE(SUM(r.output_tokens), 0),
                    COALESCE(SUM(r.cache_read_input_tokens), 0),
                    COALESCE(SUM(r.cache_creation_input_tokens), 0),
                    COALESCE(SUM(r.message_count), 0),
                    COALESCE(SUM(r.tool_use_count), 0),
                    COUNT(*),
                    MAX(r.timestamp),
                    latest.pct_5h,
                    latest.pct_7d
             FROM usage_reports r
             LEFT JOIN (
                 SELECT username,
                        usage_percent_5h as pct_5h,
                        usage_percent_7d as pct_7d
                 FROM usage_reports
                 WHERE usage_percent_5h IS NOT NULL OR usage_percent_7d IS NOT NULL
                 GROUP BY username
                 HAVING timestamp = MAX(timestamp)
             ) latest ON r.username = latest.username
             WHERE r.timestamp > ";

/// The part of the summary query after the window's start: one row per user,
/// those closest to their 5-hour quota first, then those that used the most
/// tokens.
pub const SUMMARIES_QUERY_TAIL: &'static str = "
             GROUP BY r.username
             ORDER BY COALESCE(latest.pct_5h, 0) DESC, (SUM(r.input_tokens) + SUM(r.output_tokens)) DESC";

/// The query for the per-user summaries of a window. Its columns are, in
/// order, the fields of [`crate::models::UserSummary`].
pub fn user_summaries_query(window: &str) -> (query: String)
    ensures
        query@ == SUMMARIES_QUERY_HEAD@ + time_filter_of(window@) + SUMMARIES_QUERY_TAIL@,
{
    let mut query = String::from_str(SUMMARIES_QUERY_HEAD);
    query.append(time_filter(window));
    query.append(SUMMARIES_QUERY_TAIL);
    query
}

/// The `last_active` of a summary: the time of the user's last report in the
/// window, empty where the database gave none.
pub fn last_active_or_empty(last: Option<String>) -> (text: String)
    ensures
        text@ == match last {
            Some(s) => s@,
            None => Seq::<char>::empty(),
        },
{
    match last {
        Some(s) => s,
        None => String::new(),
    }
}

/// The query for the users that have sent reports, the most recently active
/// first: `username, last_active, total_reports`.
pub const USERS_QUERY: &'static str = "SELECT username, MAX(timestamp) as last_active, COUNT(*) as total_reports
             FROM usage_reports
             GROUP BY username
             ORDER BY last_active DESC";

/// The hourly query over the last seven days for one user, bound as `?1`.
pub const HOURLY_QUERY_FOR_USER: &'static str = "SELECT strftime('%Y-%m-%dT%H:00:00', timestamp) as hour,
                        username,
                        COALESCE(SUM(input_tokens), 0),
                        COALESCE(SUM(output_tokens), 0)
                 FROM usage_reports
                 WHERE timestamp > datetime('now', '-7 days') AND username = ?1
                 GROUP BY hour, username
                 ORDER BY hour";

/// The hourly query over the last seven days for all users.
pub const HOURLY_QUERY_ALL: &'static str = "SELECT strftime('%Y-%m-%dT%H:00:00', timestamp) as hour,
                        username,
                        COALESCE(SUM(input_tokens), 0),
                        COALESCE(SUM(output_tokens), 0)
                 FROM usage_reports
                 WHERE timestamp > datetime('now', '-7 days')
                 GROUP BY hour, username
                 ORDER BY hour";

/// The hourly query to run: the one for a single user where the request names
/// one (then bound to that name), else the one for all users. Its rows are
/// `(hour, username, input tokens, output tokens)`, by hour.
pub fn hourly_usage_query(user: Option<&str>) -> (query: &'static str)
    ensures
        query@ == (if user is Some {
            HOURLY_QUERY_FOR_USER@
        } else {
            HOURLY_QUERY_ALL@
        }),
{
    match user {
        Some(_) => HOURLY_QUERY_FOR_USER,
        None => HOURLY_QUERY_ALL,
    }
}

/// Creates the table of user accounts where it does not exist yet; every
/// account has a unique name and a unique access token.
pub const USERS_SCHEMA_SQL: &'static str = "CREATE TABLE IF NOT EXISTS users (
                id INTEGER PRIMARY KEY AUTOINCREMENT,
                username TEXT NOT NULL UNIQUE,
                is_admin INTEGER NOT NULL DEFAULT 0,
                token TEXT NOT NULL UNIQUE,
                created_at TEXT NOT NULL DEFAULT (datetime('now'))
            );";

/// Counts the admin accounts.
pub const COUNT_ADMINS_QUERY: &'static str = "SELECT COUNT(*) FROM users WHERE is_admin = 1";

/// Creates the first admin account, named `admin`, with the token bound as
/// `?1`.
pub const INSERT_FIRST_ADMIN_SQL: &'static str = "INSERT INTO users (username, is_admin, token) VALUES ('admin', 1, ?1)";

/// Whether the server has to create the first admin account at start-up,
/// given how many admin accounts there are: only when there is none.
pub fn admin_needed(admins: i64) -> (needed: bool)
    ensures
        needed == (admins == 0),
{
    admins == 0
}

/// Counts the accounts whose token is bound as `?1`.
pub const COUNT_TOKEN_QUERY: &'static str = "SELECT COUNT(*) FROM users WHERE token = ?1";

/// Counts the admin accounts whose token is bound as `?1`.
pub const COUNT_ADMIN_TOKEN_QUERY: &'static str = "SELECT COUNT(*) FROM users WHERE token = ?1 AND is_admin = 1";

/// Whether a token is known, given how many accounts the count query found
/// with it ([`COUNT_TOKEN_QUERY`], or [`COUNT_ADMIN_TOKEN_QUERY`] for an
/// admin's): when there is at least one.
pub fn token_found(matches: i64) -> (found: bool)
    ensures
        found == (matches > 0),
{
    matches > 0
}

/// Lists the accounts by id: `id, username, is_admin, created_at`; their
/// tokens are not shown.
pub const ALL_USERS_QUERY: &'static str = "SELECT id, username, is_admin, created_at FROM users ORDER BY id";

/// Creates an account, binding `username, is_admin, token` as `?1, ?2, ?3`.
pub const INSERT_USER_SQL: &'static str = "INSERT INTO users (username, is_admin, token) VALUES (?1, ?2, ?3)";

/// Reads when the account whose id is bound as `?1` was created.
pub const USER_CREATED_AT_QUERY: &'static str = "SELECT created_at FROM users WHERE id = ?1";

/// The record of an account just created: its fields, with the new token
/// shown this once.
pub fn created_user(id: i64, username: String, is_admin: bool, created_at: String, token: String) -> (user: UserRecord)
    ensures
        user.id == id,
        user.username == username,
        user.is_admin == is_admin,
        user.created_at == created_at,
        user.token == Some(token),
{
    UserRecord { id, username, is_admin, created_at, token: Some(token) }
}

/// Deletes the account whose id is bound as `?1`.
pub const DELETE_USER_SQL: &'static str = "DELETE FROM users WHERE id = ?1";

/// Whether an account was deleted, given how many rows [`DELETE_USER_SQL`]
/// changed: none when no account had the id.
pub fn user_deleted(rows_changed: usize) -> (deleted: bool)
    ensures
        deleted == (rows_changed > 0),
{
    rows_changed > 0
}

/// Gives the account whose id is bound as `?2` the token bound as `?1`.
pub const UPDATE_TOKEN_SQL: &'static str = "UPDATE users SET token = ?1 WHERE id = ?2";

/// The outcome of renewing a token, given how many rows [`UPDATE_TOKEN_SQL`]
/// changed and the token it wrote: the token when an account had the id,
/// `None` when none had.
pub fn renewed_token(rows_changed: usize, token: String) -> (renewed: Option<String>)
    ensures
        renewed == (if rows_changed > 0 {
            Some(token)
        } else {
            None
        }),
{
    if rows_changed > 0 {
        Some(token)
    } else {
        None
    }
}

/// The admin figures, each a single number: accounts, reports, tokens
/// processed (input and output), users active in the last five hours and in
/// the last seven days, and the size of the database in bytes.
pub const STATS_USERS_QUERY: &'static str = "SELECT COUNT(*) FROM users";

/// See [`STATS_USERS_QUERY`].
pub const STATS_REPORTS_QUERY: &'static str = "SELECT COUNT(*) FROM usage_reports";

/// See [`STATS_USERS_QUERY`].
pub const STATS_TOKENS_QUERY: &'static str = "SELECT COALESCE(SUM(input_tokens + output_tokens), 0) FROM usage_reports";

/// See [`STATS_USERS_QUERY`].
pub const STATS_ACTIVE_5H_QUERY: &'static str = "SELECT COUNT(DISTINCT username) FROM usage_reports WHERE timestamp > datetime('now', '-5 hours')";

/// See [`STATS_USERS_QUERY`].
pub const STATS_ACTIVE_7D_QUERY: &'static str = "SELECT COUNT(DISTINCT username) FROM usage_reports WHERE timestamp > datetime('now', '-7 days')";

/// See [`STATS_USERS_QUERY`].
pub const STATS_DB_SIZE_QUERY: &'static str = "SELECT page_count * page_size FROM pragma_page_count(), pragma_page_size()";

} // verus!
