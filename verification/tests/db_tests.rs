use quota_monitor::db::{
    hourly_usage_query, last_active_or_empty, report_stored, time_filter, user_summaries_query,
    HOURLY_QUERY_ALL, HOURLY_QUERY_FOR_USER, SUMMARIES_QUERY_HEAD, SUMMARIES_QUERY_TAIL,
};
use quota_monitor::dashboard::dashboard_html;

#[test]
fn windows_map_to_their_start() {
    assert_eq!(time_filter("5h"), "datetime('now', '-5 hours')");
    assert_eq!(time_filter("24h"), "datetime('now', '-24 hours')");
    assert_eq!(time_filter("7d"), "datetime('now', '-7 days')");
    assert_eq!(time_filter("all"), "datetime('1970-01-01')");
    assert_eq!(time_filter(""), "datetime('1970-01-01')");
    assert_eq!(time_filter("5H"), "datetime('1970-01-01')");
}

#[test]
fn summary_query_embeds_the_window() {
    let q = user_summaries_query("7d");
    assert_eq!(q, format!("{}{}{}", SUMMARIES_QUERY_HEAD, "datetime('now', '-7 days')", SUMMARIES_QUERY_TAIL));
    assert!(q.contains("WHERE r.timestamp > datetime('now', '-7 days')\n"));
    assert!(q.ends_with("DESC"));
}

#[test]
fn hourly_query_depends_on_the_user() {
    assert_eq!(hourly_usage_query(Some("alice")), HOURLY_QUERY_FOR_USER);
    assert_eq!(hourly_usage_query(None), HOURLY_QUERY_ALL);
    assert!(HOURLY_QUERY_FOR_USER.contains("username = ?1"));
}

#[test]
fn stored_means_a_row_changed() {
    assert!(report_stored(1));
    assert!(!report_stored(0));
}

#[test]
fn missing_last_active_is_empty() {
    assert_eq!(last_active_or_empty(None), "");
    assert_eq!(last_active_or_empty(Some("t".to_string())), "t");
}

#[test]
fn dashboard_is_a_whole_page() {
    let page = dashboard_html();
    assert!(page.starts_with("<!DOCTYPE html>"));
    assert!(page.ends_with("</html>"));
    assert!(page.contains("Quota Monitor"));
    assert!(page.contains("/api/summary"));
}

#[test]
fn first_admin_only_when_none_exists() {
    assert!(quota_monitor::db::admin_needed(0));
    assert!(!quota_monitor::db::admin_needed(1));
}

#[test]
fn token_known_when_counted() {
    assert!(quota_monitor::db::token_found(1));
    assert!(!quota_monitor::db::token_found(0));
}

#[test]
fn account_deletion_and_renewal_follow_changed_rows() {
    assert!(quota_monitor::db::user_deleted(1));
    assert!(!quota_monitor::db::user_deleted(0));
    assert_eq!(quota_monitor::db::renewed_token(1, "t".to_string()), Some("t".to_string()));
    assert_eq!(quota_monitor::db::renewed_token(0, "t".to_string()), None);
}

#[test]
fn created_user_shows_its_token() {
    let u = quota_monitor::db::created_user(3, "bob".to_string(), true, "now".to_string(), "tok".to_string());
    assert_eq!(u.id, 3);
    assert_eq!(u.username, "bob");
    assert!(u.is_admin);
    assert_eq!(u.created_at, "now");
    assert_eq!(u.token.as_deref(), Some("tok"));
}

#[test]
fn dashboard_colours_ninety_percent_orange() {
    let page = dashboard_html();
    assert!(page.contains("if (pct <= 90) return 'orange';"));
    assert!(page.contains("if (pct <= 90) return 'HIGH';"));
    assert!(!page.contains("pct < 90"));
}
