use quota_monitor::api::{
    hourly_handler, report_handler, summary_first_window, summary_handler, summary_second_window, summary_start, usage_handler, usage_window, users_handler,
};
use quota_monitor::db::report_stored;
use quota_monitor::models::{UsageQuery, UserInfo, UserSummary};

fn summary(name: &str, input: i64) -> UserSummary {
    UserSummary {
        username: name.to_string(),
        total_input_tokens: input,
        total_output_tokens: 1,
        total_cache_read_tokens: 2,
        total_cache_creation_tokens: 3,
        total_messages: 4,
        total_tool_uses: 5,
        report_count: 6,
        last_active: "2026-03-02T12:00:00Z".to_string(),
        latest_percent_5h_bits: Some(42.3f64.to_bits()),
        latest_percent_7d_bits: None,
    }
}

fn query(window: Option<&str>, user: Option<&str>) -> UsageQuery {
    UsageQuery { window: window.map(|w| w.to_string()), user: user.map(|u| u.to_string()) }
}

#[test]
fn new_report_is_created() {
    let (code, body) = report_handler(Ok(true)).unwrap();
    assert_eq!(code, 201);
    assert_eq!(body.status, "created");
    assert!(body.message.is_none());
}

#[test]
fn duplicate_report_is_a_conflict() {
    let (code, body) = report_handler(Ok(false)).unwrap_err();
    assert_eq!(code, 409);
    assert_eq!(body.status, "duplicate");
    assert_eq!(body.message.as_deref(), Some("Report already exists"));
}

#[test]
fn resent_report_is_created_then_duplicate() {
    // The first insert changes one row, the resent one none.
    assert_eq!(report_handler(Ok(report_stored(1))).unwrap().0, 201);
    assert_eq!(report_handler(Ok(report_stored(0))).unwrap_err().0, 409);
}

#[test]
fn failed_store_is_an_error() {
    let (code, body) = report_handler(Err("disk full".to_string())).unwrap_err();
    assert_eq!(code, 500);
    assert_eq!(body.status, "error");
    assert_eq!(body.message.as_deref(), Some("disk full"));
}

#[test]
fn users_pass_through_or_fail() {
    let users = vec![UserInfo {
        username: "alice".to_string(),
        last_active: "2026-03-02T12:00:00Z".to_string(),
        total_reports: 3,
    }];
    let got = users_handler(Ok(users)).unwrap();
    assert_eq!(got.len(), 1);
    assert_eq!(got[0].username, "alice");
    assert_eq!(got[0].total_reports, 3);
    assert_eq!(users_handler(Err("boom".to_string())).unwrap_err(), (500, "boom".to_string()));
}

#[test]
fn usage_window_defaults_to_five_hours() {
    assert_eq!(usage_window(&query(None, None)), "5h");
    assert_eq!(usage_window(&query(Some("7d"), None)), "7d");
    assert_eq!(usage_window(&query(Some("all"), Some("bob"))), "all");
}

#[test]
fn usage_keeps_only_the_named_user_in_order() {
    let rows = vec![summary("alice", 10), summary("bob", 20), summary("alice", 30)];
    let got = usage_handler(&query(None, Some("alice")), Ok(rows)).unwrap();
    assert_eq!(got.len(), 2);
    assert_eq!(got[0].username, "alice");
    assert_eq!(got[0].total_input_tokens, 10);
    assert_eq!(got[1].total_input_tokens, 30);
    assert_eq!(got[0].latest_percent_5h_bits, Some(42.3f64.to_bits()));
}

#[test]
fn usage_without_user_keeps_all() {
    let rows = vec![summary("alice", 10), summary("bob", 20)];
    let got = usage_handler(&query(Some("24h"), None), Ok(rows)).unwrap();
    assert_eq!(got.len(), 2);
    assert_eq!(got[1].username, "bob");
}

#[test]
fn usage_of_unknown_user_is_empty() {
    let rows = vec![summary("alice", 10)];
    let got = usage_handler(&query(None, Some("carol")), Ok(rows)).unwrap();
    assert!(got.is_empty());
}

#[test]
fn usage_filter_is_idempotent() {
    let rows = vec![summary("alice", 10), summary("bob", 20), summary("alice", 30)];
    let q = query(None, Some("bob"));
    let once = usage_handler(&q, Ok(rows)).unwrap();
    let twice = usage_handler(&q, Ok(once.clone())).unwrap();
    assert_eq!(once.len(), twice.len());
    assert_eq!(twice[0].total_input_tokens, 20);
}

#[test]
fn usage_failure_is_an_error() {
    assert_eq!(
        usage_handler(&query(None, None), Err("locked".to_string())).unwrap_err(),
        (500, "locked".to_string())
    );
}

#[test]
fn summary_holds_both_windows() {
    let a = summary_start(Ok(vec![summary("alice", 1)])).unwrap();
    let r = summary_handler(a, Ok(vec![summary("alice", 1), summary("bob", 2)])).unwrap();
    assert_eq!(r.window_5h.len(), 1);
    assert_eq!(r.window_7d.len(), 2);
    assert_eq!(r.window_7d[1].username, "bob");
}

#[test]
fn summary_stops_at_a_failed_five_hour_window() {
    assert_eq!(summary_start(Err("a".to_string())).unwrap_err(), (500, "a".to_string()));
}

#[test]
fn summary_reports_a_failed_week_window() {
    assert_eq!(
        summary_handler(vec![], Err("b".to_string())).unwrap_err(),
        (500, "b".to_string())
    );
}

#[test]
fn hourly_rows_become_usages() {
    let rows = vec![
        ("2026-03-02T12:00:00".to_string(), "alice".to_string(), 100, 20),
        ("2026-03-02T13:00:00".to_string(), "bob".to_string(), 5, 7),
    ];
    let got = hourly_handler(Ok(rows)).unwrap();
    assert_eq!(got.len(), 2);
    assert_eq!(got[0].hour, "2026-03-02T12:00:00");
    assert_eq!(got[0].username, "alice");
    assert_eq!(got[0].input_tokens, 100);
    assert_eq!(got[0].output_tokens, 20);
    assert_eq!(got[1].username, "bob");
    assert_eq!(got[1].output_tokens, 7);
    assert_eq!(hourly_handler(Err("x".to_string())).unwrap_err(), (500, "x".to_string()));
    assert!(hourly_handler(Ok(vec![])).unwrap().is_empty());
}

#[test]
fn summary_asks_five_hours_then_seven_days() {
    assert_eq!(summary_first_window(), "5h");
    assert_eq!(summary_second_window(), "7d");
}
