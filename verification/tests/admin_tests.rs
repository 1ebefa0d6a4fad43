use quota_monitor::admin::{create_user, delete_user, list_users, regenerate_token, stats};
use quota_monitor::models::{AdminStats, UserRecord};

fn record() -> UserRecord {
    UserRecord {
        id: 7,
        username: "alice".to_string(),
        is_admin: false,
        created_at: "2026-03-02 12:00:00".to_string(),
        token: Some("tok".to_string()),
    }
}

#[test]
fn listing_users() {
    assert_eq!(list_users(Ok(vec![record()])).unwrap()[0].id, 7);
    assert_eq!(list_users(Err("e".to_string())).unwrap_err(), (500, "e".to_string()));
}

#[test]
fn creating_a_user() {
    let (code, user) = create_user(Ok(record())).unwrap();
    assert_eq!(code, 201);
    assert_eq!(user.username, "alice");
    assert_eq!(user.token.as_deref(), Some("tok"));
    assert_eq!(
        create_user(Err("UNIQUE constraint failed".to_string())).unwrap_err(),
        (400, "UNIQUE constraint failed".to_string())
    );
}

#[test]
fn deleting_a_user() {
    assert_eq!(delete_user(Ok(true)), Ok(204));
    assert_eq!(delete_user(Ok(false)), Err((404, "User not found".to_string())));
    assert_eq!(delete_user(Err("e".to_string())), Err((500, "e".to_string())));
}

#[test]
fn regenerating_a_token() {
    assert_eq!(regenerate_token(Ok(Some("new".to_string()))), Ok("new".to_string()));
    assert_eq!(regenerate_token(Ok(None)), Err((404, "User not found".to_string())));
    assert_eq!(regenerate_token(Err("e".to_string())), Err((500, "e".to_string())));
}

#[test]
fn admin_stats() {
    let s = AdminStats {
        total_users: 2,
        total_reports: 5,
        total_tokens_processed: 1000,
        active_users_5h: 1,
        active_users_7d: 2,
        db_size_bytes: 4096,
    };
    assert_eq!(stats(Ok(s)).unwrap().total_tokens_processed, 1000);
    assert_eq!(stats(Err("e".to_string())).unwrap_err(), (500, "e".to_string()));
}
