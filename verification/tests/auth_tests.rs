use quota_monitor::auth::{
    extract_token, generate_pat, pat_from_draws, require_admin, require_auth, AccessDenied, PAT_CHARS, PAT_LENGTH,
};

#[test]
fn pat_has_forty_eight_alphanumeric_chars() {
    let pat = generate_pat();
    assert_eq!(pat.chars().count(), PAT_LENGTH);
    assert_eq!(PAT_LENGTH, 48);
    assert!(pat.chars().all(|c| PAT_CHARS.contains(c)));
    assert!(pat.chars().all(|c| c.is_ascii_alphanumeric()));
}

#[test]
fn pat_alphabet_is_letters_and_digits() {
    assert_eq!(PAT_CHARS.len(), 62);
    assert!(PAT_CHARS.chars().all(|c| c.is_ascii_alphanumeric()));
}

#[test]
fn pats_are_drawn_at_random() {
    let a = generate_pat();
    let b = generate_pat();
    assert_ne!(a, b);
    let distinct: std::collections::HashSet<char> = a.chars().collect();
    assert!(distinct.len() > 1);
}

#[test]
fn bearer_token_is_extracted() {
    assert_eq!(extract_token(Some("Bearer abc123")), Some("abc123"));
    assert_eq!(extract_token(Some("Bearer ")), Some(""));
}

#[test]
fn bearer_round_trip_on_a_generated_token() {
    let pat = generate_pat();
    let header = format!("Bearer {}", pat);
    assert_eq!(extract_token(Some(&header)), Some(pat.as_str()));
}

#[test]
fn other_headers_carry_no_token() {
    assert_eq!(extract_token(None), None);
    assert_eq!(extract_token(Some("bearer abc")), None);
    assert_eq!(extract_token(Some("Basic abc")), None);
    assert_eq!(extract_token(Some("Bearer")), None);
    assert_eq!(extract_token(Some("")), None);
    assert_eq!(extract_token(Some("BearerX abc")), None);
}

#[test]
fn auth_gate_passes_only_valid_tokens() {
    assert_eq!(require_auth(Some(Ok(true))), Ok(()));
    assert_eq!(require_auth(Some(Ok(false))), Err(AccessDenied::Unauthorized));
    assert_eq!(require_auth(Some(Err("db down".to_string()))), Err(AccessDenied::Unauthorized));
    assert_eq!(require_auth(None), Err(AccessDenied::Unauthorized));
}

#[test]
fn admin_gate_forbids_non_admin_tokens() {
    assert_eq!(require_admin(Some(Ok(true))), Ok(()));
    assert_eq!(require_admin(Some(Ok(false))), Err(AccessDenied::Forbidden));
    assert_eq!(require_admin(Some(Err("db down".to_string()))), Err(AccessDenied::Forbidden));
    assert_eq!(require_admin(None), Err(AccessDenied::Unauthorized));
}

#[test]
fn refusals_have_their_status_and_body() {
    let u = AccessDenied::Unauthorized;
    assert_eq!(u.status(), 401);
    let body = u.body();
    assert_eq!(body.status, "unauthorized");
    assert_eq!(body.message.as_deref(), Some("Invalid or missing Bearer token"));
    let f = AccessDenied::Forbidden;
    assert_eq!(f.status(), 403);
    let body = f.body();
    assert_eq!(body.status, "forbidden");
    assert_eq!(body.message.as_deref(), Some("Admin access required"));
}

#[test]
fn draws_spell_out_the_token() {
    assert_eq!(pat_from_draws(&vec![0, 26, 52, 61]), "aA09");
    assert_eq!(pat_from_draws(&vec![]), "");
    assert_eq!(pat_from_draws(&vec![25, 25]), "zz");
}
