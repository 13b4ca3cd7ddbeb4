use askreditor::models::{
    build_saved_session, is_deep_link, SupabaseSession, UserResponse, DEEP_LINK_EVENT, TOKEN_FILE_NAME,
};

#[test]
fn new_session_is_signed_out() {
    let s = SupabaseSession::new();
    assert_eq!(s.access_token, None);
    assert_eq!(s.refresh_token, None);
    assert_eq!(s.current_access_token(), None);
}

#[test]
fn set_tokens_then_read_back() {
    let mut s = SupabaseSession::new();
    s.set_tokens("acc".to_string(), "ref".to_string());
    assert_eq!(s.current_access_token(), Some("acc".to_string()));
    assert_eq!(s.refresh_token, Some("ref".to_string()));
    s.set_tokens("acc2".to_string(), "ref2".to_string());
    assert_eq!(s.current_access_token(), Some("acc2".to_string()));
    assert_eq!(s.refresh_token, Some("ref2".to_string()));
}

#[test]
fn clear_after_set_signs_out() {
    let mut s = SupabaseSession::new();
    s.set_tokens("acc".to_string(), "ref".to_string());
    s.clear();
    assert_eq!(s.access_token, None);
    assert_eq!(s.refresh_token, None);
}

#[test]
fn saved_session_record() {
    let user = UserResponse { id: "u1".to_string(), email: Some("a@b.c".to_string()), user_metadata: None };
    let saved = build_saved_session("acc", "ref", &user);
    assert_eq!(saved.access_token, "acc");
    assert_eq!(saved.refresh_token, "ref");
    assert_eq!(saved.token_type, "bearer");
    assert_eq!(saved.expires_in, 3600);
    assert_eq!(saved.user.id, "u1");
    assert_eq!(saved.user.email, Some("a@b.c".to_string()));
}

#[test]
fn saved_session_without_email() {
    let user = UserResponse {
        id: "u2".to_string(),
        email: None,
        user_metadata: Some(serde_json::Value::Bool(true)),
    };
    let saved = build_saved_session("", "", &user);
    assert_eq!(saved.user.email, None);
    assert_eq!(saved.user.id, "u2");
}

#[test]
fn deep_links() {
    assert!(is_deep_link("asakurawiki://login?code=1"));
    assert!(is_deep_link("asakurawiki://"));
    assert!(!is_deep_link("asakurawiki:/"));
    assert!(!is_deep_link("--flag"));
    assert!(!is_deep_link("https://asakurawiki://"));
}

#[test]
fn constants() {
    assert_eq!(DEEP_LINK_EVENT, "deep-link-login");
    assert_eq!(TOKEN_FILE_NAME, ".askreditor_token.json");
}
