use askreditor::models::{AppLinkRow, SupabaseSession};
use askreditor::supabase::{
    accept_app_link, app_link_delete_url, app_link_select_url, auth_user_url, bearer_value,
    code_lookup_outcome, exchanged_session_outcome, load_supabase_config, notices_outcome, notices_url,
    plan_code_exchange, plan_notices, plan_verify_session, session_check_outcome, user_request, ConfigError,
    SupabaseConfig,
};

const ENV: &str = "SUPABASE_URL=\"https://p.supabase.co/\"\nSUPABASE_ANON_KEY=anon\n";

fn headers(v: &[(&str, &str)]) -> Vec<(String, String)> {
    v.iter().map(|(a, b)| (a.to_string(), b.to_string())).collect()
}

fn row(a: &str, r: &str) -> AppLinkRow {
    AppLinkRow { access_token: a.to_string(), refresh_token: r.to_string(), created_at: "t".to_string() }
}

#[test]
fn config_is_read() {
    let c = load_supabase_config(ENV).unwrap();
    assert_eq!(c.url_base, "https://p.supabase.co");
    assert_eq!(c.anon_key, "anon");
}

#[test]
fn config_missing_url_first() {
    assert_eq!(load_supabase_config("").unwrap_err(), ConfigError::MissingUrl);
    assert_eq!(load_supabase_config("SUPABASE_ANON_KEY=k").unwrap_err(), ConfigError::MissingUrl);
    assert_eq!(load_supabase_config("SUPABASE_URL=u").unwrap_err(), ConfigError::MissingAnonKey);
}

#[test]
fn config_error_messages() {
    assert_eq!(ConfigError::MissingUrl.message(), "SUPABASE_URLがありません");
    assert_eq!(ConfigError::MissingAnonKey.message(), "SUPABASE_ANON_KEYがありません");
    assert_eq!(ConfigError::MissingUrl.notice_message(), "環境変数 'SUPABASE_URL' が見つかりません。");
    assert_eq!(ConfigError::MissingAnonKey.notice_message(), "環境変数 'SUPABASE_ANON_KEY' が見つかりません。");
}

#[test]
fn urls() {
    assert_eq!(auth_user_url("https://p"), "https://p/auth/v1/user");
    assert_eq!(
        app_link_select_url("https://p", "c1"),
        "https://p/rest/v1/app_links?code=eq.c1&created_at=gt.now()-interval '30 seconds'&select=*"
    );
    assert_eq!(app_link_delete_url("https://p", "c1"), "https://p/rest/v1/app_links?code=eq.c1");
    assert_eq!(notices_url("https://p"), "https://p/rest/v1/notices?select=*&order=created_at.desc");
    assert_eq!(bearer_value("tok"), "Bearer tok");
}

#[test]
fn user_request_headers() {
    let c = SupabaseConfig { url_base: "https://p".to_string(), anon_key: "k".to_string() };
    let r = user_request(&c, "tok").unwrap();
    assert_eq!(r.url, "https://p/auth/v1/user");
    assert_eq!(r.headers, headers(&[("apikey", "k"), ("Authorization", "Bearer tok")]));
}

#[test]
fn refused_header_values() {
    let c = SupabaseConfig { url_base: "u".to_string(), anon_key: "bad\u{1}key".to_string() };
    assert_eq!(user_request(&c, "tok").unwrap_err(), "failed to parse header value");
    let c = SupabaseConfig { url_base: "u".to_string(), anon_key: "k".to_string() };
    assert_eq!(user_request(&c, "to\u{7f}k").unwrap_err(), "failed to parse header value");
    assert!(user_request(&c, "tab\there").is_ok());
    assert!(user_request(&c, "ü日本").is_ok());
}

#[test]
fn verify_session_without_token() {
    assert_eq!(plan_verify_session(&None, ENV).unwrap_err(), "セッションがありません");
    assert_eq!(plan_verify_session(&None, "").unwrap_err(), "セッションがありません");
}

#[test]
fn verify_session_plan() {
    let r = plan_verify_session(&Some("tok".to_string()), ENV).unwrap();
    assert_eq!(r.url, "https://p.supabase.co/auth/v1/user");
    assert_eq!(r.headers, headers(&[("apikey", "anon"), ("Authorization", "Bearer tok")]));
    assert_eq!(plan_verify_session(&Some("tok".to_string()), "SUPABASE_URL=u").unwrap_err(), "SUPABASE_ANON_KEYがありません");
}

#[test]
fn outcomes() {
    assert_eq!(session_check_outcome(true), Ok(()));
    assert_eq!(session_check_outcome(false), Err("無効なセッションです".to_string()));
    assert_eq!(code_lookup_outcome(false), Err("Supabaseとの通信に失敗しました。".to_string()));
    assert_eq!(code_lookup_outcome(true), Ok(()));
    assert_eq!(exchanged_session_outcome(false), Err("取得したセッションが無効です。".to_string()));
    assert_eq!(exchanged_session_outcome(true), Ok(()));
    assert_eq!(notices_outcome(true, "x", "y"), Ok(()));
    assert_eq!(
        notices_outcome(false, "401 Unauthorized", "{\"msg\":\"no\"}"),
        Err("Supabaseエラー (401 Unauthorized): {\"msg\":\"no\"}".to_string())
    );
}

#[test]
fn code_exchange_plan() {
    let p = plan_code_exchange("abc", ENV).unwrap();
    assert_eq!(
        p.lookup.url,
        "https://p.supabase.co/rest/v1/app_links?code=eq.abc&created_at=gt.now()-interval '30 seconds'&select=*"
    );
    assert_eq!(p.lookup.headers, headers(&[("apikey", "anon")]));
    assert_eq!(p.delete.url, "https://p.supabase.co/rest/v1/app_links?code=eq.abc");
    assert_eq!(p.delete.headers, headers(&[("apikey", "anon")]));
    assert_eq!(p.config.url_base, "https://p.supabase.co");
    assert_eq!(plan_code_exchange("abc", "").unwrap_err(), "SUPABASE_URLがありません");
    assert_eq!(
        plan_code_exchange("abc", "SUPABASE_URL=u\nSUPABASE_ANON_KEY=a\u{7f}").unwrap_err(),
        "failed to parse header value"
    );
}

#[test]
fn accept_first_link() {
    let mut s = SupabaseSession::new();
    let r = accept_app_link(&mut s, vec![row("a1", "r1"), row("a2", "r2")]).unwrap();
    assert_eq!(r.access_token, "a1");
    assert_eq!(s.access_token, Some("a1".to_string()));
    assert_eq!(s.refresh_token, Some("r1".to_string()));
}

#[test]
fn no_link_leaves_session() {
    let mut s = SupabaseSession::new();
    s.set_tokens("old".to_string(), "oldr".to_string());
    let e = accept_app_link(&mut s, vec![]).unwrap_err();
    assert_eq!(e, "認証コードが正しくないか、有効期限（30秒）が切れています。");
    assert_eq!(s.access_token, Some("old".to_string()));
    assert_eq!(s.refresh_token, Some("oldr".to_string()));
}

#[test]
fn notices_as_guest_and_user() {
    let g = plan_notices(ENV, &None).unwrap();
    assert_eq!(g.url, "https://p.supabase.co/rest/v1/notices?select=*&order=created_at.desc");
    assert_eq!(g.headers, headers(&[("apikey", "anon")]));
    let u = plan_notices(ENV, &Some("tok".to_string())).unwrap();
    assert_eq!(u.url, g.url);
    assert_eq!(u.headers, headers(&[("apikey", "anon"), ("Authorization", "Bearer tok")]));
    assert_eq!(plan_notices("", &None).unwrap_err(), "環境変数 'SUPABASE_URL' が見つかりません。");
    assert_eq!(
        plan_notices("SUPABASE_URL=u", &None).unwrap_err(),
        "環境変数 'SUPABASE_ANON_KEY' が見つかりません。"
    );
    assert_eq!(plan_notices(ENV, &Some("t\u{0}".to_string())).unwrap_err(), "failed to parse header value");
}
