use askreditor::exchange::{
    start_code_exchange, step_code_exchange, ExchangeAction, ExchangeEvent, ExchangeState, HttpMethod,
};
use askreditor::models::{AppLinkRow, SupabaseSession};
use askreditor::supabase::{parse_error_message, send_error_message, user_parse_error_message};

const ENV: &str = "SUPABASE_URL=https://p.supabase.co\nSUPABASE_ANON_KEY=anon\n";

fn row(a: &str, r: &str) -> AppLinkRow {
    AppLinkRow { access_token: a.to_string(), refresh_token: r.to_string(), created_at: "t".to_string() }
}

fn fail_text(action: &ExchangeAction) -> Option<String> {
    match action {
        ExchangeAction::Fail(m) => Some(m.clone()),
        _ => None,
    }
}

fn started() -> ExchangeState {
    let (state, action) = start_code_exchange("c9", ENV);
    match action {
        ExchangeAction::Send(HttpMethod::Get, q) => {
            assert_eq!(
                q.url,
                "https://p.supabase.co/rest/v1/app_links?code=eq.c9&created_at=gt.now()-interval '30 seconds'&select=*"
            );
            assert_eq!(q.headers, vec![("apikey".to_string(), "anon".to_string())]);
        }
        other => panic!("unexpected action {:?}", other),
    }
    assert!(matches!(state, ExchangeState::AwaitingLookup { .. }));
    state
}

#[test]
fn start_without_config_fails() {
    let (state, action) = start_code_exchange("c", "");
    assert!(matches!(state, ExchangeState::Finished));
    assert_eq!(fail_text(&action), Some("SUPABASE_URLがありません".to_string()));
}

#[test]
fn full_exchange() {
    let mut session = SupabaseSession::new();
    let state = started();
    let (state, action) = step_code_exchange(state, &mut session, ExchangeEvent::LookupAnswered(Ok(true)));
    assert!(matches!(action, ExchangeAction::ReadRows));
    let (state, action) = step_code_exchange(
        state,
        &mut session,
        ExchangeEvent::RowsRead(Ok(vec![row("a1", "r1"), row("a2", "r2")])),
    );
    assert_eq!(session.access_token, Some("a1".to_string()));
    assert_eq!(session.refresh_token, Some("r1".to_string()));
    match action {
        ExchangeAction::Send(HttpMethod::Delete, q) => {
            assert_eq!(q.url, "https://p.supabase.co/rest/v1/app_links?code=eq.c9");
            assert_eq!(q.headers, vec![("apikey".to_string(), "anon".to_string())]);
        }
        other => panic!("unexpected action {:?}", other),
    }
    let (state, action) = step_code_exchange(state, &mut session, ExchangeEvent::DeleteFinished);
    match action {
        ExchangeAction::Send(HttpMethod::Get, q) => {
            assert_eq!(q.url, "https://p.supabase.co/auth/v1/user");
            assert_eq!(
                q.headers,
                vec![
                    ("apikey".to_string(), "anon".to_string()),
                    ("Authorization".to_string(), "Bearer a1".to_string())
                ]
            );
        }
        other => panic!("unexpected action {:?}", other),
    }
    let (state, action) = step_code_exchange(state, &mut session, ExchangeEvent::UserAnswered(Ok(true)));
    assert!(matches!(state, ExchangeState::Finished));
    assert!(matches!(action, ExchangeAction::ReadUser));
}

#[test]
fn failed_lookup_status() {
    let mut session = SupabaseSession::new();
    let (state, action) = step_code_exchange(started(), &mut session, ExchangeEvent::LookupAnswered(Ok(false)));
    assert!(matches!(state, ExchangeState::Finished));
    assert_eq!(fail_text(&action), Some("Supabaseとの通信に失敗しました。".to_string()));
    assert_eq!(session.access_token, None);
}

#[test]
fn lookup_send_error_is_passed_through() {
    let mut session = SupabaseSession::new();
    let (_, action) = step_code_exchange(started(), &mut session, ExchangeEvent::LookupAnswered(Err("boom".to_string())));
    assert_eq!(fail_text(&action), Some("boom".to_string()));
}

#[test]
fn unreadable_rows() {
    let mut session = SupabaseSession::new();
    let (state, _) = step_code_exchange(started(), &mut session, ExchangeEvent::LookupAnswered(Ok(true)));
    let (state, action) = step_code_exchange(state, &mut session, ExchangeEvent::RowsRead(Err("bad json".to_string())));
    assert!(matches!(state, ExchangeState::Finished));
    assert_eq!(fail_text(&action), Some("パースエラー: bad json".to_string()));
}

#[test]
fn no_rows_means_expired_code() {
    let mut session = SupabaseSession::new();
    session.set_tokens("old".to_string(), "oldr".to_string());
    let (state, _) = step_code_exchange(started(), &mut session, ExchangeEvent::LookupAnswered(Ok(true)));
    let (state, action) = step_code_exchange(state, &mut session, ExchangeEvent::RowsRead(Ok(vec![])));
    assert!(matches!(state, ExchangeState::Finished));
    assert_eq!(
        fail_text(&action),
        Some("認証コードが正しくないか、有効期限（30秒）が切れています。".to_string())
    );
    assert_eq!(session.access_token, Some("old".to_string()));
}

#[test]
fn invalid_session_after_exchange() {
    let mut session = SupabaseSession::new();
    let (state, _) = step_code_exchange(started(), &mut session, ExchangeEvent::LookupAnswered(Ok(true)));
    let (state, _) = step_code_exchange(state, &mut session, ExchangeEvent::RowsRead(Ok(vec![row("a", "r")])));
    let (state, _) = step_code_exchange(state, &mut session, ExchangeEvent::DeleteFinished);
    let (state, action) = step_code_exchange(state, &mut session, ExchangeEvent::UserAnswered(Ok(false)));
    assert!(matches!(state, ExchangeState::Finished));
    assert_eq!(fail_text(&action), Some("取得したセッションが無効です。".to_string()));
    let mut session2 = SupabaseSession::new();
    let (state, _) = step_code_exchange(started(), &mut session2, ExchangeEvent::LookupAnswered(Ok(true)));
    let (state, _) = step_code_exchange(state, &mut session2, ExchangeEvent::RowsRead(Ok(vec![row("a", "r")])));
    let (state, _) = step_code_exchange(state, &mut session2, ExchangeEvent::DeleteFinished);
    let (_, action) = step_code_exchange(state, &mut session2, ExchangeEvent::UserAnswered(Err("down".to_string())));
    assert_eq!(fail_text(&action), Some("down".to_string()));
}

#[test]
fn refused_token_header_ends_exchange() {
    let mut session = SupabaseSession::new();
    let (state, _) = step_code_exchange(started(), &mut session, ExchangeEvent::LookupAnswered(Ok(true)));
    let (state, _) = step_code_exchange(state, &mut session, ExchangeEvent::RowsRead(Ok(vec![row("a\n", "r")])));
    let (state, action) = step_code_exchange(state, &mut session, ExchangeEvent::DeleteFinished);
    assert!(matches!(state, ExchangeState::Finished));
    assert_eq!(fail_text(&action), Some("failed to parse header value".to_string()));
}

#[test]
fn error_messages() {
    assert_eq!(send_error_message("timeout"), "通信エラー: timeout");
    assert_eq!(parse_error_message("eof"), "パースエラー: eof");
    assert_eq!(user_parse_error_message("eof"), "ユーザー情報の解析失敗: eof");
}
