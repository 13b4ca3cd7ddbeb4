//! The exchange of a login code for a session, as a state machine: each
//! answer the app receives decides the next request to send, or the reply.

use vstd::prelude::*;
use crate::models::{AppLinkRow, SupabaseSession};
use crate::supabase::{
    accept_app_link, code_exchange_plan_of, code_lookup_outcome, config_of, parse_error_message, exchanged_session_outcome,
    expired_code_message, header_value_allowed, plan_code_exchange, user_request, user_request_of, ApiRequest,
    ConfigError, RequestView, SupabaseConfig,
};

verus! {

/// The HTTP method of a request.
#[derive(Debug, Clone, Copy, PartialEq, Eq, Structural)]
pub enum HttpMethod {
    Get,
    Delete,
}

/// Where a code exchange stands.
#[derive(Debug)]
pub enum ExchangeState {
    /// The lookup of the code's link was sent.
    AwaitingLookup { config: SupabaseConfig, delete: ApiRequest },
    /// The lookup succeeded; its rows are being read.
    AwaitingRows { config: SupabaseConfig, delete: ApiRequest },
    /// The used link's deletion was sent; its outcome does not matter.
    AwaitingDelete { config: SupabaseConfig, access_token: String },
    /// The check of the obtained session was sent.
    AwaitingUser,
    /// The exchange has given its reply.
    Finished,
}

/// What the app reports back for the last action.
#[derive(Debug)]
pub enum ExchangeEvent {
    /// The lookup's answer: whether its status is a success, or the text
    /// of the error that kept it from being sent.
    LookupAnswered(Result<bool, String>),
    /// The rows of the lookup's answer, or the text of the error that kept
    /// them from being parsed.
    RowsRead(Result<Vec<AppLinkRow>, String>),
    /// The deletion was sent, whatever came of it.
    DeleteFinished,
    /// The session check's answer: whether its status is a success, or the
    /// text of the error that kept it from being sent.
    UserAnswered(Result<bool, String>),
}

/// What the app is to do next.
#[derive(Debug)]
pub enum ExchangeAction {
    /// Send this request.
    Send(HttpMethod, ApiRequest),
    /// Parse the lookup's answer into rows.
    ReadRows,
    /// Parse the session check's answer into the user, and reply with it
    /// (or with the text of the parse error).
    ReadUser,
    /// Reply with this error.
    Fail(String),
}

/// Whether `event` answers the action taken in `state`.
pub open spec fn accepts(state: ExchangeState, event: ExchangeEvent) -> bool {
    match state {
        ExchangeState::AwaitingLookup { .. } => event is LookupAnswered,
        ExchangeState::AwaitingRows { .. } => event is RowsRead,
        ExchangeState::AwaitingDelete { .. } => event is DeleteFinished,
        ExchangeState::AwaitingUser => event is UserAnswered,
        ExchangeState::Finished => false,
    }
}

/// The exchange stops with the error `m`.
pub open spec fn fails_with(next: ExchangeState, action: ExchangeAction, m: Seq<char>) -> bool {
    &&& next is Finished
    &&& action matches ExchangeAction::Fail(x) && x@ == m
}

/// One step of the exchange: from `state` and the `event` that answers it,
/// the next state, the action, and the session after the step. The session
/// changes only when the lookup found a link: it then holds that link's
/// tokens.
pub open spec fn exchange_step(
    state: ExchangeState,
    event: ExchangeEvent,
    session: SupabaseSession,
    next: ExchangeState,
    action: ExchangeAction,
    session_after: SupabaseSession,
) -> bool {
    match state {
        ExchangeState::AwaitingLookup { config, delete } => session_after == session && match event {
            ExchangeEvent::LookupAnswered(Err(e)) => fails_with(next, action, e@),
            ExchangeEvent::LookupAnswered(Ok(false)) => fails_with(
                next,
                action,
                "Supabaseとの通信に失敗しました。"@,
            ),
            ExchangeEvent::LookupAnswered(Ok(true)) => next == ExchangeState::AwaitingRows { config, delete }
                && action is ReadRows,
            _ => false,
        },
        ExchangeState::AwaitingRows { config, delete } => match event {
            ExchangeEvent::RowsRead(Err(e)) => session_after == session && fails_with(
                next,
                action,
                "パースエラー: "@ + e@,
            ),
            ExchangeEvent::RowsRead(Ok(rows)) => if rows@.len() == 0 {
                session_after == session && fails_with(next, action, expired_code_message())
            } else {
                &&& session_after.holds(rows@[0].access_token@, rows@[0].refresh_token@)
                &&& next matches ExchangeState::AwaitingDelete { config: c, access_token: t }
                &&& c == config && t@ == rows@[0].access_token@
                &&& action == ExchangeAction::Send(HttpMethod::Delete, delete)
            },
            _ => false,
        },
        ExchangeState::AwaitingDelete { config, access_token } => session_after == session && match event {
            ExchangeEvent::DeleteFinished => match user_request_of(
                config.url_base@,
                config.anon_key@,
                access_token@,
            ) {
                Err(m) => fails_with(next, action, m),
                Ok(q) => next is AwaitingUser && (action matches ExchangeAction::Send(HttpMethod::Get, r)
                    && r@ == q),
            },
            _ => false,
        },
        ExchangeState::AwaitingUser => session_after == session && match event {
            ExchangeEvent::UserAnswered(Err(e)) => fails_with(next, action, e@),
            ExchangeEvent::UserAnswered(Ok(false)) => fails_with(
                next,
                action,
                "取得したセッションが無効です。"@,
            ),
            ExchangeEvent::UserAnswered(Ok(true)) => next is Finished && action is ReadUser,
            _ => false,
        },
        ExchangeState::Finished => false,
    }
}

/// Starts the exchange of `code`: the lookup of its link, or the error of
/// the plan (a missing configuration variable or a refused key).
pub fn start_code_exchange(code: &str, env_content: &str) -> (r: (ExchangeState, ExchangeAction))
    ensures
        match code_exchange_plan_of(code@, env_content@) {
            Err(m) => fails_with(r.0, r.1, m),
            Ok((lookup, delete)) => {
                &&& r.0 matches ExchangeState::AwaitingLookup { config, delete: d }
                &&& config_of(env_content@) == Ok::<(Seq<char>, Seq<char>), ConfigError>(
                    (config.url_base@, config.anon_key@),
                )
                &&& d@ == delete
                &&& r.1 matches ExchangeAction::Send(HttpMethod::Get, q)
                &&& q@ == lookup
            },
        },
{
    match plan_code_exchange(code, env_content) {
        Err(m) => (ExchangeState::Finished, ExchangeAction::Fail(m)),
        Ok(plan) => (
            ExchangeState::AwaitingLookup { config: plan.config, delete: plan.delete },
            ExchangeAction::Send(HttpMethod::Get, plan.lookup),
        ),
    }
}

/// Takes one step of the exchange on the answer to the last action.
pub fn step_code_exchange(state: ExchangeState, session: &mut SupabaseSession, event: ExchangeEvent) -> (r: (
    ExchangeState,
    ExchangeAction,
))
    requires
        accepts(state, event),
    ensures
        exchange_step(state, event, *old(session), r.0, r.1, *final(session)),
{
    match state {
        ExchangeState::AwaitingLookup { config, delete } => match event {
            ExchangeEvent::LookupAnswered(Err(e)) => (ExchangeState::Finished, ExchangeAction::Fail(e)),
            ExchangeEvent::LookupAnswered(Ok(success)) => match code_lookup_outcome(success) {
                Err(m) => (ExchangeState::Finished, ExchangeAction::Fail(m)),
                Ok(()) => (ExchangeState::AwaitingRows { config, delete }, ExchangeAction::ReadRows),
            },
            _ => (ExchangeState::Finished, ExchangeAction::Fail(String::new())),
        },
        ExchangeState::AwaitingRows { config, delete } => match event {
            ExchangeEvent::RowsRead(Err(e)) => (
                ExchangeState::Finished,
                ExchangeAction::Fail(parse_error_message(e.as_str())),
            ),
            ExchangeEvent::RowsRead(Ok(rows)) => match accept_app_link(session, rows) {
                Err(m) => (ExchangeState::Finished, ExchangeAction::Fail(m)),
                Ok(row) => (
                    ExchangeState::AwaitingDelete { config, access_token: row.access_token },
                    ExchangeAction::Send(HttpMethod::Delete, delete),
                ),
            },
            _ => (ExchangeState::Finished, ExchangeAction::Fail(String::new())),
        },
        ExchangeState::AwaitingDelete { config, access_token } => match event {
            ExchangeEvent::DeleteFinished => match user_request(&config, access_token.as_str()) {
                Err(m) => (ExchangeState::Finished, ExchangeAction::Fail(m)),
                Ok(q) => (ExchangeState::AwaitingUser, ExchangeAction::Send(HttpMethod::Get, q)),
            },
            _ => (ExchangeState::Finished, ExchangeAction::Fail(String::new())),
        },
        ExchangeState::AwaitingUser => match event {
            ExchangeEvent::UserAnswered(Err(e)) => (ExchangeState::Finished, ExchangeAction::Fail(e)),
            ExchangeEvent::UserAnswered(Ok(success)) => match exchanged_session_outcome(success) {
                Err(m) => (ExchangeState::Finished, ExchangeAction::Fail(m)),
                Ok(()) => (ExchangeState::Finished, ExchangeAction::ReadUser),
            },
            _ => (ExchangeState::Finished, ExchangeAction::Fail(String::new())),
        },
        ExchangeState::Finished => (ExchangeState::Finished, ExchangeAction::Fail(String::new())),
    }
}

/// Law: when the lookup cannot be sent or fails, the exchange ends with an
/// error at once: nothing is deleted, no session is checked, and the
/// session is left as it was.
pub proof fn lemma_failed_lookup_ends_exchange(
    state: ExchangeState,
    event: ExchangeEvent,
    session: SupabaseSession,
    next: ExchangeState,
    action: ExchangeAction,
    session_after: SupabaseSession,
)
    requires
        exchange_step(state, event, session, next, action, session_after),
        (state is AwaitingLookup),
        !(event matches ExchangeEvent::LookupAnswered(Ok(true))),
    ensures
        (next is Finished),
        (action is Fail),
        session_after == session,
        forall|e: ExchangeEvent| !accepts(next, e),
{
}

/// Law: when the lookup's rows cannot be read or hold no link (a wrong or
/// expired code), the exchange ends with an error at once: nothing is
/// deleted, no session is checked, and the session is left as it was.
pub proof fn lemma_no_link_ends_exchange(
    state: ExchangeState,
    event: ExchangeEvent,
    session: SupabaseSession,
    next: ExchangeState,
    action: ExchangeAction,
    session_after: SupabaseSession,
)
    requires
        exchange_step(state, event, session, next, action, session_after),
        (state is AwaitingRows),
        !(event matches ExchangeEvent::RowsRead(Ok(rows)) && rows@.len() > 0),
    ensures
        (next is Finished),
        (action is Fail),
        session_after == session,
        forall|e: ExchangeEvent| !accepts(next, e),
{
}

/// Law: once a link is found, its tokens are signed in, the used link is
/// deleted first, and then (whatever came of the deletion) the session is
/// checked with the anonymous key and the first link's access token.
pub proof fn lemma_found_link_is_deleted_then_checked(
    config: SupabaseConfig,
    delete: ApiRequest,
    rows: Vec<AppLinkRow>,
    session0: SupabaseSession,
    state1: ExchangeState,
    action1: ExchangeAction,
    session1: SupabaseSession,
    state2: ExchangeState,
    action2: ExchangeAction,
    session2: SupabaseSession,
)
    requires
        rows@.len() > 0,
        exchange_step(
            ExchangeState::AwaitingRows { config, delete },
            ExchangeEvent::RowsRead(Ok(rows)),
            session0,
            state1,
            action1,
            session1,
        ),
        exchange_step(state1, ExchangeEvent::DeleteFinished, session1, state2, action2, session2),
        header_value_allowed(config.anon_key@),
        header_value_allowed("Bearer "@ + rows@[0].access_token@),
    ensures
        action1 == ExchangeAction::Send(HttpMethod::Delete, delete),
        session2.holds(rows@[0].access_token@, rows@[0].refresh_token@),
        (state2 is AwaitingUser),
        (action2 matches ExchangeAction::Send(HttpMethod::Get, q) && q@ == (RequestView {
            url: config.url_base@ + "/auth/v1/user"@,
            headers: seq![
                ("apikey"@, config.anon_key@),
                ("Authorization"@, "Bearer "@ + rows@[0].access_token@),
            ],
        })),
{
}

/// Law: a lookup that was answered with success always goes on to read
/// its rows, whatever the configuration: the state keeps the configuration
/// and the deletion unchanged, and the session is untouched.
pub proof fn lemma_successful_lookup_reads_rows(
    config: SupabaseConfig,
    delete: ApiRequest,
    session: SupabaseSession,
    next: ExchangeState,
    action: ExchangeAction,
    session_after: SupabaseSession,
)
    requires
        exchange_step(
            ExchangeState::AwaitingLookup { config, delete },
            ExchangeEvent::LookupAnswered(Ok(true)),
            session,
            next,
            action,
            session_after,
        ),
    ensures
        next == (ExchangeState::AwaitingRows { config, delete }),
        (action is ReadRows),
        session_after == session,
{
}

/// Law: a session check that was answered with success always ends the
/// exchange by reading the user, and the session is untouched.
pub proof fn lemma_successful_check_reads_user(
    session: SupabaseSession,
    next: ExchangeState,
    action: ExchangeAction,
    session_after: SupabaseSession,
)
    requires
        exchange_step(
            ExchangeState::AwaitingUser,
            ExchangeEvent::UserAnswered(Ok(true)),
            session,
            next,
            action,
            session_after,
        ),
    ensures
        (next is Finished),
        (action is ReadUser),
        session_after == session,
{
}

/// Law: the text of an error that the app reports (a request that could
/// not be sent, rows that could not be parsed) reaches the reply in full:
/// sending errors as they are, parse errors at the end of the reply.
pub proof fn lemma_reported_errors_kept(
    state: ExchangeState,
    event: ExchangeEvent,
    session: SupabaseSession,
    next: ExchangeState,
    action: ExchangeAction,
    session_after: SupabaseSession,
)
    requires
        exchange_step(state, event, session, next, action, session_after),
    ensures
        event matches ExchangeEvent::LookupAnswered(Err(e)) ==> (action matches ExchangeAction::Fail(m)
            && m@ == e@),
        event matches ExchangeEvent::UserAnswered(Err(e)) ==> (action matches ExchangeAction::Fail(m)
            && m@ == e@),
        event matches ExchangeEvent::RowsRead(Err(e)) ==> (action matches ExchangeAction::Fail(m)
            && e@.is_suffix_of(m@)),
{
    match event {
        ExchangeEvent::RowsRead(Err(e)) => {
            let m = action->Fail_0;
            assert(m@.subrange(m@.len() - e@.len(), m@.len() as int) =~= e@);
        },
        _ => {},
    }
}

} // verus!
