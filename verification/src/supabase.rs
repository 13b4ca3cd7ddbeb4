//! The decisions taken around each Supabase request: where it goes, which
//! headers it carries, and what a failed step answers.

use vstd::prelude::*;
use crate::env::{
    env_lookup, get_env_var, plain_name, plain_value, lemma_assignment_read_back, lemma_other_name_skipped,
};
use crate::text::{CharClass, trim, lemma_trim_unchanged};
use crate::models::{AppLinkRow, SupabaseSession, copy_string};

verus! {

/// The configuration read from the `.env` text.
#[derive(Debug)]
pub struct SupabaseConfig {
    pub url_base: String,
    pub anon_key: String,
}

/// A configuration variable that the `.env` text lacks.
#[derive(Debug, PartialEq, Eq, Structural)]
pub enum ConfigError {
    MissingUrl,
    MissingAnonKey,
}

/// The configuration of `env`: the project URL, then the anonymous key;
/// the first that is missing is the error.
pub open spec fn config_of(env: Seq<char>) -> Result<(Seq<char>, Seq<char>), ConfigError> {
    match env_lookup(env, "SUPABASE_URL"@) {
        None => Err(ConfigError::MissingUrl),
        Some(url) => match env_lookup(env, "SUPABASE_ANON_KEY"@) {
            None => Err(ConfigError::MissingAnonKey),
            Some(key) => Ok((url, key)),
        },
    }
}

/// The configuration as plain values.
pub open spec fn config_view(r: Result<SupabaseConfig, ConfigError>) -> Result<(Seq<char>, Seq<char>), ConfigError> {
    match r {
        Ok(c) => Ok((c.url_base@, c.anon_key@)),
        Err(e) => Err(e),
    }
}

/// Reads `SUPABASE_URL` and `SUPABASE_ANON_KEY` from the `.env` text.
pub fn load_supabase_config(env_content: &str) -> (r: Result<SupabaseConfig, ConfigError>)
    ensures
        config_view(r) == config_of(env_content@),
{
    let url_base = match get_env_var(env_content, "SUPABASE_URL") {
        Some(u) => u,
        None => return Err(ConfigError::MissingUrl),
    };
    let anon_key = match get_env_var(env_content, "SUPABASE_ANON_KEY") {
        Some(k) => k,
        None => return Err(ConfigError::MissingAnonKey),
    };
    Ok(SupabaseConfig { url_base, anon_key })
}

impl ConfigError {
    /// The message given by the session commands.
    pub open spec fn spec_message(self) -> Seq<char> {
        match self {
            ConfigError::MissingUrl => "SUPABASE_URLがありません"@,
            ConfigError::MissingAnonKey => "SUPABASE_ANON_KEYがありません"@,
        }
    }

    /// The message given when notices are fetched.
    pub open spec fn spec_notice_message(self) -> Seq<char> {
        match self {
            ConfigError::MissingUrl => "環境変数 'SUPABASE_URL' が見つかりません。"@,
            ConfigError::MissingAnonKey => "環境変数 'SUPABASE_ANON_KEY' が見つかりません。"@,
        }
    }

    /// The message given by the session commands.
    pub fn message(&self) -> (r: String)
        ensures
            r@ == self.spec_message(),
    {
        match self {
            ConfigError::MissingUrl => String::from_str("SUPABASE_URLがありません"),
            ConfigError::MissingAnonKey => String::from_str("SUPABASE_ANON_KEYがありません"),
        }
    }

    /// The message given when notices are fetched.
    pub fn notice_message(&self) -> (r: String)
        ensures
            r@ == self.spec_notice_message(),
    {
        match self {
            ConfigError::MissingUrl => String::from_str("環境変数 'SUPABASE_URL' が見つかりません。"),
            ConfigError::MissingAnonKey => String::from_str(
                "環境変数 'SUPABASE_ANON_KEY' が見つかりません。",
            ),
        }
    }
}

/// `a` followed by `b`.
fn concat2(a: &str, b: &str) -> (r: String)
    ensures
        r@ == a@ + b@,
{
    let mut r = String::from_str(a);
    r.append(b);
    r
}

/// The endpoint that answers the user of an access token.
pub fn auth_user_url(url_base: &str) -> (r: String)
    ensures
        r@ == url_base@ + "/auth/v1/user"@,
{
    concat2(url_base, "/auth/v1/user")
}

/// The query for the login link of `code` made in the last 30 seconds.
pub fn app_link_select_url(url_base: &str, code: &str) -> (r: String)
    ensures
        r@ == url_base@ + "/rest/v1/app_links?code=eq."@ + code@
            + "&created_at=gt.now()-interval '30 seconds'&select=*"@,
{
    let mut r = concat2(url_base, "/rest/v1/app_links?code=eq.");
    r.append(code);
    r.append("&created_at=gt.now()-interval '30 seconds'&select=*");
    r
}

/// The address that deletes the login links of `code`.
pub fn app_link_delete_url(url_base: &str, code: &str) -> (r: String)
    ensures
        r@ == url_base@ + "/rest/v1/app_links?code=eq."@ + code@,
{
    let mut r = concat2(url_base, "/rest/v1/app_links?code=eq.");
    r.append(code);
    r
}

/// The query for all notices, newest first.
pub fn notices_url(url_base: &str) -> (r: String)
    ensures
        r@ == url_base@ + "/rest/v1/notices?select=*&order=created_at.desc"@,
{
    concat2(url_base, "/rest/v1/notices?select=*&order=created_at.desc")
}

/// The `Authorization` value for an access token.
pub fn bearer_value(access_token: &str) -> (r: String)
    ensures
        r@ == "Bearer "@ + access_token@,
{
    concat2("Bearer ", access_token)
}

/// Whether an HTTP header may carry `s`: every character is a tab, or is
/// neither a control character below the space nor DEL.
pub open spec fn header_value_allowed(s: Seq<char>) -> bool {
    forall|i: int| 0 <= i < s.len() ==> (s[i] == '\t' || (' ' <= s[i] && s[i] != '\u{7f}'))
}

/// The message of a refused header value.
pub open spec fn header_error_message() -> Seq<char> {
    "failed to parse header value"@
}

/// `reqwest::header::HeaderValue::from_str`, keeping only whether it accepts
/// `value` and, when it refuses it, the text of its error. The `http`
/// source accepts a value exactly when every byte of its UTF-8 form is a
/// tab or is at least 32 and not 127 (so every character from U+0080 up is
/// accepted), and its error displays as "failed to parse header value".
#[verifier::external_body]
fn check_header_value(value: &str) -> (r: Result<(), String>)
    ensures
        r is Ok <==> header_value_allowed(value@),
        r matches Err(m) ==> m@ == header_error_message(),
{
    match reqwest::header::HeaderValue::from_str(value) {
        Ok(_) => Ok(()),
        Err(e) => Err(e.to_string()),
    }
}

/// An HTTP request to send: its address and its headers, in order.
#[derive(Debug)]
pub struct ApiRequest {
    pub url: String,
    pub headers: Vec<(String, String)>,
}

/// A request as plain values.
pub struct RequestView {
    pub url: Seq<char>,
    pub headers: Seq<(Seq<char>, Seq<char>)>,
}

impl View for ApiRequest {
    type V = RequestView;

    open spec fn view(&self) -> RequestView {
        RequestView {
            url: self.url@,
            headers: self.headers@.map_values(|h: (String, String)| (h.0@, h.1@)),
        }
    }
}

/// A planned request, or the message of the step that refused it.
pub open spec fn request_view(r: Result<ApiRequest, String>) -> Result<RequestView, Seq<char>> {
    match r {
        Ok(q) => Ok(q@),
        Err(m) => Err(m@),
    }
}

/// Adds the header `name: value`, or answers the header error.
fn push_header(headers: &mut Vec<(String, String)>, name: &str, value: &str) -> (r: Result<(), String>)
    ensures
        r is Ok <==> header_value_allowed(value@),
        r matches Err(m) ==> m@ == header_error_message(),
        r is Ok ==> final(headers)@.map_values(|h: (String, String)| (h.0@, h.1@))
            == old(headers)@.map_values(|h: (String, String)| (h.0@, h.1@)).push((name@, value@)),
{
    check_header_value(value)?;
    let ghost before = headers@;
    headers.push((String::from_str(name), String::from_str(value)));
    proof {
        assert(headers@.map_values(|h: (String, String)| (h.0@, h.1@)) =~= before.map_values(
            |h: (String, String)| (h.0@, h.1@),
        ).push((name@, value@)));
    }
    Ok(())
}

/// The request that asks Supabase for the user of `access_token`: it
/// carries the anonymous key, then the bearer token.
pub open spec fn user_request_of(url_base: Seq<char>, anon_key: Seq<char>, access_token: Seq<char>) -> Result<RequestView, Seq<char>> {
    if !header_value_allowed(anon_key) || !header_value_allowed("Bearer "@ + access_token) {
        Err(header_error_message())
    } else {
        Ok(RequestView {
            url: url_base + "/auth/v1/user"@,
            headers: seq![("apikey"@, anon_key), ("Authorization"@, "Bearer "@ + access_token)],
        })
    }
}

/// The request that asks Supabase for the user of `access_token`.
pub fn user_request(config: &SupabaseConfig, access_token: &str) -> (r: Result<ApiRequest, String>)
    ensures
        request_view(r) == user_request_of(config.url_base@, config.anon_key@, access_token@),
{
    let url = auth_user_url(config.url_base.as_str());
    let mut headers: Vec<(String, String)> = Vec::new();
    proof {
        assert(headers@.map_values(|h: (String, String)| (h.0@, h.1@)) =~= Seq::empty());
    }
    push_header(&mut headers, "apikey", config.anon_key.as_str())?;
    let bearer = bearer_value(access_token);
    push_header(&mut headers, "Authorization", bearer.as_str())?;
    let r = ApiRequest { url, headers };
    proof {
        assert(r@.headers =~= seq![("apikey"@, config.anon_key@), ("Authorization"@, "Bearer "@ + access_token@)]);
    }
    Ok(r)
}

/// An optional string as plain values.
pub open spec fn opt_view(s: Option<String>) -> Option<Seq<char>> {
    match s {
        Some(x) => Some(x@),
        None => None,
    }
}

/// The message when no user is signed in.
pub open spec fn no_session_message() -> Seq<char> {
    "セッションがありません"@
}

/// The request that checks the signed-in user's session, or why there is
/// none: no access token, then a missing configuration variable, then a
/// refused header.
pub open spec fn verify_session_plan_of(access_token: Option<Seq<char>>, env: Seq<char>) -> Result<RequestView, Seq<char>> {
    match access_token {
        None => Err(no_session_message()),
        Some(t) => match config_of(env) {
            Err(e) => Err(e.spec_message()),
            Ok((url, key)) => user_request_of(url, key, t),
        },
    }
}

/// Plans the check of the signed-in user's session against Supabase.
pub fn plan_verify_session(access_token: &Option<String>, env_content: &str) -> (r: Result<ApiRequest, String>)
    ensures
        request_view(r) == verify_session_plan_of(opt_view(*access_token), env_content@),
{
    let token = match access_token {
        Some(t) => t,
        None => return Err(String::from_str("セッションがありません")),
    };
    let config = match load_supabase_config(env_content) {
        Ok(c) => c,
        Err(e) => return Err(e.message()),
    };
    user_request(&config, token.as_str())
}

/// What a failed answer to a step gives: `Ok` when the answer succeeded,
/// else `message`.
pub open spec fn outcome_of(success: bool, message: Seq<char>) -> Result<(), Seq<char>> {
    if success {
        Ok(())
    } else {
        Err(message)
    }
}

/// An outcome as plain values.
pub open spec fn outcome_view(r: Result<(), String>) -> Result<(), Seq<char>> {
    match r {
        Ok(()) => Ok(()),
        Err(m) => Err(m@),
    }
}

/// The outcome of the session check: a failed answer means the session is
/// not valid.
pub fn session_check_outcome(success: bool) -> (r: Result<(), String>)
    ensures
        outcome_view(r) == outcome_of(success, "無効なセッションです"@),
{
    if success {
        Ok(())
    } else {
        Err(String::from_str("無効なセッションです"))
    }
}

/// The requests of a login-code exchange: the lookup of the code's link and
/// the deletion of the used link, both carrying the anonymous key.
#[derive(Debug)]
pub struct CodeExchangePlan {
    pub config: SupabaseConfig,
    pub lookup: ApiRequest,
    pub delete: ApiRequest,
}

/// The lookup and deletion requests for `code`, or why there are none: a
/// missing configuration variable, then a refused anonymous key.
pub open spec fn code_exchange_plan_of(code: Seq<char>, env: Seq<char>) -> Result<(RequestView, RequestView), Seq<char>> {
    match config_of(env) {
        Err(e) => Err(e.spec_message()),
        Ok((url, key)) => if !header_value_allowed(key) {
            Err(header_error_message())
        } else {
            Ok((
                RequestView {
                    url: url + "/rest/v1/app_links?code=eq."@ + code
                        + "&created_at=gt.now()-interval '30 seconds'&select=*"@,
                    headers: seq![("apikey"@, key)],
                },
                RequestView {
                    url: url + "/rest/v1/app_links?code=eq."@ + code,
                    headers: seq![("apikey"@, key)],
                },
            ))
        },
    }
}

/// A code-exchange plan as plain values.
pub open spec fn code_exchange_view(r: Result<CodeExchangePlan, String>) -> Result<(RequestView, RequestView), Seq<char>> {
    match r {
        Ok(p) => Ok((p.lookup@, p.delete@)),
        Err(m) => Err(m@),
    }
}

/// Plans the exchange of a login code for a session.
pub fn plan_code_exchange(code: &str, env_content: &str) -> (r: Result<CodeExchangePlan, String>)
    ensures
        code_exchange_view(r) == code_exchange_plan_of(code@, env_content@),
        r matches Ok(p) ==> config_of(env_content@) == Ok::<(Seq<char>, Seq<char>), ConfigError>((p.config.url_base@, p.config.anon_key@)),
{
    let config = match load_supabase_config(env_content) {
        Ok(c) => c,
        Err(e) => return Err(e.message()),
    };
    let mut lookup_headers: Vec<(String, String)> = Vec::new();
    proof {
        assert(lookup_headers@.map_values(|h: (String, String)| (h.0@, h.1@)) =~= Seq::empty());
    }
    push_header(&mut lookup_headers, "apikey", config.anon_key.as_str())?;
    let mut delete_headers: Vec<(String, String)> = Vec::new();
    proof {
        assert(delete_headers@.map_values(|h: (String, String)| (h.0@, h.1@)) =~= Seq::empty());
    }
    push_header(&mut delete_headers, "apikey", config.anon_key.as_str())?;
    let lookup = ApiRequest {
        url: app_link_select_url(config.url_base.as_str(), code),
        headers: lookup_headers,
    };
    let delete = ApiRequest {
        url: app_link_delete_url(config.url_base.as_str(), code),
        headers: delete_headers,
    };
    proof {
        assert(lookup@.headers =~= seq![("apikey"@, config.anon_key@)]);
        assert(delete@.headers =~= seq![("apikey"@, config.anon_key@)]);
    }
    Ok(CodeExchangePlan { config, lookup, delete })
}

/// The outcome of the code lookup: a failed answer means Supabase could not
/// be reached.
pub fn code_lookup_outcome(success: bool) -> (r: Result<(), String>)
    ensures
        outcome_view(r) == outcome_of(success, "Supabaseとの通信に失敗しました。"@),
{
    if success {
        Ok(())
    } else {
        Err(String::from_str("Supabaseとの通信に失敗しました。"))
    }
}

/// The message when no link matches the code within its 30 seconds.
pub open spec fn expired_code_message() -> Seq<char> {
    "認証コードが正しくないか、有効期限（30秒）が切れています。"@
}

/// Takes the first link found for a login code and signs its tokens in;
/// with no link the code is wrong or expired and the session is left as it
/// was.
pub fn accept_app_link(session: &mut SupabaseSession, rows: Vec<AppLinkRow>) -> (r: Result<AppLinkRow, String>)
    ensures
        rows@.len() == 0 ==> (r matches Err(m) && m@ == expired_code_message()
            && *final(session) == *old(session)),
        rows@.len() > 0 ==> (r matches Ok(row) && row == rows@[0] && final(session).holds(
            rows@[0].access_token@,
            rows@[0].refresh_token@,
        )),
{
    let mut rows = rows;
    if rows.len() == 0 {
        return Err(String::from_str("認証コードが正しくないか、有効期限（30秒）が切れています。"));
    }
    let row = rows.remove(0);
    session.set_tokens(copy_string(&row.access_token), copy_string(&row.refresh_token));
    Ok(row)
}

/// The outcome of checking the exchanged session: a failed answer means the
/// tokens obtained are not valid.
pub fn exchanged_session_outcome(success: bool) -> (r: Result<(), String>)
    ensures
        outcome_view(r) == outcome_of(success, "取得したセッションが無効です。"@),
{
    if success {
        Ok(())
    } else {
        Err(String::from_str("取得したセッションが無効です。"))
    }
}

/// The request for the notices, newest first, or why there is none: a
/// missing configuration variable, then a refused header. It carries the
/// anonymous key and, when a user is signed in, the bearer token.
pub open spec fn notices_plan_of(env: Seq<char>, access_token: Option<Seq<char>>) -> Result<RequestView, Seq<char>> {
    match config_of(env) {
        Err(e) => Err(e.spec_notice_message()),
        Ok((url, key)) => {
            let url = url + "/rest/v1/notices?select=*&order=created_at.desc"@;
            match access_token {
                None => if !header_value_allowed(key) {
                    Err(header_error_message())
                } else {
                    Ok(RequestView { url, headers: seq![("apikey"@, key)] })
                },
                Some(t) => if !header_value_allowed(key) || !header_value_allowed("Bearer "@ + t) {
                    Err(header_error_message())
                } else {
                    Ok(RequestView {
                        url,
                        headers: seq![("apikey"@, key), ("Authorization"@, "Bearer "@ + t)],
                    })
                },
            }
        },
    }
}

/// Plans the request for the notices, as a guest or as the signed-in user.
pub fn plan_notices(env_content: &str, access_token: &Option<String>) -> (r: Result<ApiRequest, String>)
    ensures
        request_view(r) == notices_plan_of(env_content@, opt_view(*access_token)),
{
    let config = match load_supabase_config(env_content) {
        Ok(c) => c,
        Err(e) => return Err(e.notice_message()),
    };
    let url = notices_url(config.url_base.as_str());
    let mut headers: Vec<(String, String)> = Vec::new();
    proof {
        assert(headers@.map_values(|h: (String, String)| (h.0@, h.1@)) =~= Seq::empty());
    }
    push_header(&mut headers, "apikey", config.anon_key.as_str())?;
    match access_token {
        Some(t) => {
            let bearer = bearer_value(t.as_str());
            push_header(&mut headers, "Authorization", bearer.as_str())?;
            let r = ApiRequest { url, headers };
            proof {
                assert(r@.headers =~= seq![("apikey"@, config.anon_key@), ("Authorization"@, "Bearer "@ + t@)]);
            }
            Ok(r)
        },
        None => {
            let r = ApiRequest { url, headers };
            proof {
                assert(r@.headers =~= seq![("apikey"@, config.anon_key@)]);
            }
            Ok(r)
        },
    }
}

/// The reply when the notices request could not be sent, from the text of
/// the sending error.
pub fn send_error_message(error: &str) -> (r: String)
    ensures
        r@ == "通信エラー: "@ + error@,
{
    concat2("通信エラー: ", error)
}

/// The reply when an answer's rows could not be parsed, from the text of
/// the parse error.
pub fn parse_error_message(error: &str) -> (r: String)
    ensures
        r@ == "パースエラー: "@ + error@,
{
    concat2("パースエラー: ", error)
}

/// The reply when the session check's user could not be parsed, from the
/// text of the parse error.
pub fn user_parse_error_message(error: &str) -> (r: String)
    ensures
        r@ == "ユーザー情報の解析失敗: "@ + error@,
{
    concat2("ユーザー情報の解析失敗: ", error)
}

/// The message for a failed notices answer with the given status and body.
pub open spec fn notices_error_of(status: Seq<char>, body: Seq<char>) -> Seq<char> {
    "Supabaseエラー ("@ + status + "): "@ + body
}

/// The outcome of the notices request: a failed answer gives its status
/// and body.
pub fn notices_outcome(success: bool, status: &str, body: &str) -> (r: Result<(), String>)
    ensures
        outcome_view(r) == outcome_of(success, notices_error_of(status@, body@)),
{
    if success {
        Ok(())
    } else {
        let mut m = concat2("Supabaseエラー (", status);
        m.append("): ");
        m.append(body);
        Err(m)
    }
}

/// Law: with no user signed in, checking the session fails with "no
/// session", whatever the configuration.
pub proof fn lemma_signed_out_session_check_fails(session: SupabaseSession, env: Seq<char>)
    requires
        session.is_signed_out(),
    ensures
        verify_session_plan_of(opt_view(session.access_token), env) == Err::<RequestView, Seq<char>>(
            no_session_message(),
        ),
{
}

/// Law: once tokens are signed in, the session check (under a complete
/// configuration whose key and token headers are accepted) asks for the
/// user of exactly the access token that was signed in.
pub proof fn lemma_session_check_uses_signed_in_token(
    session: SupabaseSession,
    access: Seq<char>,
    refresh: Seq<char>,
    env: Seq<char>,
)
    requires
        session.holds(access, refresh),
        config_of(env) is Ok,
        header_value_allowed(config_of(env)->Ok_0.1),
        header_value_allowed("Bearer "@ + access),
    ensures
        verify_session_plan_of(opt_view(session.access_token), env) == Ok::<RequestView, Seq<char>>(
            RequestView {
                url: config_of(env)->Ok_0.0 + "/auth/v1/user"@,
                headers: seq![
                    ("apikey"@, config_of(env)->Ok_0.1),
                    ("Authorization"@, "Bearer "@ + access),
                ],
            },
        ),
{
}

/// Law: notices are fetched as a guest (with the anonymous key alone) when
/// no user is signed in, and with the signed-in user's bearer token
/// otherwise; the address is the same either way.
pub proof fn lemma_notices_guest_or_user(session: SupabaseSession, access: Seq<char>, refresh: Seq<char>, env: Seq<char>)
    requires
        config_of(env) is Ok,
        header_value_allowed(config_of(env)->Ok_0.1),
        header_value_allowed("Bearer "@ + access),
    ensures
        session.is_signed_out() ==> (notices_plan_of(env, opt_view(session.access_token)) matches Ok(q)
            && q.url == config_of(env)->Ok_0.0 + "/rest/v1/notices?select=*&order=created_at.desc"@
            && q.headers == seq![("apikey"@, config_of(env)->Ok_0.1)]),
        session.holds(access, refresh) ==> (notices_plan_of(env, opt_view(session.access_token)) matches Ok(q)
            && q.url == config_of(env)->Ok_0.0 + "/rest/v1/notices?select=*&order=created_at.desc"@
            && q.headers == seq![
                ("apikey"@, config_of(env)->Ok_0.1),
                ("Authorization"@, "Bearer "@ + access),
            ]),
{
}

/// The two configuration names are plain names.
proof fn lemma_config_names_plain()
    ensures
        plain_name("SUPABASE_URL"@),
        plain_name("SUPABASE_ANON_KEY"@),
        "SUPABASE_URL"@ != "SUPABASE_ANON_KEY"@,
{
    reveal_strlit("SUPABASE_URL");
    reveal_strlit("SUPABASE_ANON_KEY");
    let u = "SUPABASE_URL"@;
    let a = "SUPABASE_ANON_KEY"@;
    assert(u =~= seq!['S', 'U', 'P', 'A', 'B', 'A', 'S', 'E', '_', 'U', 'R', 'L']);
    assert(a =~= seq!['S', 'U', 'P', 'A', 'B', 'A', 'S', 'E', '_', 'A', 'N', 'O', 'N', '_', 'K', 'E', 'Y']);
    assert(!u.contains('=') && !u.contains('\n'));
    assert(!a.contains('=') && !a.contains('\n'));
    lemma_trim_unchanged(u, CharClass::Whitespace);
    lemma_trim_unchanged(a, CharClass::Whitespace);
    assert(u.len() != a.len());
}

/// Law: the configuration holds exactly the values that the `.env` text
/// gives `SUPABASE_URL` and `SUPABASE_ANON_KEY`, whole and unchanged; it is
/// missing the URL exactly when the text gives no URL, and missing the key
/// exactly when it gives a URL but no key.
pub proof fn lemma_config_is_looked_up(env: Seq<char>, url: Seq<char>, key: Seq<char>)
    ensures
        config_of(env) == Ok::<(Seq<char>, Seq<char>), ConfigError>((url, key)) <==> (env_lookup(env, "SUPABASE_URL"@)
            == Some(url) && env_lookup(env, "SUPABASE_ANON_KEY"@) == Some(key)),
        config_of(env) == Err::<(Seq<char>, Seq<char>), ConfigError>(ConfigError::MissingUrl) <==> env_lookup(
            env,
            "SUPABASE_URL"@,
        ) is None,
        config_of(env) == Err::<(Seq<char>, Seq<char>), ConfigError>(ConfigError::MissingAnonKey) <==> (env_lookup(
            env,
            "SUPABASE_URL"@,
        ) is Some && env_lookup(env, "SUPABASE_ANON_KEY"@) is None),
{
}

/// Law: a `.env` text that assigns `SUPABASE_URL=url` and then
/// `SUPABASE_ANON_KEY=key` on its first two lines (with plain values) has
/// the configuration `(url, key)`: both values whole, as written.
pub proof fn lemma_config_of_written_text(url: Seq<char>, key: Seq<char>, rest: Seq<char>)
    requires
        plain_value(url),
        plain_value(key),
    ensures
        config_of(
            "SUPABASE_URL"@ + seq!['='] + url + seq!['\n'] + ("SUPABASE_ANON_KEY"@ + seq!['='] + key + seq![
                '\n',
            ] + rest),
        ) == Ok::<(Seq<char>, Seq<char>), ConfigError>((url, key)),
{
    lemma_config_names_plain();
    let tail = "SUPABASE_ANON_KEY"@ + seq!['='] + key + seq!['\n'] + rest;
    let env = "SUPABASE_URL"@ + seq!['='] + url + seq!['\n'] + tail;
    lemma_assignment_read_back("SUPABASE_URL"@, url, tail);
    lemma_other_name_skipped("SUPABASE_URL"@, url, tail, "SUPABASE_ANON_KEY"@);
    lemma_assignment_read_back("SUPABASE_ANON_KEY"@, key, rest);
}

/// Law: under a configuration `(url, key)` whose key a header accepts, the
/// plan for a login code looks up and deletes the links of that whole code:
/// the lookup asks for `url/rest/v1/app_links?code=eq.<code>` restricted to
/// the last 30 seconds, the deletion removes `...?code=eq.<code>`, and both
/// carry the anonymous key as their only header.
pub proof fn lemma_code_exchange_requests(code: Seq<char>, env: Seq<char>, url: Seq<char>, key: Seq<char>)
    requires
        config_of(env) == Ok::<(Seq<char>, Seq<char>), ConfigError>((url, key)),
        header_value_allowed(key),
    ensures
        code_exchange_plan_of(code, env) matches Ok((lookup, delete)) && {
            &&& lookup.url == url + "/rest/v1/app_links?code=eq."@ + code
                + "&created_at=gt.now()-interval '30 seconds'&select=*"@
            &&& delete.url == url + "/rest/v1/app_links?code=eq."@ + code
            &&& lookup.headers == seq![("apikey"@, key)]
            &&& delete.headers == seq![("apikey"@, key)]
        },
{
}

/// Law: different login codes are looked up and deleted at different
/// addresses, so no code is ever mistaken for another (for instance by
/// cutting it short).
pub proof fn lemma_codes_kept_apart(code1: Seq<char>, code2: Seq<char>, env: Seq<char>)
    requires
        code1 != code2,
        code_exchange_plan_of(code1, env) is Ok,
    ensures
        code_exchange_plan_of(code2, env) matches Ok((lookup2, delete2)) && {
            &&& code_exchange_plan_of(code1, env)->Ok_0.0.url != lookup2.url
            &&& code_exchange_plan_of(code1, env)->Ok_0.1.url != delete2.url
        },
{
    let url = config_of(env)->Ok_0.0;
    let p = url + "/rest/v1/app_links?code=eq."@;
    let q = "&created_at=gt.now()-interval '30 seconds'&select=*"@;
    if p + code1 == p + code2 {
        assert(code1 =~= (p + code1).skip(p.len() as int));
        assert(code2 =~= (p + code2).skip(p.len() as int));
    }
    if p + code1 + q == p + code2 + q {
        assert((p + code1 + q).len() == (p + code2 + q).len());
        assert(code1.len() == code2.len());
        assert(code1 =~= (p + code1 + q).subrange(p.len() as int, (p.len() + code1.len()) as int));
        assert(code2 =~= (p + code2 + q).subrange(p.len() as int, (p.len() + code2.len()) as int));
    }
}

} // verus!
