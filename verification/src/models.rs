//! The records exchanged with Supabase and saved on disk, and the in-memory
//! session.

use vstd::prelude::*;
use crate::text::chars_of;

verus! {

/// The name of the event by which a deep link reaches the web view.
pub const DEEP_LINK_EVENT: &'static str = "deep-link-login";

/// Whether a launch argument is a deep link of the app: it starts with
/// `asakurawiki://`.
pub fn is_deep_link(arg: &str) -> (r: bool)
    ensures
        r == "asakurawiki://"@.is_prefix_of(arg@),
{
    let a = chars_of(arg);
    let p = chars_of("asakurawiki://");
    if a.len() < p.len() {
        return false;
    }
    let mut i: usize = 0;
    while i < p.len()
        invariant
            a@ == arg@,
            p@ == "asakurawiki://"@,
            p@.len() <= a@.len(),
            i <= p@.len(),
            forall|k: int| 0 <= k < i ==> a@[k] == p@[k],
        decreases p.len() - i,
    {
        if a[i] != p[i] {
            return false;
        }
        i = i + 1;
    }
    true
}

/// The name of the session file in the home directory.
pub const TOKEN_FILE_NAME: &'static str = ".askreditor_token.json";

/// Any JSON value, carried through untouched (the user's metadata).
#[verifier::external_type_specification]
#[verifier::external_body]
pub struct ExJsonValue(serde_json::Value);

/// A notice row of the `notices` table.
#[derive(Debug, Clone)]
pub struct Notice {
    pub id: String,
    pub title: String,
    pub content: String,
    pub created_at: String,
}

/// The user as recorded in the saved session.
#[derive(Debug, Clone)]
pub struct TokenUser {
    pub id: String,
    pub email: Option<String>,
}

/// The user as answered by the `auth/v1/user` endpoint.
#[derive(Debug, Clone)]
pub struct UserResponse {
    pub id: String,
    pub email: Option<String>,
    pub user_metadata: Option<serde_json::Value>,
}

/// The session as saved in the token file.
#[derive(Debug, Clone)]
pub struct SavedSessionJson {
    pub access_token: String,
    pub refresh_token: String,
    pub token_type: String,
    pub expires_in: i64,
    pub user: TokenUser,
}

/// A row of the `app_links` table: the tokens handed over for a login code.
#[derive(Debug, Clone)]
pub struct AppLinkRow {
    pub access_token: String,
    pub refresh_token: String,
    pub created_at: String,
}

/// The tokens of the signed-in user, if any.
#[derive(Debug)]
pub struct SupabaseSession {
    pub access_token: Option<String>,
    pub refresh_token: Option<String>,
}

/// A copy of `s`.
pub fn copy_string(s: &String) -> (r: String)
    ensures
        r@ == s@,
{
    s.clone()
}

/// A copy of `s`.
pub fn copy_opt_string(s: &Option<String>) -> (r: Option<String>)
    ensures
        r == *s,
{
    match s {
        Some(x) => Some(x.clone()),
        None => None,
    }
}

/// The session record saved for `user` with the given tokens: a bearer
/// token that expires in an hour.
pub fn build_saved_session(access_token: &str, refresh_token: &str, user: &UserResponse) -> (r: SavedSessionJson)
    ensures
        r.access_token@ == access_token@,
        r.refresh_token@ == refresh_token@,
        r.token_type@ == "bearer"@,
        r.expires_in == 3600,
        r.user.id@ == user.id@,
        r.user.email == user.email,
{
    SavedSessionJson {
        access_token: String::from_str(access_token),
        refresh_token: String::from_str(refresh_token),
        token_type: String::from_str("bearer"),
        expires_in: 3600,
        user: TokenUser { id: copy_string(&user.id), email: copy_opt_string(&user.email) },
    }
}

impl SupabaseSession {
    /// A session with no tokens.
    pub open spec fn is_signed_out(&self) -> bool {
        self.access_token is None && self.refresh_token is None
    }

    /// A session holding exactly these tokens.
    pub open spec fn holds(&self, access: Seq<char>, refresh: Seq<char>) -> bool {
        &&& self.access_token matches Some(a) && a@ == access
        &&& self.refresh_token matches Some(r) && r@ == refresh
    }

    /// A session with no tokens.
    pub fn new() -> (s: SupabaseSession)
        ensures
            s.is_signed_out(),
    {
        SupabaseSession { access_token: None, refresh_token: None }
    }

    /// Replaces both tokens.
    pub fn set_tokens(&mut self, access_token: String, refresh_token: String)
        ensures
            final(self).holds(access_token@, refresh_token@),
    {
        self.access_token = Some(access_token);
        self.refresh_token = Some(refresh_token);
    }

    /// Forgets both tokens.
    pub fn clear(&mut self)
        ensures
            final(self).is_signed_out(),
    {
        self.access_token = None;
        self.refresh_token = None;
    }

    /// A copy of the access token, if any.
    pub fn current_access_token(&self) -> (r: Option<String>)
        ensures
            r == self.access_token,
    {
        copy_opt_string(&self.access_token)
    }
}

} // verus!
