//! The decisions of the desktop GitHub login: where the loopback callback
//! lands, which authorize URL the browser opens, whether the callback that
//! comes back belongs to this login, and the account it creates. Starting the
//! loopback server, opening the browser, waiting and the HTTP calls happen
//! outside the library.

use vstd::prelude::*;

use crate::domain::{AccountDraft, ProviderKind};
use crate::json::{field_str, json_field_str};
use crate::oauth::{parse_callback, spec_authorize_pairs, spec_parse_callback, try_build_authorize_url, url_with_query, AuthRequest};
use crate::text::{decimal, owned, push_str, spec_decimal, str_eq};

verus! {

/// GitHub's OAuth authorize endpoint.
pub const GITHUB_AUTHORIZE_ENDPOINT: &'static str = "https://github.com/login/oauth/authorize";

/// GitHub's OAuth token endpoint.
pub const GITHUB_TOKEN_ENDPOINT: &'static str = "https://github.com/login/oauth/access_token";

/// The endpoint naming the authenticated GitHub user.
pub const GITHUB_USER_ENDPOINT: &'static str = "https://api.github.com/user";

/// The fixed loopback port the OAuth app's callback URL is registered with.
pub const GITHUB_OAUTH_PORT: u16 = 8788;

/// The OAuth scope the desktop app asks for.
pub const GITHUB_SCOPE: &'static str = "repo";

/// The callback URL of the loopback server listening on `port`.
pub open spec fn spec_redirect_uri(port: u16) -> Seq<char> {
    "http://127.0.0.1:"@ + spec_decimal(port as nat) + "/callback"@
}

pub fn redirect_uri(port: u16) -> (r: String)
    ensures
        r@ == spec_redirect_uri(port),
{
    let mut r = owned("http://127.0.0.1:");
    let p = decimal(port as u64);
    push_str(&mut r, p.as_str());
    push_str(&mut r, "/callback");
    r
}

/// The query of the authorize URL a login opens: the authorization-code
/// parameters with the `repo` scope and the login's anti-forgery `state`, and
/// no PKCE (GitHub has none).
pub open spec fn login_pairs(client_id: Seq<char>, redirect: Seq<char>, state: Seq<char>) -> Seq<(Seq<char>, Seq<char>)> {
    seq![
        ("response_type"@, "code"@),
        ("client_id"@, client_id),
        ("redirect_uri"@, redirect),
        ("scope"@, GITHUB_SCOPE@),
        ("state"@, state),
    ]
}

/// The authorize URL a login opens in the browser, at GitHub's endpoint.
pub fn login_authorize_url(client_id: &str, redirect: &str, csrf_state: &str) -> (r: Option<String>)
    ensures
        match (r, url_with_query(GITHUB_AUTHORIZE_ENDPOINT@, login_pairs(client_id@, redirect@, csrf_state@))) {
            (Some(a), Some(b)) => a@ == b,
            (None, None) => true,
            _ => false,
        },
{
    let req = AuthRequest {
        authorize_endpoint: GITHUB_AUTHORIZE_ENDPOINT,
        client_id,
        redirect_uri: redirect,
        scope: GITHUB_SCOPE,
        state: csrf_state,
        pkce_challenge: None,
    };
    assert(spec_authorize_pairs(req) =~= login_pairs(client_id@, redirect@, csrf_state@));
    try_build_authorize_url(&req)
}

/// What the callback URL of a login yields: its authorization code, when the
/// URL carries one together with the `state` this login sent; otherwise the
/// reason the login is aborted.
pub open spec fn spec_callback_code(callback_url: Seq<char>, csrf_state: Seq<char>) -> Result<Seq<char>, Seq<char>> {
    match spec_parse_callback(callback_url) {
        Err(e) => Err(e),
        Ok((code, state)) => if state == csrf_state {
            Ok(code)
        } else {
            Err("oauth `state` mismatch (possible CSRF) — aborting"@)
        },
    }
}

pub fn callback_code(callback_url: &str, csrf_state: &str) -> (r: Result<String, String>)
    ensures
        match (r, spec_callback_code(callback_url@, csrf_state@)) {
            (Ok(a), Ok(b)) => a@ == b,
            (Err(a), Err(b)) => a@ == b,
            _ => false,
        },
{
    let (code, returned_state) = parse_callback(callback_url)?;
    if !str_eq(returned_state.as_str(), csrf_state) {
        return Err(owned("oauth `state` mismatch (possible CSRF) — aborting"));
    }
    Ok(code)
}

/// A callback whose `state` is not the one this login sent is never accepted.
pub proof fn lemma_forged_callback_refused(callback_url: Seq<char>, csrf_state: Seq<char>)
    requires
        spec_parse_callback(callback_url) matches Ok((_, s)) && s != csrf_state,
    ensures
        spec_callback_code(callback_url, csrf_state) is Err,
{
}

/// The name an account gets from the `/user` answer: its `login`, or
/// `github` when the answer has none.
pub fn login_name(user_json: &str) -> (r: String)
    ensures
        r@ == match json_field_str(user_json@, "login"@) {
            Some(l) => l,
            None => "github"@,
        },
{
    match field_str(user_json, "login") {
        Some(l) => l,
        None => owned("github"),
    }
}

/// The account a login creates: a GitHub account named after the user, on
/// the default API, bound to no repository.
pub fn login_account_draft(login: String) -> (d: AccountDraft)
    ensures
        d.provider == ProviderKind::Github,
        d.display_name == login,
        d.base_url is None,
        d.config@ == "{}"@,
{
    AccountDraft { provider: ProviderKind::Github, display_name: login, base_url: None, config: owned("{}") }
}

} // verus!
