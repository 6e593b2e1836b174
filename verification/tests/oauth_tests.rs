use std::collections::HashMap;

use newt_todo::domain::ProviderKind;
use newt_todo::login::{
    callback_code, login_account_draft, login_authorize_url, login_name, redirect_uri,
    GITHUB_OAUTH_PORT,
};
use newt_todo::oauth::{
    build_authorize_url, generate_pkce, parse_callback, token_form, try_build_authorize_url,
    AuthRequest, TokenRequest,
};
use url::Url;

#[test]
fn parse_callback_extracts_code_and_state() {
    let (code, state) = parse_callback("http://127.0.0.1:8765/?code=abc123&state=xyz").unwrap();
    assert_eq!(code, "abc123");
    assert_eq!(state, "xyz");
}

#[test]
fn parse_callback_handles_extra_params_and_order() {
    let (code, state) =
        parse_callback("http://127.0.0.1:8765/cb?state=s1&foo=bar&code=c1").unwrap();
    assert_eq!(code, "c1");
    assert_eq!(state, "s1");
}

#[test]
fn parse_callback_url_decodes_values() {
    let (code, state) =
        parse_callback("http://127.0.0.1:8765/?code=a%2Fb&state=x%20y").unwrap();
    assert_eq!(code, "a/b");
    assert_eq!(state, "x y");
}

#[test]
fn parse_callback_missing_code_errors() {
    let err = parse_callback("http://127.0.0.1:8765/?state=xyz").unwrap_err();
    assert!(err.contains("code"), "{err}");
}

#[test]
fn parse_callback_missing_state_errors() {
    let err = parse_callback("http://127.0.0.1:8765/?code=abc").unwrap_err();
    assert!(err.contains("state"), "{err}");
}

#[test]
fn parse_callback_invalid_url_errors() {
    let err = parse_callback("not a url").unwrap_err();
    assert!(err.contains("invalid callback url"), "{err}");
}

#[test]
fn parse_callback_keeps_last_repeated_parameter() {
    let (code, state) = parse_callback("http://127.0.0.1:8765/?code=a&state=s&code=b").unwrap();
    assert_eq!(code, "b");
    assert_eq!(state, "s");
}

#[test]
fn generate_pkce_produces_known_s256_challenge() {
    let pair = generate_pkce("test-verifier-1234567890");
    assert_eq!(pair.verifier, "test-verifier-1234567890");
    // Precomputed: base64url_nopad(sha256("test-verifier-1234567890")).
    assert_eq!(
        pair.challenge,
        "Gx2LV1Kvw_rrHrk344X_Qz0hqvHkKf-7XJ12eAI03T4"
    );
}

#[test]
fn pkce_challenge_is_43_chars_for_any_verifier() {
    for v in ["", "a", "some much longer verifier text with spaces"] {
        let pair = generate_pkce(v);
        assert_eq!(pair.challenge.chars().count(), 43);
        assert!(!pair.challenge.contains('='));
    }
}

#[test]
fn build_authorize_url_includes_params_and_pkce() {
    let req = AuthRequest {
        authorize_endpoint: "https://github.com/login/oauth/authorize",
        client_id: "cid",
        redirect_uri: "http://127.0.0.1:8765/callback",
        scope: "repo read:user",
        state: "xyz",
        pkce_challenge: Some("CHAL"),
    };
    let url = build_authorize_url(&req);
    let parsed = Url::parse(&url).unwrap();
    let pairs: HashMap<_, _> = parsed.query_pairs().into_owned().collect();

    assert_eq!(pairs.get("response_type").unwrap(), "code");
    assert_eq!(pairs.get("client_id").unwrap(), "cid");
    assert_eq!(
        pairs.get("redirect_uri").unwrap(),
        "http://127.0.0.1:8765/callback"
    );
    assert_eq!(pairs.get("scope").unwrap(), "repo read:user");
    assert_eq!(pairs.get("state").unwrap(), "xyz");
    assert_eq!(pairs.get("code_challenge").unwrap(), "CHAL");
    assert_eq!(pairs.get("code_challenge_method").unwrap(), "S256");

    // redirect_uri must be percent-encoded in the raw query string.
    assert!(url.contains("redirect_uri=http%3A%2F%2F127.0.0.1%3A8765%2Fcallback"));
}

#[test]
fn build_authorize_url_omits_pkce_when_none() {
    let req = AuthRequest {
        authorize_endpoint: "https://github.com/login/oauth/authorize",
        client_id: "cid",
        redirect_uri: "http://127.0.0.1:8765/callback",
        scope: "repo",
        state: "xyz",
        pkce_challenge: None,
    };
    let url = build_authorize_url(&req);
    assert!(!url.contains("code_challenge"));
    assert!(!url.contains("code_challenge_method"));
}

#[test]
fn try_build_authorize_url_refuses_a_non_url_endpoint() {
    let req = AuthRequest {
        authorize_endpoint: "not an endpoint",
        client_id: "cid",
        redirect_uri: "r",
        scope: "repo",
        state: "s",
        pkce_challenge: None,
    };
    assert_eq!(try_build_authorize_url(&req), None);
}

#[test]
fn token_form_adds_secret_and_verifier_when_given() {
    let req = TokenRequest {
        token_endpoint: "https://github.com/login/oauth/access_token",
        client_id: "cid",
        client_secret: Some("sec"),
        code: "c0de",
        redirect_uri: "http://127.0.0.1:8788/callback",
        pkce_verifier: Some("ver"),
    };
    let form = token_form(&req);
    let keys: Vec<&str> = form.iter().map(|(k, _)| k.as_str()).collect();
    assert_eq!(keys, vec!["client_id", "code", "redirect_uri", "client_secret", "code_verifier"]);
    assert_eq!(form[1].1, "c0de");
    let bare = TokenRequest { client_secret: None, pkce_verifier: None, ..req };
    assert_eq!(token_form(&bare).len(), 3);
}

#[test]
fn login_redirect_uses_loopback_port() {
    assert_eq!(redirect_uri(GITHUB_OAUTH_PORT), "http://127.0.0.1:8788/callback");
    assert_eq!(redirect_uri(0), "http://127.0.0.1:0/callback");
}

#[test]
fn login_authorize_url_asks_for_repo_scope_without_pkce() {
    let url = login_authorize_url("cid", "http://127.0.0.1:8788/callback", "st4te").unwrap();
    assert!(url.starts_with("https://github.com/login/oauth/authorize?"));
    let parsed = Url::parse(&url).unwrap();
    let pairs: HashMap<_, _> = parsed.query_pairs().into_owned().collect();
    assert_eq!(pairs.get("scope").unwrap(), "repo");
    assert_eq!(pairs.get("state").unwrap(), "st4te");
    assert!(!pairs.contains_key("code_challenge"));
}

#[test]
fn callback_with_matching_state_yields_code() {
    let code = callback_code("http://127.0.0.1:8788/callback?code=abc&state=s1", "s1").unwrap();
    assert_eq!(code, "abc");
}

#[test]
fn callback_with_foreign_state_is_refused() {
    let err = callback_code("http://127.0.0.1:8788/callback?code=abc&state=evil", "s1").unwrap_err();
    assert_eq!(err, "oauth `state` mismatch (possible CSRF) — aborting");
    let err = callback_code("http://127.0.0.1:8788/callback?state=s1", "s1").unwrap_err();
    assert_eq!(err, "callback url missing `code` parameter");
}

#[test]
fn login_name_falls_back_to_github() {
    assert_eq!(login_name(r#"{"login":"octocat","id":1}"#), "octocat");
    assert_eq!(login_name(r#"{"id":1}"#), "github");
    assert_eq!(login_name(r#"{"login":7}"#), "github");
    assert_eq!(login_name("not json"), "github");
}

#[test]
fn login_creates_an_unbound_github_account() {
    let d = login_account_draft("octocat".to_string());
    assert_eq!(d.provider, ProviderKind::Github);
    assert_eq!(d.display_name, "octocat");
    assert_eq!(d.base_url, None);
    assert_eq!(d.config, "{}");
}

use newt_todo::oauth::{is_success, token_outcome, TokenReply};
use newt_todo::tokens::{OAuthToken, TokenError};

#[test]
fn token_exchange_reports_failed_status_with_body() {
    let err = token_outcome(TokenReply::Failed {
        status: "401 Unauthorized".into(),
        body: "bad creds".into(),
    })
    .unwrap_err();
    assert_eq!(err, TokenError("token endpoint returned 401 Unauthorized: bad creds".into()));
    assert!(err.0.contains("401"));
}

#[test]
fn token_exchange_passes_parsed_token_through() {
    let t = OAuthToken { access_token: "gho_x".into(), refresh_token: None };
    assert_eq!(token_outcome(TokenReply::Parsed(Ok(t.clone()))), Ok(t));
    assert_eq!(
        token_outcome(TokenReply::Parsed(Err("missing field".into()))),
        Err(TokenError("missing field".into()))
    );
    assert!(is_success(200) && is_success(299));
    assert!(!is_success(199) && !is_success(300) && !is_success(401));
}
