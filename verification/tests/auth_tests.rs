use newt_todo::api::to_status;
use newt_todo::auth::{
    api_key_check, authorize, bearer, is_exempt, trim, ApiKeyInterceptor, AuthContext,
    AuthDecision, AuthMode, Code,
};
use newt_todo::service::user_of;

#[test]
fn parse_mode() {
    assert_eq!(AuthMode::parse("multi"), AuthMode::Multi);
    assert_eq!(AuthMode::parse("MULTI"), AuthMode::Multi);
    assert_eq!(AuthMode::parse("single"), AuthMode::Single);
    assert_eq!(AuthMode::parse(""), AuthMode::Single);
    assert_eq!(AuthMode::parse("bogus"), AuthMode::Single);
}

#[test]
fn exempt_paths() {
    assert!(is_exempt("/gitdeck.v1.Gitdeck/Register"));
    assert!(is_exempt("/gitdeck.v1.Gitdeck/Login"));
    assert!(!is_exempt("/gitdeck.v1.Gitdeck/ListTasks"));
}

#[test]
fn parse_mode_ignores_surrounding_whitespace() {
    assert_eq!(AuthMode::parse("  Multi\n"), AuthMode::Multi);
    assert_eq!(AuthMode::parse("\tmUlTi "), AuthMode::Multi);
    assert_eq!(AuthMode::parse("mul ti"), AuthMode::Single);
}

#[test]
fn trim_strips_unicode_whitespace() {
    assert_eq!(trim("\u{3000} a b \u{2028}"), "a b");
    assert_eq!(trim("   "), "");
    assert_eq!(trim("x"), "x");
}

#[test]
fn bearer_takes_token_after_prefix() {
    assert_eq!(bearer(Some("Bearer abc")), Some("abc".to_string()));
    assert_eq!(bearer(Some("bearer abc")), None);
    assert_eq!(bearer(Some("Bearer ")), Some(String::new()));
    assert_eq!(bearer(None), None);
}

#[test]
fn single_mode_proceeds_without_identity() {
    let d = authorize(AuthMode::Single, "/gitdeck.v1.Gitdeck/ListTasks", None, None, None);
    assert_eq!(
        d,
        AuthDecision::Proceed(AuthContext { mode: AuthMode::Single, user_id: None })
    );
}

#[test]
fn multi_mode_rejects_data_rpc_without_user() {
    let d = authorize(AuthMode::Multi, "/gitdeck.v1.Gitdeck/ListTasks", None, Some("junk"), None);
    assert_eq!(d, AuthDecision::Reject("missing or invalid bearer token".to_string()));
}

#[test]
fn multi_mode_attaches_verified_user() {
    let d = authorize(
        AuthMode::Multi,
        "/gitdeck.v1.Gitdeck/ListTasks",
        None,
        Some("jwt"),
        Some("user-1".to_string()),
    );
    assert_eq!(
        d,
        AuthDecision::Proceed(AuthContext {
            mode: AuthMode::Multi,
            user_id: Some("user-1".to_string())
        })
    );
}

#[test]
fn multi_mode_lets_login_through() {
    let d = authorize(AuthMode::Multi, "/gitdeck.v1.Gitdeck/Login", None, None, None);
    assert_eq!(
        d,
        AuthDecision::Proceed(AuthContext { mode: AuthMode::Multi, user_id: None })
    );
}

#[test]
fn api_key_gates_non_exempt_rpcs() {
    let d = authorize(AuthMode::Single, "/gitdeck.v1.Gitdeck/ListTasks", Some("k"), Some("other"), None);
    assert_eq!(d, AuthDecision::Reject("missing or invalid API key".to_string()));
    let d = authorize(AuthMode::Single, "/gitdeck.v1.Gitdeck/ListTasks", Some("k"), Some("k"), None);
    assert!(matches!(d, AuthDecision::Proceed(_)));
    let d = authorize(AuthMode::Single, "/gitdeck.v1.Gitdeck/Register", Some("k"), None, None);
    assert!(matches!(d, AuthDecision::Proceed(_)));
}

#[test]
fn api_key_interceptor_checks_bearer() {
    let open = ApiKeyInterceptor::new(None);
    assert!(open.call(None).is_ok());
    let keyed = ApiKeyInterceptor::new(Some("secret".to_string()));
    assert!(keyed.call(Some("Bearer secret")).is_ok());
    let err = keyed.call(Some("Bearer nope")).unwrap_err();
    assert_eq!(err.code, Code::Unauthenticated);
    assert_eq!(err.message, "missing or invalid API key");
    assert!(keyed.call(None).is_err());
    assert!(api_key_check(Some("s"), Some("s")).is_err());
}

#[test]
fn to_status_classifies_by_message() {
    let s = to_status("account not found: 42".to_string());
    assert_eq!(s.code, Code::NotFound);
    assert_eq!(s.message, "account not found: 42");
    assert_eq!(to_status("Row NOT FOUND".to_string()).code, Code::NotFound);
    assert_eq!(to_status("no token stored for account a".to_string()).code, Code::Unauthenticated);
    assert_eq!(to_status("Unauthorized".to_string()).code, Code::Unauthenticated);
    assert_eq!(to_status("refresh token expired".to_string()).code, Code::Internal);
    assert_eq!(to_status("database is locked".to_string()).code, Code::Internal);
}

#[test]
fn user_of_falls_back_to_local_user() {
    assert_eq!(user_of(None), "local");
    let anon = AuthContext { mode: AuthMode::Single, user_id: None };
    assert_eq!(user_of(Some(&anon)), "local");
    let authed = AuthContext { mode: AuthMode::Multi, user_id: Some("u-9".to_string()) };
    assert_eq!(user_of(Some(&authed)), "u-9");
}

use newt_todo::session::{session_claims, session_user, JwtCodec, SESSION_TTL_SECS};

fn now() -> i64 {
    time::OffsetDateTime::now_utc().unix_timestamp()
}

#[test]
fn issue_then_verify_roundtrips() {
    let codec = JwtCodec::new("test-secret");
    let token = codec.issue("user-123", now()).unwrap();
    assert_eq!(codec.verify(&token).as_deref(), Some("user-123"));
}

#[test]
fn wrong_secret_rejected() {
    let a = JwtCodec::new("secret-a");
    let b = JwtCodec::new("secret-b");
    let token = a.issue("u", now()).unwrap();
    assert!(b.verify(&token).is_none());
}

#[test]
fn garbage_rejected() {
    let codec = JwtCodec::new("s");
    assert!(codec.verify("not.a.jwt").is_none());
}

#[test]
fn expired_session_rejected() {
    let codec = JwtCodec::new("s");
    let token = codec.issue("u", now() - 2 * SESSION_TTL_SECS).unwrap();
    assert!(codec.verify(&token).is_none());
}

#[test]
fn same_claims_give_the_same_token() {
    let codec = JwtCodec::new("s");
    assert_eq!(codec.issue("u", 1_700_000_000).unwrap(), codec.issue("u", 1_700_000_000).unwrap());
    assert_ne!(codec.issue("u", 1_700_000_000).unwrap(), codec.issue("v", 1_700_000_000).unwrap());
}

#[test]
fn session_claims_expire_after_thirty_days() {
    let (sub, iat, exp) = session_claims("user-1", 1_000);
    assert_eq!((sub.as_str(), iat, exp), ("user-1", 1_000, 1_000 + 2_592_000));
    assert_eq!(session_user(Some(("u".into(), 1, 2))), Some("u".to_string()));
    assert_eq!(session_user(None), None);
}
