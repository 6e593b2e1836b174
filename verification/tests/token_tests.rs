use newt_todo::rows::{task_from_row, task_row, TaskRow};
use newt_todo::domain::{SourceRef, Task, TaskStatus};
use newt_todo::error::CoreError;
use argon2::password_hash::PasswordHasher;
use newt_todo::tokens::{
    check_registration, check_username_free, login_result, new_password_hash, EnvTokenStore, KeyringDelete, KeyringRead, KeyringTokenStore,
    MemoryTokenStore, OAuthToken, RegistrationError, TokenError, TokenStore,
};

fn token() -> OAuthToken {
    OAuthToken {
        access_token: "gho_abc".into(),
        refresh_token: Some("ghr_xyz".into()),
    }
}

#[test]
fn memory_save_load_roundtrip() {
    let mut store = MemoryTokenStore::new();
    store.save("acct-1", &token()).unwrap();
    let loaded = store.load("acct-1").unwrap();
    assert_eq!(loaded, Some(token()));
}

#[test]
fn memory_load_missing_returns_none() {
    let store = MemoryTokenStore::new();
    assert_eq!(store.load("nope").unwrap(), None);
}

#[test]
fn memory_delete_removes() {
    let mut store = MemoryTokenStore::new();
    store.save("acct-1", &token()).unwrap();
    store.delete("acct-1").unwrap();
    assert_eq!(store.load("acct-1").unwrap(), None);
}

#[test]
fn memory_save_replaces_and_keeps_other_accounts() {
    let mut store = MemoryTokenStore::new();
    store.save("a", &token()).unwrap();
    store.save("b", &OAuthToken { access_token: "b1".into(), refresh_token: None }).unwrap();
    store.save("a", &OAuthToken { access_token: "a2".into(), refresh_token: None }).unwrap();
    assert_eq!(store.load("a").unwrap().unwrap().access_token, "a2");
    assert_eq!(store.load("b").unwrap().unwrap().access_token, "b1");
    store.delete("zzz").unwrap();
    assert!(store.load("b").unwrap().is_some());
}

#[test]
fn store_trait_works_for_memory_and_env() {
    fn roundtrip<S: TokenStore>(s: &mut S) -> Option<OAuthToken> {
        s.save("acct", &token()).unwrap();
        s.load("acct").unwrap()
    }
    let mut mem = MemoryTokenStore::new();
    assert_eq!(roundtrip(&mut mem), Some(token()));
    let mut env = EnvTokenStore::new(None);
    assert_eq!(roundtrip(&mut env), None);
}

#[test]
fn returns_configured_token_for_any_account() {
    let store = EnvTokenStore::new(Some("gho_env".into()));
    assert!(store.has_token());
    let t = store.load("any-account").unwrap().unwrap();
    assert_eq!(t.access_token, "gho_env");
    assert_eq!(t.refresh_token, None);
}

#[test]
fn none_when_unset() {
    let store = EnvTokenStore::new(None);
    assert!(!store.has_token());
    assert_eq!(store.load("x").unwrap(), None);
}

#[test]
fn keyring_answers_mean_what_the_store_reports() {
    let k = KeyringTokenStore::new();
    assert_eq!(k.service(), "newt-todo");
    assert_eq!(k.load_result(KeyringRead::NoEntry), Ok(None));
    assert_eq!(k.load_result(KeyringRead::Found(Ok(token()))), Ok(Some(token())));
    assert_eq!(
        k.load_result(KeyringRead::Found(Err("bad json".into()))),
        Err(TokenError("bad json".into()))
    );
    assert_eq!(k.load_result(KeyringRead::Failed("locked".into())), Err(TokenError("locked".into())));
    assert_eq!(k.delete_result(KeyringDelete::NoEntry), Ok(()));
    assert_eq!(k.delete_result(KeyringDelete::Deleted), Ok(()));
    assert_eq!(k.delete_result(KeyringDelete::Failed("x".into())), Err(TokenError("x".into())));
}

#[test]
fn registration_requires_username_and_password() {
    assert_eq!(check_registration("  alice ", "pw"), Ok("alice".to_string()));
    assert_eq!(check_registration("   ", "pw"), Err(RegistrationError::EmptyUsername));
    assert_eq!(check_registration("bob", ""), Err(RegistrationError::EmptyPassword));
    assert_eq!(RegistrationError::EmptyUsername.message(), "username must not be empty");
}

fn stored_task() -> Task {
    Task {
        id: "6f1e2d3c-aaaa-4bbb-8ccc-0123456789ab".into(),
        source: Some(SourceRef {
            account_id: "00000000-0000-4000-8000-000000000001".into(),
            remote_id: "42".into(),
            html_url: Some("https://github.com/o/r/issues/42".into()),
        }),
        title: "write tests".into(),
        body: "with \"quotes\" and \\ slashes".into(),
        status: TaskStatus::Done,
        labels: vec!["dev".into(), "ü".into()],
        due_at: Some("2026-07-01T09:00:00Z".into()),
        local_updated_at: "2026-06-15T10:00:00Z".into(),
        dirty: true,
        deleted: false,
    }
}

#[test]
fn create_then_get_roundtrips() {
    let row = task_row(stored_task());
    assert_eq!(row.status, "done");
    assert_eq!(row.dirty, 1);
    assert_eq!(row.deleted, 0);
    let back = task_from_row(row).unwrap();
    assert_eq!(back, stored_task());
}

#[test]
fn unreadable_rows_name_the_column() {
    let good = task_row(stored_task());
    let bad_id = TaskRow { id: "nope".into(), ..good.clone() };
    assert_eq!(task_from_row(bad_id), Err(CoreError::DataFormat("id".into())));
    let bad_account = TaskRow { account_id: Some("nope".into()), id: "nope".into(), ..good.clone() };
    assert_eq!(task_from_row(bad_account), Err(CoreError::DataFormat("account_id".into())));
    let bad_status = TaskRow { status: "wip".into(), ..good.clone() };
    assert_eq!(task_from_row(bad_status), Err(CoreError::DataFormat("status".into())));
    let bad_labels = TaskRow { labels: "[1]".into(), ..good.clone() };
    assert!(matches!(task_from_row(bad_labels), Err(CoreError::Serde(_))));
    let bad_due = TaskRow { due_at: Some("soon".into()), ..good.clone() };
    assert_eq!(task_from_row(bad_due), Err(CoreError::DataFormat("datetime".into())));
}

#[test]
fn a_row_without_remote_id_has_no_source() {
    let row = TaskRow { remote_id: None, ..task_row(stored_task()) };
    let t = task_from_row(row).unwrap();
    assert_eq!(t.source, None);
}

fn hash_of(password: &str) -> String {
    let salt = argon2::password_hash::SaltString::from_b64("c29tZXNhbHRzb21lc2FsdA").unwrap();
    argon2::Argon2::default()
        .hash_password(password.as_bytes(), &salt)
        .unwrap()
        .to_string()
}

#[test]
fn login_needs_user_and_matching_password() {
    let user = Some(("user-1".to_string(), hash_of("hunter2")));
    assert_eq!(login_result(user.clone(), "hunter2"), Some("user-1".to_string()));
    assert_eq!(login_result(user, "wrong"), None);
    assert_eq!(login_result(None, "hunter2"), None);
    assert_eq!(login_result(Some(("u".to_string(), "not a hash".to_string())), "x"), None);
}

#[test]
fn taken_username_is_refused() {
    assert_eq!(check_username_free(true), Err(RegistrationError::UsernameTaken));
    assert_eq!(RegistrationError::UsernameTaken.message(), "username already taken");
    assert_eq!(check_username_free(false), Ok(()));
}

#[test]
fn env_store_ignores_empty_setting() {
    assert_eq!(EnvTokenStore::from_env_value(None).token, None);
    assert_eq!(EnvTokenStore::from_env_value(Some(String::new())).token, None);
    let s = EnvTokenStore::from_env_value(Some("ghp_x".to_string()));
    assert!(s.has_token());
    assert_eq!(s.token.as_deref(), Some("ghp_x"));
}

#[test]
fn register_then_verify_login() {
    let salt = [7u8; 16];
    let hash = new_password_hash(false, "hunter2", &salt).unwrap();
    assert!(hash.starts_with("$argon2id$"));
    let user = Some(("user-1".to_string(), hash.clone()));
    assert_eq!(login_result(user.clone(), "hunter2"), Some("user-1".to_string()));
    // Same password and salt give the same hash.
    assert_eq!(new_password_hash(false, "hunter2", &salt).unwrap(), hash);
}

#[test]
fn wrong_password_no_login() {
    let hash = new_password_hash(false, "hunter2", &[1u8; 16]).unwrap();
    assert_eq!(login_result(Some(("u".to_string(), hash)), "hunter3"), None);
}

#[test]
fn duplicate_username_errors() {
    assert_eq!(new_password_hash(true, "pw", &[1u8; 16]), Err(RegistrationError::UsernameTaken));
}

#[test]
fn unusable_salt_is_a_hash_failure() {
    // argon2 needs at least 8 salt bytes.
    let err = new_password_hash(false, "pw", &[1u8; 4]).unwrap_err();
    assert!(matches!(err, RegistrationError::HashFailed(_)));
    assert!(err.message().starts_with("hash password: "));
}
