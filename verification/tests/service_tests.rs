use newt_todo::api::{db_url_for_path, db_url_from_setting, parse_optional_json};
use newt_todo::auth::Code;
use newt_todo::domain::{Account, Board, BoardCard, BoardColumn, ProviderKind, TaskStatus};
use newt_todo::dto::{CreateTaskParams, ListTasksParams, TaskIdParam, UpdateTaskParams};
use newt_todo::provider::RemoteRepo;
use newt_todo::service::{
    assemble_board, board_overviews, column_filter, complete_params, digest_since_day,
    draft_from_params, filter_from_params, github_provider_for, parse_id, parse_ids, parse_status,
    patch_from_params, snapshot_rows, ServiceError,
};
use newt_todo::tokens::{OAuthToken, TokenError};

const ID: &str = "6F1E2D3C-AAAA-4BBB-8CCC-0123456789AB";
const ID_CANON: &str = "6f1e2d3c-aaaa-4bbb-8ccc-0123456789ab";

#[test]
fn db_url_for_path_uses_rwc_mode() {
    let url = db_url_for_path("/tmp/x/todo.db");
    assert_eq!(url, "sqlite:///tmp/x/todo.db?mode=rwc");
}

#[test]
fn db_url_from_setting_keeps_urls_and_wraps_paths() {
    assert_eq!(db_url_from_setting("postgres://u@h/db"), "postgres://u@h/db");
    assert_eq!(db_url_from_setting("sqlite://x.db"), "sqlite://x.db");
    assert_eq!(db_url_from_setting("data/todo.db"), "sqlite://data/todo.db?mode=rwc");
}

#[test]
fn parse_optional_json_treats_empty_as_absent() {
    assert_eq!(parse_optional_json(None), Ok(None));
    assert_eq!(parse_optional_json(Some(String::new())), Ok(None));
    assert_eq!(
        parse_optional_json(Some(r#"{"state":"open"}"#.to_string())),
        Ok(Some(r#"{"state":"open"}"#.to_string()))
    );
    let err = parse_optional_json(Some("{oops".to_string())).unwrap_err();
    assert_eq!(err.code, Code::InvalidArgument);
    assert!(err.message.starts_with("invalid filter_json: "), "{}", err.message);
}

#[test]
fn parse_status_accepts_open_and_done_only() {
    assert_eq!(parse_status("open"), Ok(TaskStatus::Open));
    assert_eq!(parse_status("done"), Ok(TaskStatus::Done));
    let err = parse_status("nope").unwrap_err();
    assert_eq!(err, ServiceError::InvalidStatus("nope".to_string()));
    assert_eq!(err.message(), "invalid status `nope` (use open|done)");
}

#[test]
fn parse_id_writes_uuids_canonically() {
    assert_eq!(parse_id(ID), Ok(ID_CANON.to_string()));
    assert_eq!(parse_id("6f1e2d3caaaa4bbb8ccc0123456789ab"), Ok(ID_CANON.to_string()));
    assert_eq!(parse_id("00000000-0000-0000-0000-000000000000"), Ok("00000000-0000-0000-0000-000000000000".to_string()));
    assert!(matches!(parse_id("not-a-uuid"), Err(ServiceError::InvalidId(_))));
}

#[test]
fn parse_ids_stops_at_first_bad_id() {
    let ok = parse_ids(&vec![ID.to_string(), ID_CANON.to_string()]).unwrap();
    assert_eq!(ok, vec![ID_CANON.to_string(), ID_CANON.to_string()]);
    let bad = parse_ids(&vec![ID.to_string(), "x".to_string(), "y".to_string()]);
    assert!(matches!(bad, Err(ServiceError::InvalidId(_))));
    assert_eq!(parse_ids(&vec![]), Ok(vec![]));
}

#[test]
fn create_params_fill_defaults() {
    let d = draft_from_params(CreateTaskParams {
        title: "write tests".into(),
        body: None,
        labels: None,
        due_at: None,
    })
    .unwrap();
    assert_eq!(d.title, "write tests");
    assert_eq!(d.body, "");
    assert!(d.labels.is_empty());
    assert_eq!(d.due_at, None);

    let d = draft_from_params(CreateTaskParams {
        title: "t".into(),
        body: Some("for the mcp".into()),
        labels: Some(vec!["dev".into()]),
        due_at: Some("2026-07-01T09:00:00Z".into()),
    })
    .unwrap();
    assert_eq!(d.body, "for the mcp");
    assert_eq!(d.labels, vec!["dev".to_string()]);
    assert_eq!(d.due_at.as_deref(), Some("2026-07-01T09:00:00Z"));
}

#[test]
fn create_params_reject_a_bad_due_date() {
    let r = draft_from_params(CreateTaskParams {
        title: "t".into(),
        body: None,
        labels: None,
        due_at: Some("tomorrow".into()),
    });
    assert!(matches!(r, Err(ServiceError::InvalidDate(_))));
}

#[test]
fn list_params_build_filter_and_reject_bad_status() {
    let f = filter_from_params(ListTasksParams {
        status: Some("done".into()),
        label: Some("dev".into()),
        query: None,
    })
    .unwrap();
    assert_eq!(f.status, Some(TaskStatus::Done));
    assert_eq!(f.label.as_deref(), Some("dev"));
    assert!(!f.include_deleted);
    let bad = filter_from_params(ListTasksParams { status: Some("nope".into()), label: None, query: None });
    assert!(bad.is_err(), "invalid status must error");
}

fn update(id: &str) -> UpdateTaskParams {
    UpdateTaskParams {
        id: id.into(),
        title: None,
        body: None,
        status: None,
        labels: None,
        due_at: None,
        clear_due: false,
    }
}

#[test]
fn update_params_build_patch() {
    let (id, patch) = patch_from_params(UpdateTaskParams {
        title: Some("renamed".into()),
        status: Some("done".into()),
        due_at: Some("2026-08-01T09:00:00Z".into()),
        ..update(ID)
    })
    .unwrap();
    assert_eq!(id, ID_CANON);
    assert_eq!(patch.title.as_deref(), Some("renamed"));
    assert_eq!(patch.status, Some(TaskStatus::Done));
    assert_eq!(patch.due_at, Some(Some("2026-08-01T09:00:00Z".to_string())));
    assert_eq!(patch.body, None);
}

#[test]
fn update_clear_due_overrides_due_at() {
    let (_, patch) = patch_from_params(UpdateTaskParams {
        due_at: Some("not even a date".into()),
        clear_due: true,
        ..update(ID)
    })
    .unwrap();
    assert_eq!(patch.due_at, Some(None));
}

#[test]
fn update_checks_id_then_status_then_date() {
    let r = patch_from_params(UpdateTaskParams {
        status: Some("nope".into()),
        due_at: Some("bad".into()),
        ..update("bad-id")
    });
    assert!(matches!(r, Err(ServiceError::InvalidId(_))));
    let r = patch_from_params(UpdateTaskParams {
        status: Some("nope".into()),
        due_at: Some("bad".into()),
        ..update(ID)
    });
    assert_eq!(r, Err(ServiceError::InvalidStatus("nope".to_string())));
    let r = patch_from_params(UpdateTaskParams { due_at: Some("bad".into()), ..update(ID) });
    assert!(matches!(r, Err(ServiceError::InvalidDate(_))));
}

#[test]
fn complete_sets_done_and_nothing_else() {
    let p = complete_params(TaskIdParam { id: ID.into() });
    assert_eq!(p.status.as_deref(), Some("done"));
    let (id, patch) = patch_from_params(p).unwrap();
    assert_eq!(id, ID_CANON);
    assert_eq!(patch.status, Some(TaskStatus::Done));
    assert_eq!((patch.title, patch.body, patch.labels, patch.due_at), (None, None, None, None));
}

fn account(provider: ProviderKind, config: &str, base_url: Option<&str>) -> Account {
    Account {
        id: ID_CANON.into(),
        provider,
        display_name: "gh".into(),
        base_url: base_url.map(|s| s.to_string()),
        config: config.into(),
        created_at: "2026-06-15T10:00:00Z".into(),
    }
}

fn token() -> Result<Option<OAuthToken>, TokenError> {
    Ok(Some(OAuthToken { access_token: "gho_x".into(), refresh_token: None }))
}

#[test]
fn provider_for_sync_needs_owner_and_repo() {
    let a = account(ProviderKind::Github, r#"{"owner":"o","repo":"r"}"#, Some("http://mock"));
    let p = github_provider_for(ID_CANON, Some(a), token(), true).unwrap();
    assert_eq!(p.base_url, "http://mock");
    assert_eq!(p.token, "gho_x");
    assert_eq!((p.owner.as_str(), p.repo.as_str()), ("o", "r"));

    let a = account(ProviderKind::Github, r#"{"repo":"r"}"#, None);
    let err = github_provider_for(ID_CANON, Some(a), token(), true).unwrap_err();
    assert_eq!(err.message(), "github account missing config.owner");
    let a = account(ProviderKind::Github, r#"{"owner":"o"}"#, None);
    let err = github_provider_for(ID_CANON, Some(a), token(), true).unwrap_err();
    assert_eq!(err.message(), "github account missing config.repo");
}

#[test]
fn provider_for_dashboard_defaults_owner_repo_and_base() {
    let a = account(ProviderKind::Github, "{}", None);
    let p = github_provider_for(ID_CANON, Some(a), token(), false).unwrap();
    assert_eq!(p.base_url, "https://api.github.com");
    assert_eq!((p.owner.as_str(), p.repo.as_str()), ("", ""));
}

#[test]
fn provider_for_reports_each_refusal() {
    let err = github_provider_for("acct-1", None, token(), false).unwrap_err();
    assert_eq!(err.message(), "account not found: acct-1");
    let a = account(ProviderKind::Codeberg, "{}", None);
    let err = github_provider_for("acct-1", Some(a), token(), false).unwrap_err();
    assert_eq!(err, ServiceError::Unsupported(ProviderKind::Codeberg));
    assert_eq!(err.message(), "provider not yet supported: codeberg");
    let a = account(ProviderKind::Github, "{}", None);
    let err = github_provider_for("acct-1", Some(a), Ok(None), false).unwrap_err();
    assert_eq!(err.message(), "no token stored for account acct-1");
    let a = account(ProviderKind::Github, "{}", None);
    let err = github_provider_for("acct-1", Some(a), Err(TokenError("locked".into())), false).unwrap_err();
    assert_eq!(err.message(), "token store error: locked");
}

#[test]
fn column_filter_defaults_to_manual_only() {
    assert_eq!(column_filter(None), "{}");
    assert_eq!(column_filter(Some(r#"{"state":"open"}"#.into())), r#"{"state":"open"}"#);
}

fn board() -> Board {
    Board {
        id: "b".into(),
        name: "PM".into(),
        position: 0,
        created_at: "2026-06-15T10:00:00Z".into(),
        updated_at: "2026-06-15T10:00:00Z".into(),
    }
}

fn column(id: &str, name: &str, position: i64, filter: &str) -> BoardColumn {
    BoardColumn {
        id: id.into(),
        board_id: "b".into(),
        name: name.into(),
        position,
        filter: filter.into(),
        created_at: "2026-06-15T10:00:00Z".into(),
    }
}

fn card(id: &str, column_id: &str, item_key: &str, position: i64) -> BoardCard {
    BoardCard {
        id: id.into(),
        board_id: "b".into(),
        column_id: column_id.into(),
        item_key: item_key.into(),
        position,
        created_at: "2026-06-15T10:00:00Z".into(),
    }
}

#[test]
fn assemble_board_keeps_column_order_and_splits_cards() {
    let columns = vec![column("cb", "B", 0, "{}"), column("ca", "A", 1, r#"{"state":"open"}"#)];
    let cards = vec![
        card("1", "ca", "todo:1", 0),
        card("2", "cb", "todo:9", 0),
        card("3", "ca", "todo:2", 1),
    ];
    let full = assemble_board(board(), columns, cards);
    assert_eq!(full.columns.len(), 2);
    assert_eq!(full.columns[0].id, "cb");
    assert_eq!(full.columns[1].id, "ca");
    let a_cards: Vec<&str> = full.columns[1].cards.iter().map(|c| c.item_key.as_str()).collect();
    assert_eq!(a_cards, vec!["todo:1", "todo:2"]);
    assert_eq!(full.columns[0].cards.len(), 1);
    assert_eq!(full.columns[1].filter, r#"{"state":"open"}"#);
}

#[test]
fn assemble_board_with_no_columns_drops_cards() {
    let full = assemble_board(board(), vec![], vec![card("1", "x", "todo:1", 0)]);
    assert!(full.columns.is_empty());
    assert_eq!(full.name, "PM");
}

#[test]
fn board_overviews_have_no_columns() {
    let boards = board_overviews(vec![board(), Board { id: "c".into(), ..board() }]);
    assert_eq!(boards.len(), 2);
    assert_eq!(boards[1].id, "c");
    assert!(boards.iter().all(|b| b.columns.is_empty()));
}

fn repo(name: &str, stars: u64, issues: u64) -> RemoteRepo {
    RemoteRepo {
        id: "1".into(),
        full_name: name.into(),
        description: None,
        html_url: format!("https://github.com/{name}"),
        stars,
        open_issues: issues,
        language: None,
        is_private: false,
        is_fork: false,
        updated_at: "2026-06-16T10:00:00Z".into(),
    }
}

#[test]
fn snapshot_rows_record_stars_and_issues_with_zero_forks() {
    let rows = snapshot_rows(&vec![repo("o/alpha", 5, 2), repo("o/beta", 1, 0)]);
    assert_eq!(rows.len(), 2);
    assert_eq!(rows[0].repo_full_name, "o/alpha");
    assert_eq!((rows[0].stars, rows[0].forks, rows[0].open_issues), (5, 0, 2));
    assert_eq!(rows[1].stars, 1);
}

#[test]
fn digest_loads_from_the_older_of_the_latest_days() {
    assert_eq!(digest_since_day(&vec![]), None);
    assert_eq!(
        digest_since_day(&vec!["2026-06-16".into(), "2026-06-15".into()]),
        Some("2026-06-15".to_string())
    );
}

#[test]
fn error_messages_read_as_the_service_reports_them() {
    assert_eq!(
        ServiceError::RepoNotFound("o".into(), "r".into()).message(),
        "repository not found: o/r"
    );
    assert_eq!(ServiceError::InvalidDate("bad".into()).message(), "bad");
}
