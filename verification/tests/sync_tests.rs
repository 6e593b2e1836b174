use newt_todo::domain::{SourceRef, Task, TaskStatus};
use newt_todo::error::CoreError;
use newt_todo::provider::RemoteTask;
use newt_todo::store::{
    card_placement, next_position, positions_for, push_plan, require_affected, upsert_remote,
    CardPlacement, SyncReport, UpsertAction,
};
use newt_todo::syncset::{
    board_placeholder, change_kind, changes_since, filter_since, lww_applies, max_cursor,
    next_cursor, parse_kind, sort_by_clock, BoardPlaceholder, SyncChange, SyncKind,
};

fn change(kind: &str, id: &str, at: &str) -> SyncChange {
    SyncChange {
        kind: kind.into(),
        id: id.into(),
        updated_at: at.into(),
        deleted: false,
        data_json: "{}".into(),
        board_id: String::new(),
        column_id: String::new(),
    }
}

fn remote(title: &str) -> RemoteTask {
    RemoteTask {
        remote_id: "1".into(),
        title: title.into(),
        body: "from github".into(),
        status: TaskStatus::Open,
        labels: vec![],
        html_url: Some("https://github.com/o/r/issues/1".into()),
        remote_updated_at: "2026-06-15T10:00:00Z".into(),
    }
}

fn mirrored(dirty: bool) -> Task {
    Task {
        id: "t1".into(),
        source: Some(SourceRef { account_id: "acc".into(), remote_id: "1".into(), html_url: None }),
        title: "local title".into(),
        body: String::new(),
        status: TaskStatus::Open,
        labels: vec![],
        due_at: None,
        local_updated_at: "2026-06-14T10:00:00Z".into(),
        dirty,
        deleted: false,
    }
}

#[test]
fn upsert_remote_inserts_then_updates_when_not_dirty() {
    let (action, t) = upsert_remote(None, "new".into(), "acc".into(), remote("remote issue"), "now".into());
    assert_eq!(action, UpsertAction::Insert { remote_updated_at: "2026-06-15T10:00:00Z".into() });
    assert_eq!(t.title, "remote issue");
    assert!(!t.dirty);
    assert_eq!(t.source.as_ref().unwrap().remote_id, "1");

    let (action, t) = upsert_remote(Some(mirrored(false)), "x".into(), "acc".into(), remote("changed"), "now".into());
    assert_eq!(action, UpsertAction::Overwrite { remote_updated_at: "2026-06-15T10:00:00Z".into() });
    assert_eq!(t.title, "changed");
    assert_eq!(t.id, "t1");
    assert_eq!(t.local_updated_at, "now");
}

#[test]
fn upsert_remote_preserves_local_dirty_edits() {
    let (action, t) = upsert_remote(Some(mirrored(true)), "x".into(), "acc".into(), remote("changed"), "now".into());
    assert_eq!(action, UpsertAction::KeepLocal);
    assert_eq!(t, mirrored(true));
}

#[test]
fn push_plan_only_pushes_mirrored_tasks() {
    let mut local = mirrored(true);
    local.source = None;
    let plan = push_plan(vec![mirrored(true), local]);
    assert_eq!(plan.len(), 1);
    assert_eq!(plan[0].0, "1");
    assert_eq!(plan[0].1.title.as_deref(), Some("local title"));
    assert_eq!(plan[0].1.status, Some(TaskStatus::Open));
    let report = SyncReport::of(3, &plan);
    assert_eq!(report, SyncReport { pulled: 3, pushed: 1 });
}

#[test]
fn next_position_goes_after_the_last() {
    assert_eq!(next_position(&[]), 0);
    assert_eq!(next_position(&[0, 5, 2]), 6);
    assert_eq!(next_position(&[-3]), -2);
}

#[test]
fn place_card_upsert_moves_on_conflict() {
    assert_eq!(card_placement(None, &[]), CardPlacement::Insert { position: 0 });
    assert_eq!(
        card_placement(Some("c1".into()), &[0, 1]),
        CardPlacement::Move { id: "c1".into(), position: 2 }
    );
}

#[test]
fn reorder_assigns_positions_in_order() {
    let out = positions_for(&["b".to_string(), "a".to_string()]);
    assert_eq!(out, vec![("b".to_string(), 0), ("a".to_string(), 1)]);
}

#[test]
fn delete_missing_is_not_found() {
    assert_eq!(require_affected(1, "x"), Ok(()));
    assert_eq!(require_affected(0, "x"), Err(CoreError::NotFound("x".into())));
}

#[test]
fn apply_creates_then_older_is_ignored_and_newer_applied() {
    let stored = change("task", "t", "2026-06-15T10:00:00Z");
    assert!(lww_applies(None, &stored));
    assert!(!lww_applies(Some(&stored), &change("task", "t", "2026-06-14T10:00:00Z")));
    assert!(!lww_applies(Some(&stored), &change("task", "t", "2026-06-15T10:00:00Z")));
    assert!(lww_applies(Some(&stored), &change("task", "t", "2026-06-16T10:00:00Z")));
}

#[test]
fn older_column_change_is_ignored_whatever_its_board() {
    let mut stored = change("column", "c", "2026-06-16T10:00:00Z");
    stored.board_id = "b1".into();
    let mut incoming = change("column", "c", "2026-06-01T10:00:00Z");
    incoming.board_id = "b2".into();
    assert!(!lww_applies(Some(&stored), &incoming));
    incoming.updated_at = "2026-06-17T10:00:00Z".into();
    assert!(lww_applies(Some(&stored), &incoming));
}

#[test]
fn kinds_parse_and_unknown_is_a_data_error() {
    assert_eq!(parse_kind("task"), Some(SyncKind::Task));
    assert_eq!(parse_kind("card"), Some(SyncKind::Card));
    assert_eq!(parse_kind("Task"), None);
    assert_eq!(change_kind(&change("board", "b", "t")), Ok(SyncKind::Board));
    assert_eq!(
        change_kind(&change("widget", "w", "t")),
        Err(CoreError::DataFormat("change.kind".into()))
    );
}

#[test]
fn column_and_card_apply_under_placeholder_board() {
    assert_eq!(board_placeholder("b", None, "u"), Ok(BoardPlaceholder::Create));
    assert_eq!(board_placeholder("b", Some("u"), "u"), Ok(BoardPlaceholder::Present));
    assert_eq!(
        board_placeholder("b", Some("other"), "u"),
        Err(CoreError::DataFormat("board_id".into()))
    );
    assert_eq!(
        board_placeholder("", None, "u"),
        Err(CoreError::DataFormat("board_id".into()))
    );
}

#[test]
fn changes_since_filters_and_orders() {
    let all = vec![
        change("task", "c", "2026-06-17T00:00:00Z"),
        change("board", "a", "2026-06-15T00:00:00Z"),
        change("card", "b", "2026-06-16T00:00:00Z"),
        change("task", "d", "2026-06-16T00:00:00Z"),
    ];
    let out = changes_since(&all, Some("2026-06-15T00:00:00Z"));
    let ids: Vec<&str> = out.iter().map(|c| c.id.as_str()).collect();
    assert_eq!(ids, vec!["b", "d", "c"]);
    let everything = changes_since(&all, None);
    assert_eq!(everything.len(), 4);
    assert_eq!(everything[0].id, "a");
    assert_eq!(filter_since(&all, Some("2026-06-17T00:00:00Z")).len(), 0);
}

#[test]
fn sort_by_clock_is_stable() {
    let sorted = sort_by_clock(vec![
        change("task", "x", "2"),
        change("task", "y", "1"),
        change("task", "z", "2"),
    ]);
    let ids: Vec<&str> = sorted.iter().map(|c| c.id.as_str()).collect();
    assert_eq!(ids, vec!["y", "x", "z"]);
}

#[test]
fn cursor_advances_to_the_latest_change() {
    let all = vec![change("task", "a", "2026-06-15T00:00:00Z"), change("task", "b", "2026-06-17T00:00:00Z")];
    assert_eq!(max_cursor(&all), Some("2026-06-17T00:00:00Z".to_string()));
    assert_eq!(max_cursor(&[]), None);
    assert_eq!(next_cursor(&[], "2026-06-01T00:00:00Z"), "2026-06-01T00:00:00Z");
    assert_eq!(next_cursor(&all, ""), "2026-06-17T00:00:00Z");
}

#[test]
fn create_and_list_boards_ordered_by_position() {
    // The first board goes to position 0, the next one after it.
    let first = next_position(&[]);
    let second = next_position(&[first]);
    assert_eq!((first, second), (0, 1));
}

#[test]
fn reorder_boards_sets_positions() {
    let out = positions_for(&["c".to_string(), "a".to_string(), "b".to_string()]);
    assert_eq!(
        out,
        vec![("c".to_string(), 0), ("a".to_string(), 1), ("b".to_string(), 2)]
    );
}

#[test]
fn delete_missing_board_is_not_found() {
    let id = "0b7c2f5e-0000-4000-8000-000000000009";
    assert_eq!(require_affected(0, id), Err(CoreError::NotFound(id.to_string())));
}
