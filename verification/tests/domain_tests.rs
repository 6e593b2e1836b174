use newt_todo::domain::{apply_patch, ProviderKind, SourceRef, Task, TaskDraft, TaskPatch, TaskStatus};
use newt_todo::provider::RemoteDraft;

fn task() -> Task {
    Task {
        id: "6f1e2d3c-0000-4000-8000-000000000001".to_string(),
        source: None,
        title: "write tests".to_string(),
        body: "for the library".to_string(),
        status: TaskStatus::Open,
        labels: vec!["dev".to_string()],
        due_at: Some("2026-07-01T09:00:00Z".to_string()),
        local_updated_at: "2026-06-15T10:00:00Z".to_string(),
        dirty: false,
        deleted: false,
    }
}

#[test]
fn draft_defaults_are_empty() {
    let d = TaskDraft::new("Buy milk");
    assert_eq!(d.title, "Buy milk");
    assert_eq!(d.body, "");
    assert!(d.labels.is_empty());
    assert!(d.due_at.is_none());
}

#[test]
fn status_roundtrips_as_str() {
    assert_eq!(TaskStatus::Open.as_str(), "open");
    assert_eq!(TaskStatus::Done.as_str(), "done");
    assert_eq!(TaskStatus::from_str("done"), Some(TaskStatus::Done));
    assert_eq!(TaskStatus::from_str("nope"), None);
}

#[test]
fn remote_draft_builds() {
    let d = RemoteDraft {
        title: "x".into(),
        body: "b".into(),
        labels: vec!["l".into()],
    };
    assert_eq!(d.title, "x");
}

#[test]
fn provider_kind_roundtrips_and_rejects_unknown() {
    for k in [ProviderKind::Github, ProviderKind::Codeberg, ProviderKind::Clickup] {
        assert_eq!(ProviderKind::parse(k.as_str()), Some(k));
    }
    assert_eq!(ProviderKind::Github.as_str(), "github");
    assert_eq!(ProviderKind::parse("GitHub"), None);
    assert_eq!(ProviderKind::parse(""), None);
}

#[test]
fn status_from_str_is_case_sensitive() {
    assert_eq!(TaskStatus::from_str("open"), Some(TaskStatus::Open));
    assert_eq!(TaskStatus::from_str("Open"), None);
    assert_eq!(TaskStatus::from_str(""), None);
}

#[test]
fn patch_replaces_named_fields_and_marks_dirty() {
    let patch = TaskPatch {
        title: Some("renamed".to_string()),
        body: None,
        status: Some(TaskStatus::Done),
        labels: None,
        due_at: Some(None),
    };
    let t = apply_patch(task(), patch, "2026-06-16T08:00:00Z".to_string());
    assert_eq!(t.title, "renamed");
    assert_eq!(t.body, "for the library");
    assert_eq!(t.status, TaskStatus::Done);
    assert_eq!(t.labels, vec!["dev".to_string()]);
    assert_eq!(t.due_at, None);
    assert!(t.dirty);
    assert_eq!(t.local_updated_at, "2026-06-16T08:00:00Z");
    assert_eq!(t.id, task().id);
}

#[test]
fn empty_patch_keeps_fields_but_stamps_time() {
    let patch = TaskPatch { title: None, body: None, status: None, labels: None, due_at: None };
    let t = apply_patch(task(), patch, "2026-06-16T08:00:00Z".to_string());
    assert_eq!(t.title, task().title);
    assert_eq!(t.due_at, task().due_at);
    assert!(t.dirty);
    assert_eq!(t.local_updated_at, "2026-06-16T08:00:00Z");
}

#[test]
fn patch_applied_twice_equals_once() {
    let patch = TaskPatch {
        title: Some("x".to_string()),
        body: Some("y".to_string()),
        status: Some(TaskStatus::Done),
        labels: Some(vec![]),
        due_at: Some(Some("2026-08-01T00:00:00Z".to_string())),
    };
    let once = apply_patch(task(), patch.clone(), "2026-06-16T08:00:00Z".to_string());
    let twice = apply_patch(once.clone(), patch, "2026-06-16T08:00:00Z".to_string());
    assert_eq!(once, twice);
}

#[test]
fn patch_keeps_source() {
    let mut t = task();
    t.source = Some(SourceRef {
        account_id: "a".to_string(),
        remote_id: "7".to_string(),
        html_url: None,
    });
    let patch = TaskPatch { title: None, body: None, status: Some(TaskStatus::Done), labels: None, due_at: None };
    let out = apply_patch(t.clone(), patch, "2026-06-16T08:00:00Z".to_string());
    assert_eq!(out.source, t.source);
}

fn empty_patch() -> TaskPatch {
    TaskPatch { title: None, body: None, status: None, labels: None, due_at: None }
}

#[test]
fn update_applies_patch_and_marks_dirty() {
    let mut t = task();
    t.title = "draft title".into();
    t.body = String::new();
    let patch = TaskPatch { title: Some("new title".into()), status: Some(TaskStatus::Done), ..empty_patch() };
    let updated = apply_patch(t, patch, "2026-06-15T13:00:00Z".into());
    assert_eq!(updated.title, "new title");
    assert_eq!(updated.status, TaskStatus::Done);
    assert!(updated.dirty);
    assert_eq!(updated.local_updated_at, "2026-06-15T13:00:00Z");
    assert_eq!(updated.body, "");
}

#[test]
fn update_due_at_clear_set_and_untouched() {
    let due = Some("2026-06-20T09:00:00Z".to_string());
    let mut t = task();
    t.due_at = due.clone();
    let unchanged = apply_patch(t, TaskPatch { title: Some("x".into()), ..empty_patch() }, "2026-06-15T12:00:00Z".into());
    assert_eq!(unchanged.due_at, due);
    let cleared = apply_patch(unchanged, TaskPatch { due_at: Some(None), ..empty_patch() }, "2026-06-15T12:00:00Z".into());
    assert_eq!(cleared.due_at, None);
    let set = apply_patch(cleared, TaskPatch { due_at: Some(due.clone()), ..empty_patch() }, "2026-06-15T12:00:00Z".into());
    assert_eq!(set.due_at, due);
}
