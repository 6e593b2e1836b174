use newt_todo::changes::{
    board_from_change, board_to_change, card_from_change, card_to_change, column_from_change,
    column_to_change, placeholder_board, task_from_change, task_to_change, BoardRecord,
    CardRecord, ColumnRecord, TaskRecord,
};
use newt_todo::error::CoreError;
use newt_todo::syncset::{lww_applies, SyncChange};

fn task() -> TaskRecord {
    TaskRecord {
        id: "t-1".into(),
        account_id: Some("acc".into()),
        remote_id: None,
        html_url: None,
        title: "synced \"title\" with ünïcode".into(),
        body: "line1\nline2".into(),
        status: "open".into(),
        labels: "[\"dev\"]".into(),
        due_at: Some("2026-07-01T09:00:00Z".into()),
        project_id: None,
        remote_updated_at: None,
        local_updated_at: "2026-06-15T10:00:00Z".into(),
        dirty: true,
        deleted: false,
    }
}

#[test]
fn task_change_roundtrips_via_data_json() {
    let c = task_to_change(&task());
    assert_eq!(c.kind, "task");
    assert_eq!(c.id, "t-1");
    assert_eq!(c.updated_at, "2026-06-15T10:00:00Z");
    assert_eq!((c.board_id.as_str(), c.column_id.as_str()), ("", ""));
    let back = task_from_change(&c).unwrap();
    assert_eq!(back, TaskRecord { dirty: false, ..task() });
}

#[test]
fn tombstone_travels_with_the_change() {
    let mut t = task();
    t.deleted = true;
    let back = task_from_change(&task_to_change(&t)).unwrap();
    assert!(back.deleted);
    assert!(!back.dirty);
}

#[test]
fn board_column_and_card_changes_roundtrip() {
    let b = BoardRecord {
        id: "b".into(),
        name: "PM".into(),
        position: -3,
        created_at: "2026-06-01T00:00:00Z".into(),
        updated_at: "2026-06-02T00:00:00Z".into(),
        dirty: true,
        deleted: false,
    };
    assert_eq!(board_from_change(&board_to_change(&b)).unwrap(), BoardRecord { dirty: false, ..b });

    let col = ColumnRecord {
        id: "c".into(),
        board_id: "b".into(),
        name: "Doing".into(),
        position: 2,
        filter: "{\"state\":\"open\"}".into(),
        created_at: "2026-06-01T00:00:00Z".into(),
        updated_at: "2026-06-03T00:00:00Z".into(),
        dirty: true,
        deleted: true,
    };
    let cc = column_to_change(&col);
    assert_eq!(cc.board_id, "b");
    assert_eq!(column_from_change(&cc).unwrap(), ColumnRecord { dirty: false, ..col });

    let card = CardRecord {
        id: "k".into(),
        board_id: "b".into(),
        column_id: "c".into(),
        item_key: "todo:1".into(),
        position: i64::MAX,
        created_at: "2026-06-01T00:00:00Z".into(),
        updated_at: "2026-06-04T00:00:00Z".into(),
        dirty: false,
        deleted: false,
    };
    let kc = card_to_change(&card);
    assert_eq!((kc.board_id.as_str(), kc.column_id.as_str()), ("b", "c"));
    assert_eq!(card_from_change(&kc).unwrap(), card);
}

fn raw(kind: &str, data: &str) -> SyncChange {
    SyncChange {
        kind: kind.into(),
        id: "x".into(),
        updated_at: "2026-06-15T10:00:00Z".into(),
        deleted: false,
        data_json: data.into(),
        board_id: "b".into(),
        column_id: String::new(),
    }
}

#[test]
fn unreadable_data_is_a_serde_error() {
    assert!(matches!(board_from_change(&raw("board", "not json")), Err(CoreError::Serde(_))));
    assert_eq!(
        board_from_change(&raw("board", "[1]")),
        Err(CoreError::Serde("invalid type: expected a JSON object".into()))
    );
    assert_eq!(
        board_from_change(&raw("board", r#"{"name":"x","created_at":"t"}"#)),
        Err(CoreError::Serde("missing field `position`".into()))
    );
    assert_eq!(
        board_from_change(&raw("board", r#"{"name":"x","position":"1","created_at":"t"}"#)),
        Err(CoreError::Serde("invalid type for field `position`".into()))
    );
    assert_eq!(
        task_from_change(&raw("task", r#"{"title":"t","body":"b","status":"open","labels":"[]","due_at":5}"#)),
        Err(CoreError::Serde("invalid type for field `due_at`".into()))
    );
}

#[test]
fn optional_task_fields_may_be_absent_or_null() {
    let t = task_from_change(&raw(
        "task",
        r#"{"title":"t","body":"b","status":"done","labels":"[]","account_id":null,"extra":true}"#,
    ))
    .unwrap();
    assert_eq!(t.account_id, None);
    assert_eq!(t.due_at, None);
    assert_eq!(t.status, "done");
}

#[test]
fn placeholder_board_loses_to_the_real_board() {
    let p = board_to_change(&placeholder_board("b"));
    assert_eq!(p.updated_at, "");
    let real = board_to_change(&BoardRecord {
        id: "b".into(),
        name: "PM".into(),
        position: 0,
        created_at: "2026-06-01T00:00:00Z".into(),
        updated_at: "2026-06-01T00:00:00Z".into(),
        dirty: false,
        deleted: false,
    });
    assert!(lww_applies(Some(&p), &real));
}
