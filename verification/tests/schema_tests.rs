use newt_todo::schema::{backfill_statements, column_present, schema_statements};

fn cols(table: &str, names: &[&str]) -> Vec<(String, String)> {
    names.iter().map(|n| (table.to_string(), n.to_string())).collect()
}

fn current_columns() -> Vec<(String, String)> {
    let mut v = cols(
        "tasks",
        &[
            "id", "account_id", "remote_id", "html_url", "title", "body", "status", "labels",
            "due_at", "project_id", "remote_updated_at", "local_updated_at", "dirty", "deleted",
            "user_id",
        ],
    );
    v.extend(cols(
        "board_columns",
        &["id", "board_id", "name", "position", "filter", "created_at", "updated_at", "dirty", "deleted"],
    ));
    v.extend(cols(
        "board_cards",
        &["id", "board_id", "column_id", "item_key", "position", "created_at", "updated_at", "dirty", "deleted"],
    ));
    v
}

#[test]
fn backfills_sync_columns_on_legacy_db() {
    // A boards table as it was before the sync columns existed.
    let mut present = current_columns();
    present.extend(cols("boards", &["id", "name", "position", "created_at", "updated_at"]));
    let plan = backfill_statements(&present);
    assert_eq!(
        plan,
        vec![
            "ALTER TABLE boards ADD COLUMN user_id TEXT NOT NULL DEFAULT 'local'".to_string(),
            "ALTER TABLE boards ADD COLUMN dirty BIGINT NOT NULL DEFAULT 1".to_string(),
            "ALTER TABLE boards ADD COLUMN deleted BIGINT NOT NULL DEFAULT 0".to_string(),
        ]
    );
    // Once added, a second run has nothing to do.
    present.extend(cols("boards", &["user_id", "dirty", "deleted"]));
    assert!(backfill_statements(&present).is_empty());
}

#[test]
fn fresh_schema_needs_no_backfill() {
    let mut present = current_columns();
    present.extend(cols(
        "boards",
        &["id", "name", "position", "created_at", "updated_at", "user_id", "dirty", "deleted"],
    ));
    assert!(backfill_statements(&present).is_empty());
}

#[test]
fn empty_schema_gets_every_added_column_in_order() {
    let plan = backfill_statements(&[]);
    assert_eq!(plan.len(), 10);
    assert_eq!(plan[0], "ALTER TABLE tasks ADD COLUMN user_id TEXT NOT NULL DEFAULT 'local'");
    assert_eq!(plan[4], "ALTER TABLE board_columns ADD COLUMN updated_at TEXT NOT NULL DEFAULT ''");
    assert_eq!(plan[9], "ALTER TABLE board_cards ADD COLUMN deleted BIGINT NOT NULL DEFAULT 0");
}

#[test]
fn column_presence_matches_table_and_name() {
    let present = cols("boards", &["id", "dirty"]);
    assert!(column_present(&present, "boards", "dirty"));
    assert!(!column_present(&present, "tasks", "dirty"));
    assert!(!column_present(&present, "boards", "deleted"));
}

#[test]
fn schema_creates_every_table_once_and_guarded() {
    let stmts = schema_statements();
    assert_eq!(stmts.len(), 13);
    assert!(stmts.iter().all(|s| s.contains("IF NOT EXISTS")));
    for table in ["tasks", "accounts", "boards", "board_columns", "board_cards", "repo_snapshots"] {
        let head = format!("CREATE TABLE IF NOT EXISTS {table} (");
        assert_eq!(stmts.iter().filter(|s| s.starts_with(&head)).count(), 1);
    }
    assert!(stmts[2].starts_with("CREATE UNIQUE INDEX IF NOT EXISTS idx_tasks_source"));
}
