//! The database schema: the statements that create every table and index,
//! and the columns that later versions added to tables that may already exist
//! without them.

use vstd::prelude::*;
use crate::text::{owned, push_str, str_eq};

verus! {

/// The statements that create the tables and indexes, each guarded by
/// `IF NOT EXISTS` so that running them on an existing database leaves its
/// tables as they are.
pub open spec fn spec_schema() -> Seq<Seq<char>> {
    seq![
        "CREATE TABLE IF NOT EXISTS tasks (id TEXT NOT NULL PRIMARY KEY, account_id TEXT, remote_id TEXT, html_url TEXT, title TEXT NOT NULL, body TEXT NOT NULL DEFAULT '', status TEXT NOT NULL DEFAULT 'open', labels TEXT NOT NULL DEFAULT '[]', due_at TEXT, project_id TEXT, remote_updated_at TEXT, local_updated_at TEXT NOT NULL, dirty BIGINT NOT NULL DEFAULT 0, deleted BIGINT NOT NULL DEFAULT 0, user_id TEXT NOT NULL DEFAULT 'local')"@,
        "CREATE INDEX IF NOT EXISTS idx_tasks_status ON tasks (status)"@,
        "CREATE UNIQUE INDEX IF NOT EXISTS idx_tasks_source ON tasks (account_id, remote_id) WHERE account_id IS NOT NULL AND remote_id IS NOT NULL"@,
        "CREATE TABLE IF NOT EXISTS accounts (id TEXT NOT NULL PRIMARY KEY, provider TEXT NOT NULL, display_name TEXT NOT NULL, base_url TEXT, config TEXT NOT NULL DEFAULT '{}', created_at TEXT NOT NULL)"@,
        "CREATE TABLE IF NOT EXISTS boards (id TEXT NOT NULL PRIMARY KEY, name TEXT NOT NULL, position BIGINT NOT NULL DEFAULT 0, created_at TEXT NOT NULL, updated_at TEXT NOT NULL, user_id TEXT NOT NULL DEFAULT 'local', dirty BIGINT NOT NULL DEFAULT 1, deleted BIGINT NOT NULL DEFAULT 0)"@,
        "CREATE TABLE IF NOT EXISTS board_columns (id TEXT NOT NULL PRIMARY KEY, board_id TEXT NOT NULL, name TEXT NOT NULL, position BIGINT NOT NULL DEFAULT 0, filter TEXT NOT NULL DEFAULT '{}', created_at TEXT NOT NULL, updated_at TEXT NOT NULL DEFAULT '', dirty BIGINT NOT NULL DEFAULT 1, deleted BIGINT NOT NULL DEFAULT 0, CONSTRAINT fk_board_columns_board FOREIGN KEY (board_id) REFERENCES boards (id) ON DELETE CASCADE)"@,
        "CREATE INDEX IF NOT EXISTS idx_board_columns_board ON board_columns (board_id)"@,
        "CREATE TABLE IF NOT EXISTS board_cards (id TEXT NOT NULL PRIMARY KEY, board_id TEXT NOT NULL, column_id TEXT NOT NULL, item_key TEXT NOT NULL, position BIGINT NOT NULL DEFAULT 0, created_at TEXT NOT NULL, updated_at TEXT NOT NULL DEFAULT '', dirty BIGINT NOT NULL DEFAULT 1, deleted BIGINT NOT NULL DEFAULT 0, CONSTRAINT fk_board_cards_board FOREIGN KEY (board_id) REFERENCES boards (id) ON DELETE CASCADE, CONSTRAINT fk_board_cards_column FOREIGN KEY (column_id) REFERENCES board_columns (id) ON DELETE CASCADE)"@,
        "CREATE INDEX IF NOT EXISTS idx_board_cards_board ON board_cards (board_id)"@,
        "CREATE UNIQUE INDEX IF NOT EXISTS idx_board_cards_board_item ON board_cards (board_id, item_key)"@,
        "CREATE TABLE IF NOT EXISTS repo_snapshots (id TEXT NOT NULL PRIMARY KEY, account_id TEXT NOT NULL, repo_full_name TEXT NOT NULL, day TEXT NOT NULL, stars BIGINT NOT NULL DEFAULT 0, forks BIGINT NOT NULL DEFAULT 0, open_issues BIGINT NOT NULL DEFAULT 0, captured_at TEXT NOT NULL)"@,
        "CREATE UNIQUE INDEX IF NOT EXISTS idx_repo_snapshots_unique ON repo_snapshots (account_id, repo_full_name, day)"@,
        "CREATE INDEX IF NOT EXISTS idx_repo_snapshots_acct_day ON repo_snapshots (account_id, day)"@,
    ]
}

/// The views of a list of strings.
pub open spec fn views(v: Seq<String>) -> Seq<Seq<char>> {
    v.map_values(|s: String| s@)
}

/// The schema statements, in the order they are to be run.
pub fn schema_statements() -> (r: Vec<String>)
    ensures
        views(r@) == spec_schema(),
{
    let mut r: Vec<String> = Vec::new();
    r.push(owned("CREATE TABLE IF NOT EXISTS tasks (id TEXT NOT NULL PRIMARY KEY, account_id TEXT, remote_id TEXT, html_url TEXT, title TEXT NOT NULL, body TEXT NOT NULL DEFAULT '', status TEXT NOT NULL DEFAULT 'open', labels TEXT NOT NULL DEFAULT '[]', due_at TEXT, project_id TEXT, remote_updated_at TEXT, local_updated_at TEXT NOT NULL, dirty BIGINT NOT NULL DEFAULT 0, deleted BIGINT NOT NULL DEFAULT 0, user_id TEXT NOT NULL DEFAULT 'local')"));
    r.push(owned("CREATE INDEX IF NOT EXISTS idx_tasks_status ON tasks (status)"));
    r.push(owned("CREATE UNIQUE INDEX IF NOT EXISTS idx_tasks_source ON tasks (account_id, remote_id) WHERE account_id IS NOT NULL AND remote_id IS NOT NULL"));
    r.push(owned("CREATE TABLE IF NOT EXISTS accounts (id TEXT NOT NULL PRIMARY KEY, provider TEXT NOT NULL, display_name TEXT NOT NULL, base_url TEXT, config TEXT NOT NULL DEFAULT '{}', created_at TEXT NOT NULL)"));
    r.push(owned("CREATE TABLE IF NOT EXISTS boards (id TEXT NOT NULL PRIMARY KEY, name TEXT NOT NULL, position BIGINT NOT NULL DEFAULT 0, created_at TEXT NOT NULL, updated_at TEXT NOT NULL, user_id TEXT NOT NULL DEFAULT 'local', dirty BIGINT NOT NULL DEFAULT 1, deleted BIGINT NOT NULL DEFAULT 0)"));
    r.push(owned("CREATE TABLE IF NOT EXISTS board_columns (id TEXT NOT NULL PRIMARY KEY, board_id TEXT NOT NULL, name TEXT NOT NULL, position BIGINT NOT NULL DEFAULT 0, filter TEXT NOT NULL DEFAULT '{}', created_at TEXT NOT NULL, updated_at TEXT NOT NULL DEFAULT '', dirty BIGINT NOT NULL DEFAULT 1, deleted BIGINT NOT NULL DEFAULT 0, CONSTRAINT fk_board_columns_board FOREIGN KEY (board_id) REFERENCES boards (id) ON DELETE CASCADE)"));
    r.push(owned("CREATE INDEX IF NOT EXISTS idx_board_columns_board ON board_columns (board_id)"));
    r.push(owned("CREATE TABLE IF NOT EXISTS board_cards (id TEXT NOT NULL PRIMARY KEY, board_id TEXT NOT NULL, column_id TEXT NOT NULL, item_key TEXT NOT NULL, position BIGINT NOT NULL DEFAULT 0, created_at TEXT NOT NULL, updated_at TEXT NOT NULL DEFAULT '', dirty BIGINT NOT NULL DEFAULT 1, deleted BIGINT NOT NULL DEFAULT 0, CONSTRAINT fk_board_cards_board FOREIGN KEY (board_id) REFERENCES boards (id) ON DELETE CASCADE, CONSTRAINT fk_board_cards_column FOREIGN KEY (column_id) REFERENCES board_columns (id) ON DELETE CASCADE)"));
    r.push(owned("CREATE INDEX IF NOT EXISTS idx_board_cards_board ON board_cards (board_id)"));
    r.push(owned("CREATE UNIQUE INDEX IF NOT EXISTS idx_board_cards_board_item ON board_cards (board_id, item_key)"));
    r.push(owned("CREATE TABLE IF NOT EXISTS repo_snapshots (id TEXT NOT NULL PRIMARY KEY, account_id TEXT NOT NULL, repo_full_name TEXT NOT NULL, day TEXT NOT NULL, stars BIGINT NOT NULL DEFAULT 0, forks BIGINT NOT NULL DEFAULT 0, open_issues BIGINT NOT NULL DEFAULT 0, captured_at TEXT NOT NULL)"));
    r.push(owned("CREATE UNIQUE INDEX IF NOT EXISTS idx_repo_snapshots_unique ON repo_snapshots (account_id, repo_full_name, day)"));
    r.push(owned("CREATE INDEX IF NOT EXISTS idx_repo_snapshots_acct_day ON repo_snapshots (account_id, day)"));
    assert(views(r@) =~= spec_schema());
    r
}

/// The columns that later versions added to tables created before them:
/// table, column, and the definition the column is added with.
pub open spec fn spec_added_columns() -> Seq<(Seq<char>, Seq<char>, Seq<char>)> {
    seq![
        ("tasks"@, "user_id"@, "TEXT NOT NULL DEFAULT 'local'"@),
        ("boards"@, "user_id"@, "TEXT NOT NULL DEFAULT 'local'"@),
        ("boards"@, "dirty"@, "BIGINT NOT NULL DEFAULT 1"@),
        ("boards"@, "deleted"@, "BIGINT NOT NULL DEFAULT 0"@),
        ("board_columns"@, "updated_at"@, "TEXT NOT NULL DEFAULT ''"@),
        ("board_columns"@, "dirty"@, "BIGINT NOT NULL DEFAULT 1"@),
        ("board_columns"@, "deleted"@, "BIGINT NOT NULL DEFAULT 0"@),
        ("board_cards"@, "updated_at"@, "TEXT NOT NULL DEFAULT ''"@),
        ("board_cards"@, "dirty"@, "BIGINT NOT NULL DEFAULT 1"@),
        ("board_cards"@, "deleted"@, "BIGINT NOT NULL DEFAULT 0"@),
    ]
}

/// The statement that adds column `c`, defined as `d`, to table `t`.
pub open spec fn spec_add_column(t: Seq<char>, c: Seq<char>, d: Seq<char>) -> Seq<char> {
    "ALTER TABLE "@ + t + " ADD COLUMN "@ + c + " "@ + d
}

/// Whether the live schema, given as (table, column) pairs, has column `c`
/// in table `t`.
pub open spec fn has_column(present: Seq<(String, String)>, t: Seq<char>, c: Seq<char>) -> bool {
    exists|i: int| #![trigger present[i]] 0 <= i < present.len() && present[i].0@ == t && present[i].1@ == c
}

/// The statements that add the first `n` added columns that `present` lacks,
/// in order.
pub open spec fn spec_backfill(present: Seq<(String, String)>, n: nat) -> Seq<Seq<char>>
    decreases n,
{
    if n == 0 {
        Seq::empty()
    } else {
        let prev = spec_backfill(present, (n - 1) as nat);
        let a = spec_added_columns()[n - 1];
        if has_column(present, a.0, a.1) {
            prev
        } else {
            prev.push(spec_add_column(a.0, a.1, a.2))
        }
    }
}

/// The statements that bring a schema with the columns `present` up to date.
pub open spec fn spec_backfill_all(present: Seq<(String, String)>) -> Seq<Seq<char>> {
    spec_backfill(present, spec_added_columns().len())
}

fn added(t: &str, c: &str, d: &str) -> (r: (String, String, String))
    ensures
        r.0@ == t@,
        r.1@ == c@,
        r.2@ == d@,
{
    (owned(t), owned(c), owned(d))
}

fn added_columns() -> (r: Vec<(String, String, String)>)
    ensures
        r@.len() == spec_added_columns().len(),
        forall|i: int| 0 <= i < r@.len() ==> (#[trigger] r@[i]).0@ == spec_added_columns()[i].0
            && r@[i].1@ == spec_added_columns()[i].1 && r@[i].2@ == spec_added_columns()[i].2,
{
    let mut r: Vec<(String, String, String)> = Vec::new();
    r.push(added("tasks", "user_id", "TEXT NOT NULL DEFAULT 'local'"));
    r.push(added("boards", "user_id", "TEXT NOT NULL DEFAULT 'local'"));
    r.push(added("boards", "dirty", "BIGINT NOT NULL DEFAULT 1"));
    r.push(added("boards", "deleted", "BIGINT NOT NULL DEFAULT 0"));
    r.push(added("board_columns", "updated_at", "TEXT NOT NULL DEFAULT ''"));
    r.push(added("board_columns", "dirty", "BIGINT NOT NULL DEFAULT 1"));
    r.push(added("board_columns", "deleted", "BIGINT NOT NULL DEFAULT 0"));
    r.push(added("board_cards", "updated_at", "TEXT NOT NULL DEFAULT ''"));
    r.push(added("board_cards", "dirty", "BIGINT NOT NULL DEFAULT 1"));
    r.push(added("board_cards", "deleted", "BIGINT NOT NULL DEFAULT 0"));
    r
}

/// Whether the (table, column) pairs `present` hold column `c` of table `t`.
pub fn column_present(present: &[(String, String)], t: &str, c: &str) -> (r: bool)
    ensures
        r == has_column(present@, t@, c@),
{
    let mut i: usize = 0;
    while i < present.len()
        invariant
            i <= present@.len(),
            forall|j: int| 0 <= j < i ==> !((#[trigger] present@[j]).0@ == t@ && present@[j].1@ == c@),
        decreases present@.len() - i,
    {
        if str_eq(present[i].0.as_str(), t) && str_eq(present[i].1.as_str(), c) {
            return true;
        }
        i = i + 1;
    }
    false
}

/// The statements that add, in order, each added column that the live
/// schema `present` lacks; run after the schema statements, they bring an
/// older database up to date.
pub fn backfill_statements(present: &[(String, String)]) -> (out: Vec<String>)
    ensures
        views(out@) == spec_backfill_all(present@),
{
    let cols = added_columns();
    let mut out: Vec<String> = Vec::new();
    let mut i: usize = 0;
    while i < cols.len()
        invariant
            i <= cols@.len(),
            cols@.len() == spec_added_columns().len(),
            forall|k: int| 0 <= k < cols@.len() ==> (#[trigger] cols@[k]).0@ == spec_added_columns()[k].0
                && cols@[k].1@ == spec_added_columns()[k].1 && cols@[k].2@ == spec_added_columns()[k].2,
            views(out@) == spec_backfill(present@, i as nat),
        decreases cols@.len() - i,
    {
        let (t, c, d) = (&cols[i].0, &cols[i].1, &cols[i].2);
        if !column_present(present, t.as_str(), c.as_str()) {
            let mut s = owned("ALTER TABLE ");
            push_str(&mut s, t.as_str());
            push_str(&mut s, " ADD COLUMN ");
            push_str(&mut s, c.as_str());
            push_str(&mut s, " ");
            push_str(&mut s, d.as_str());
            out.push(s);
            assert(views(out@) =~= spec_backfill(present@, (i + 1) as nat));
        } else {
            assert(views(out@) =~= spec_backfill(present@, (i + 1) as nat));
        }
        i = i + 1;
    }
    out
}

proof fn lemma_backfill_prefix_empty(present: Seq<(String, String)>, n: nat)
    requires
        n <= spec_added_columns().len(),
        forall|j: int| 0 <= j < n ==> has_column(present, #[trigger] spec_added_columns()[j].0, spec_added_columns()[j].1),
    ensures
        spec_backfill(present, n) == Seq::<Seq<char>>::empty(),
    decreases n,
{
    if n > 0 {
        lemma_backfill_prefix_empty(present, (n - 1) as nat);
        let a = spec_added_columns()[n - 1];
        assert(has_column(present, a.0, a.1));
    }
}

/// Bringing the schema up to date is idempotent: once every added column is
/// present, nothing is left to add.
pub proof fn lemma_backfill_idempotent(present: Seq<(String, String)>)
    requires
        forall|j: int| 0 <= j < spec_added_columns().len() ==> has_column(present, #[trigger] spec_added_columns()[j].0, spec_added_columns()[j].1),
    ensures
        spec_backfill_all(present) == Seq::<Seq<char>>::empty(),
{
    lemma_backfill_prefix_empty(present, spec_added_columns().len());
}

proof fn lemma_backfill_prefix_exact(present: Seq<(String, String)>, n: nat)
    requires
        n <= spec_added_columns().len(),
    ensures
        forall|j: int| 0 <= j < n ==> (has_column(present, #[trigger] spec_added_columns()[j].0, spec_added_columns()[j].1)
            || spec_backfill(present, n).contains(spec_add_column(spec_added_columns()[j].0, spec_added_columns()[j].1, spec_added_columns()[j].2))),
        forall|k: int| 0 <= k < spec_backfill(present, n).len() ==> exists|j: int| 0 <= j < n
            && !has_column(present, #[trigger] spec_added_columns()[j].0, spec_added_columns()[j].1)
            && #[trigger] spec_backfill(present, n)[k] == spec_add_column(spec_added_columns()[j].0, spec_added_columns()[j].1, spec_added_columns()[j].2),
    decreases n,
{
    if n > 0 {
        let m = (n - 1) as nat;
        lemma_backfill_prefix_exact(present, m);
        let prev = spec_backfill(present, m);
        let cur = spec_backfill(present, n);
        let a = spec_added_columns()[m as int];
        assert forall|j: int| 0 <= j < n implies (has_column(present, #[trigger] spec_added_columns()[j].0, spec_added_columns()[j].1)
            || cur.contains(spec_add_column(spec_added_columns()[j].0, spec_added_columns()[j].1, spec_added_columns()[j].2))) by {
            if j < m {
                if !has_column(present, spec_added_columns()[j].0, spec_added_columns()[j].1) {
                    let s = spec_add_column(spec_added_columns()[j].0, spec_added_columns()[j].1, spec_added_columns()[j].2);
                    assert(prev.contains(s));
                    let w = choose|w: int| 0 <= w < prev.len() && prev[w] == s;
                    if !has_column(present, a.0, a.1) {
                        assert(cur[w] == s);
                    }
                }
            } else {
                if !has_column(present, a.0, a.1) {
                    assert(cur[prev.len() as int] == spec_add_column(a.0, a.1, a.2));
                }
            }
        }
        assert forall|k: int| 0 <= k < cur.len() implies exists|j: int| 0 <= j < n
            && !has_column(present, #[trigger] spec_added_columns()[j].0, spec_added_columns()[j].1)
            && #[trigger] cur[k] == spec_add_column(spec_added_columns()[j].0, spec_added_columns()[j].1, spec_added_columns()[j].2) by {
            if k < prev.len() {
                assert(cur[k] == prev[k]);
                let j = choose|j: int| 0 <= j < m
                    && !has_column(present, #[trigger] spec_added_columns()[j].0, spec_added_columns()[j].1)
                    && #[trigger] prev[k] == spec_add_column(spec_added_columns()[j].0, spec_added_columns()[j].1, spec_added_columns()[j].2);
                assert(0 <= j < n);
            } else {
                assert(!has_column(present, a.0, a.1));
                assert(cur[k] == spec_add_column(a.0, a.1, a.2));
                assert(spec_added_columns()[m as int] == a);
            }
        }
    }
}

/// Bringing the schema up to date adds exactly what is missing: every added
/// column is either already present or has its statement in the plan, and
/// every statement in the plan adds a column that is not present.
pub proof fn lemma_backfill_exact(present: Seq<(String, String)>)
    ensures
        forall|j: int| 0 <= j < spec_added_columns().len() ==> (has_column(present, #[trigger] spec_added_columns()[j].0, spec_added_columns()[j].1)
            || spec_backfill_all(present).contains(spec_add_column(spec_added_columns()[j].0, spec_added_columns()[j].1, spec_added_columns()[j].2))),
        forall|k: int| 0 <= k < spec_backfill_all(present).len() ==> exists|j: int| 0 <= j < spec_added_columns().len()
            && !has_column(present, #[trigger] spec_added_columns()[j].0, spec_added_columns()[j].1)
            && #[trigger] spec_backfill_all(present)[k] == spec_add_column(spec_added_columns()[j].0, spec_added_columns()[j].1, spec_added_columns()[j].2),
{
    let n = spec_added_columns().len();
    let plan = spec_backfill(present, n);
    lemma_backfill_prefix_exact(present, n);
    assert forall|k: int| 0 <= k < plan.len() implies exists|j: int| 0 <= j < n
        && !has_column(present, #[trigger] spec_added_columns()[j].0, spec_added_columns()[j].1)
        && #[trigger] spec_backfill_all(present)[k] == spec_add_column(spec_added_columns()[j].0, spec_added_columns()[j].1, spec_added_columns()[j].2) by {
        let j = choose|j: int| 0 <= j < n
            && !has_column(present, #[trigger] spec_added_columns()[j].0, spec_added_columns()[j].1)
            && #[trigger] plan[k] == spec_add_column(spec_added_columns()[j].0, spec_added_columns()[j].1, spec_added_columns()[j].2);
        assert(spec_backfill_all(present)[k] == plan[k]);
    }
}

} // verus!
