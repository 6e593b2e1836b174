//! The task domain: tasks, their status, drafts, patches and filters, and the
//! provider accounts they can be mirrored from.
//!
//! Ids are UUIDs and timestamps RFC3339 strings, held as text exactly as the
//! store keeps them.

use vstd::prelude::*;

use crate::text::{owned, str_eq};

verus! {

/// Whether a task is still to do or already finished.
#[derive(Debug, Clone, Copy, PartialEq, Eq)]
pub enum TaskStatus {
    Open,
    Done,
}

/// The wire name of a status.
pub open spec fn spec_status_str(s: TaskStatus) -> Seq<char> {
    match s {
        TaskStatus::Open => "open"@,
        TaskStatus::Done => "done"@,
    }
}

/// The status a wire name denotes, if any.
pub open spec fn spec_status_from_str(s: Seq<char>) -> Option<TaskStatus> {
    if s == "open"@ {
        Some(TaskStatus::Open)
    } else if s == "done"@ {
        Some(TaskStatus::Done)
    } else {
        None
    }
}

impl TaskStatus {
    pub fn as_str(&self) -> (r: &'static str)
        ensures
            r@ == spec_status_str(*self),
    {
        match self {
            TaskStatus::Open => "open",
            TaskStatus::Done => "done",
        }
    }

    pub fn from_str(s: &str) -> (r: Option<TaskStatus>)
        ensures
            r == spec_status_from_str(s@),
    {
        if str_eq(s, "open") {
            Some(TaskStatus::Open)
        } else if str_eq(s, "done") {
            Some(TaskStatus::Done)
        } else {
            None
        }
    }
}

/// A status survives being written out and read back.
pub proof fn lemma_status_roundtrip(s: TaskStatus)
    ensures
        spec_status_from_str(spec_status_str(s)) == Some(s),
{
    reveal_strlit("open");
    reveal_strlit("done");
    assert("open"@[0] != "done"@[0]);
}

/// The providers an account can be connected to.
#[derive(Debug, Clone, Copy, PartialEq, Eq)]
pub enum ProviderKind {
    Github,
    Codeberg,
    Clickup,
}

pub open spec fn spec_provider_str(p: ProviderKind) -> Seq<char> {
    match p {
        ProviderKind::Github => "github"@,
        ProviderKind::Codeberg => "codeberg"@,
        ProviderKind::Clickup => "clickup"@,
    }
}

pub open spec fn spec_provider_parse(s: Seq<char>) -> Option<ProviderKind> {
    if s == "github"@ {
        Some(ProviderKind::Github)
    } else if s == "codeberg"@ {
        Some(ProviderKind::Codeberg)
    } else if s == "clickup"@ {
        Some(ProviderKind::Clickup)
    } else {
        None
    }
}

impl ProviderKind {
    pub fn as_str(&self) -> (r: &'static str)
        ensures
            r@ == spec_provider_str(*self),
    {
        match self {
            ProviderKind::Github => "github",
            ProviderKind::Codeberg => "codeberg",
            ProviderKind::Clickup => "clickup",
        }
    }

    pub fn parse(s: &str) -> (r: Option<ProviderKind>)
        ensures
            r == spec_provider_parse(s@),
    {
        if str_eq(s, "github") {
            Some(ProviderKind::Github)
        } else if str_eq(s, "codeberg") {
            Some(ProviderKind::Codeberg)
        } else if str_eq(s, "clickup") {
            Some(ProviderKind::Clickup)
        } else {
            None
        }
    }
}

/// A provider kind survives being written out and parsed back.
pub proof fn lemma_provider_roundtrip(p: ProviderKind)
    ensures
        spec_provider_parse(spec_provider_str(p)) == Some(p),
{
    reveal_strlit("github");
    reveal_strlit("codeberg");
    reveal_strlit("clickup");
    assert("github"@.len() != "codeberg"@.len());
    assert("github"@.len() != "clickup"@.len());
    assert("codeberg"@.len() != "clickup"@.len());
}

/// Where a mirrored task lives on its provider.
#[derive(Debug, Clone, PartialEq, Eq)]
pub struct SourceRef {
    pub account_id: String,
    pub remote_id: String,
    pub html_url: Option<String>,
}

/// A task as the store holds it.
#[derive(Debug, Clone, PartialEq, Eq)]
pub struct Task {
    pub id: String,
    pub source: Option<SourceRef>,
    pub title: String,
    pub body: String,
    pub status: TaskStatus,
    pub labels: Vec<String>,
    /// RFC3339 due date, if any.
    pub due_at: Option<String>,
    /// RFC3339 time of the last local change.
    pub local_updated_at: String,
    /// Local edits not yet pushed to the provider.
    pub dirty: bool,
    /// Tombstone: soft-deleted.
    pub deleted: bool,
}

/// The fields a new local task starts from.
#[derive(Debug, Clone, PartialEq, Eq)]
pub struct TaskDraft {
    pub title: String,
    pub body: String,
    pub labels: Vec<String>,
    pub due_at: Option<String>,
}

impl TaskDraft {
    /// A draft with the given title and everything else empty.
    pub fn new(title: &str) -> (d: TaskDraft)
        ensures
            d.title@ == title@,
            d.body@.len() == 0,
            d.labels@.len() == 0,
            d.due_at is None,
    {
        TaskDraft { title: owned(title), body: String::new(), labels: Vec::new(), due_at: None }
    }
}

/// A partial update of a task: `None` leaves a field as it is.
#[derive(Debug, Clone, PartialEq, Eq)]
pub struct TaskPatch {
    pub title: Option<String>,
    pub body: Option<String>,
    pub status: Option<TaskStatus>,
    pub labels: Option<Vec<String>>,
    /// Outer Option = "field present in patch"; inner Option = "set to None".
    pub due_at: Option<Option<String>>,
}

/// Which tasks a listing returns.
#[derive(Debug, Clone, PartialEq, Eq)]
pub struct TaskFilter {
    pub status: Option<TaskStatus>,
    pub label: Option<String>,
    pub query: Option<String>,
    pub include_deleted: bool,
}

/// The task after applying `patch` at time `now`: every field the patch names
/// is replaced, the rest kept; the task becomes dirty and stamped with `now`.
pub open spec fn spec_patched(t: Task, p: TaskPatch, now: Seq<char>) -> Task {
    Task {
        title: match p.title {
            Some(x) => x,
            None => t.title,
        },
        body: match p.body {
            Some(x) => x,
            None => t.body,
        },
        status: match p.status {
            Some(x) => x,
            None => t.status,
        },
        labels: match p.labels {
            Some(x) => x,
            None => t.labels,
        },
        due_at: match p.due_at {
            Some(x) => x,
            None => t.due_at,
        },
        dirty: true,
        ..t
    }
}

/// What a patch does to a task, field by field: each field the patch names
/// takes the patch's value, each field it leaves out keeps the task's; the
/// id, source and tombstone are kept; the result is dirty and stamped `now`.
pub open spec fn patch_law(current: Task, p: TaskPatch, now: String, t: Task) -> bool {
    &&& (p.title matches Some(x) ==> t.title == x)
    &&& (p.title is None ==> t.title == current.title)
    &&& (p.body matches Some(x) ==> t.body == x)
    &&& (p.body is None ==> t.body == current.body)
    &&& (p.status matches Some(x) ==> t.status == x)
    &&& (p.status is None ==> t.status == current.status)
    &&& (p.labels matches Some(x) ==> t.labels == x)
    &&& (p.labels is None ==> t.labels == current.labels)
    &&& (p.due_at matches Some(x) ==> t.due_at == x)
    &&& (p.due_at is None ==> t.due_at == current.due_at)
    &&& t.id == current.id
    &&& t.source == current.source
    &&& t.deleted == current.deleted
    &&& t.dirty
    &&& t.local_updated_at == now
}

/// A patched task holds exactly the patch's values for the fields it names
/// and the task's own for the rest.
pub proof fn lemma_patch_replaces_named_fields(current: Task, p: TaskPatch, now: String)
    ensures
        patch_law(current, p, now, Task { local_updated_at: now, ..spec_patched(current, p, now@) }),
{
}

/// Apply a patch to a task: what `update_task` writes back.
pub fn apply_patch(current: Task, patch: TaskPatch, now: String) -> (t: Task)
    ensures
        t == (Task { local_updated_at: now, ..spec_patched(current, patch, now@) }),
        patch_law(current, patch, now, t),
{
    let mut t = current;
    if let Some(title) = patch.title {
        t.title = title;
    }
    if let Some(body) = patch.body {
        t.body = body;
    }
    if let Some(status) = patch.status {
        t.status = status;
    }
    if let Some(labels) = patch.labels {
        t.labels = labels;
    }
    if let Some(due) = patch.due_at {
        t.due_at = due;
    }
    t.dirty = true;
    t.local_updated_at = now;
    t
}

/// Applying the same patch twice at the same time is the same as applying it once.
pub proof fn lemma_patch_idempotent(t: Task, p: TaskPatch, now: String)
    ensures
        ({
            let once = Task { local_updated_at: now, ..spec_patched(t, p, now@) };
            Task { local_updated_at: now, ..spec_patched(once, p, now@) } == once
        }),
{
}

/// An empty patch changes nothing but the dirty flag and the timestamp.
pub proof fn lemma_empty_patch_keeps_fields(t: Task, now: String)
    ensures
        ({
            let p = TaskPatch { title: None, body: None, status: None, labels: None, due_at: None };
            Task { local_updated_at: now, ..spec_patched(t, p, now@) } == Task { dirty: true, local_updated_at: now, ..t }
        }),
{
}

/// A provider account.
#[derive(Debug, Clone, PartialEq, Eq)]
pub struct Account {
    pub id: String,
    pub provider: ProviderKind,
    pub display_name: String,
    pub base_url: Option<String>,
    /// Provider configuration as JSON text.
    pub config: String,
    /// RFC3339 creation time.
    pub created_at: String,
}

/// The fields a new account starts from.
#[derive(Debug, Clone, PartialEq, Eq)]
pub struct AccountDraft {
    pub provider: ProviderKind,
    pub display_name: String,
    pub base_url: Option<String>,
    /// Provider configuration as JSON text.
    pub config: String,
}

/// A board of columns.
#[derive(Debug, Clone, PartialEq, Eq)]
pub struct Board {
    pub id: String,
    pub name: String,
    pub position: i64,
    pub created_at: String,
    pub updated_at: String,
}

/// A column of a board.
#[derive(Debug, Clone, PartialEq, Eq)]
pub struct BoardColumn {
    pub id: String,
    pub board_id: String,
    pub name: String,
    pub position: i64,
    /// Opaque smart-filter JSON; `{}` = manual-only column.
    pub filter: String,
    pub created_at: String,
}

/// A manually placed card on a board column.
#[derive(Debug, Clone, PartialEq, Eq)]
pub struct BoardCard {
    pub id: String,
    pub board_id: String,
    pub column_id: String,
    pub item_key: String,
    pub position: i64,
    pub created_at: String,
}

} // verus!
