//! The task table's rows: how a task is written into one and read back out.
//! Labels are kept as a JSON array, status by its wire name, flags as 0/1.

use vstd::prelude::*;

use crate::domain::{spec_status_from_str, spec_status_str, SourceRef, Task, TaskFilter, TaskStatus};
use crate::error::CoreError;
use crate::ids::{canonical_id, spec_uuid_text, uuid_parse};
use crate::text::{owned, push_str};
use crate::timefmt::{check_rfc3339, rfc3339_problem};

verus! {

/// The views of a list of strings.
pub open spec fn strings_view(v: Seq<String>) -> Seq<Seq<char>> {
    v.map_values(|s: String| s@)
}

/// What reading `text` as a JSON array of strings gives: the strings, or the
/// parser's error message.
pub uninterp spec fn json_string_list(text: Seq<char>) -> Result<Seq<Seq<char>>, Seq<char>>;

/// Calls `serde_json::from_str::<Vec<String>>(text)`, keeping an error as its
/// message. Claimed: the outcome is a function of `text` alone, named
/// [`json_string_list`].
#[verifier::external_body]
fn parse_string_list(text: &str) -> (r: Result<Vec<String>, String>)
    ensures
        match (r, json_string_list(text@)) {
            (Ok(a), Ok(b)) => strings_view(a@) == b,
            (Err(a), Err(b)) => a@ == b,
            _ => false,
        },
{
    match serde_json::from_str::<Vec<String>>(text) {
        Ok(v) => Ok(v),
        Err(e) => Err(e.to_string()),
    }
}

/// The JSON text `serde_json` writes for a list of strings.
pub uninterp spec fn json_of_strings(items: Seq<Seq<char>>) -> Seq<char>;

/// Calls `serde_json::to_string(items)`. Claimed: the text is a function of
/// the strings alone, named [`json_of_strings`], and, as serde_json promises
/// for a list of strings, it reads back as the same list.
#[verifier::external_body]
fn string_list_json(items: &Vec<String>) -> (r: String)
    ensures
        r@ == json_of_strings(strings_view(items@)),
        match json_string_list(r@) {
            Ok(v) => v == strings_view(items@),
            Err(_) => false,
        },
{
    match serde_json::to_string(items) {
        Ok(s) => s,
        Err(_) => String::new(),
    }
}

/// A row of the task table, column by column.
#[derive(Debug, Clone, PartialEq, Eq)]
pub struct TaskRow {
    pub id: String,
    pub account_id: Option<String>,
    pub remote_id: Option<String>,
    pub html_url: Option<String>,
    pub title: String,
    pub body: String,
    pub status: String,
    /// JSON array of strings.
    pub labels: String,
    pub due_at: Option<String>,
    pub local_updated_at: String,
    pub dirty: i64,
    pub deleted: i64,
}

/// Whether `row` holds what writing `t` puts into the task table.
pub open spec fn row_encodes(t: Task, row: TaskRow) -> bool {
    &&& row.id == t.id
    &&& match t.source {
        Some(s) => row.account_id == Some(s.account_id) && row.remote_id == Some(s.remote_id)
            && row.html_url == s.html_url,
        None => row.account_id is None && row.remote_id is None && row.html_url is None,
    }
    &&& row.title == t.title
    &&& row.body == t.body
    &&& row.status@ == spec_status_str(t.status)
    &&& json_string_list(row.labels@) == Ok::<Seq<Seq<char>>, Seq<char>>(strings_view(t.labels@))
    &&& row.due_at == t.due_at
    &&& row.local_updated_at == t.local_updated_at
    &&& row.dirty == (if t.dirty { 1i64 } else { 0i64 })
    &&& row.deleted == (if t.deleted { 1i64 } else { 0i64 })
}

/// The row a task is written as.
pub fn task_row(t: Task) -> (row: TaskRow)
    ensures
        row_encodes(t, row),
{
    let (account_id, remote_id, html_url) = match t.source {
        Some(s) => (Some(s.account_id), Some(s.remote_id), s.html_url),
        None => (None, None, None),
    };
    let labels = string_list_json(&t.labels);
    TaskRow {
        id: t.id,
        account_id,
        remote_id,
        html_url,
        title: t.title,
        body: t.body,
        status: owned(t.status.as_str()),
        labels,
        due_at: t.due_at,
        local_updated_at: t.local_updated_at,
        dirty: if t.dirty { 1 } else { 0 },
        deleted: if t.deleted { 1 } else { 0 },
    }
}

/// Whether `t` is what reading `row` gives: ids read as UUIDs and written
/// canonically, a source only when the row names both account and remote id,
/// the status by its wire name, the labels from their JSON, and flags set
/// when non-zero.
pub open spec fn row_decodes_to(row: TaskRow, t: Task) -> bool {
    &&& (uuid_parse(row.id@) matches Ok(v) && t.id@ == spec_uuid_text(v))
    &&& match (row.account_id, row.remote_id) {
        (Some(a), Some(rid)) => (t.source matches Some(s) && (uuid_parse(a@) matches Ok(v)
            && s.account_id@ == spec_uuid_text(v)) && s.remote_id == rid && s.html_url == row.html_url),
        _ => t.source is None,
    }
    &&& t.title == row.title
    &&& t.body == row.body
    &&& spec_status_from_str(row.status@) == Some(t.status)
    &&& json_string_list(row.labels@) == Ok::<Seq<Seq<char>>, Seq<char>>(strings_view(t.labels@))
    &&& t.due_at == row.due_at
    &&& t.local_updated_at == row.local_updated_at
    &&& t.dirty == (row.dirty != 0)
    &&& t.deleted == (row.deleted != 0)
}

/// Whether the row's source account id is fine: it must be a UUID when the
/// row names both account and remote id.
pub open spec fn source_ok(row: TaskRow) -> bool {
    match (row.account_id, row.remote_id) {
        (Some(a), Some(_)) => uuid_parse(a@) is Ok,
        _ => true,
    }
}

/// Whether every column of `row` can be read.
pub open spec fn row_valid(row: TaskRow) -> bool {
    &&& source_ok(row)
    &&& uuid_parse(row.id@) is Ok
    &&& spec_status_from_str(row.status@) is Some
    &&& json_string_list(row.labels@) is Ok
    &&& (row.due_at matches Some(d) ==> rfc3339_problem(d@) is None)
    &&& rfc3339_problem(row.local_updated_at@) is None
}

/// Whether a task's ids read back as the UUIDs they are the canonical text
/// of, and its timestamps are RFC3339.
pub open spec fn task_storable(t: Task) -> bool {
    &&& (uuid_parse(t.id@) matches Ok(v) && spec_uuid_text(v) == t.id@)
    &&& (t.source matches Some(s) ==> (uuid_parse(s.account_id@) matches Ok(v) && spec_uuid_text(v)
        == s.account_id@))
    &&& (t.due_at matches Some(d) ==> rfc3339_problem(d@) is None)
    &&& rfc3339_problem(t.local_updated_at@) is None
}

/// Read a task out of its row. Columns are checked in this order: the source
/// account id, the id, the status, the labels, the due date, the last change;
/// the first unreadable one is reported.
pub fn task_from_row(row: TaskRow) -> (r: Result<Task, CoreError>)
    ensures
        r is Ok <==> row_valid(row),
        r matches Ok(t) ==> row_decodes_to(row, t),
        r matches Err(e) ==> if !source_ok(row) {
            e matches CoreError::DataFormat(f) && f@ == "account_id"@
        } else if uuid_parse(row.id@) is Err {
            e matches CoreError::DataFormat(f) && f@ == "id"@
        } else if spec_status_from_str(row.status@) is None {
            e matches CoreError::DataFormat(f) && f@ == "status"@
        } else if json_string_list(row.labels@) is Err {
            e matches CoreError::Serde(f) && json_string_list(row.labels@) == Err::<Seq<Seq<char>>, Seq<char>>(f@)
        } else {
            e matches CoreError::DataFormat(f) && f@ == "datetime"@
        },
{
    let ghost orig = row;
    let source = match (row.account_id, row.remote_id) {
        (Some(a), Some(rid)) => {
            let account_id = match canonical_id(a.as_str()) {
                Ok(s) => s,
                Err(_) => {
                    return Err(CoreError::data_format("account_id"));
                },
            };
            Some(SourceRef { account_id, remote_id: rid, html_url: row.html_url })
        },
        _ => None,
    };
    let id = match canonical_id(row.id.as_str()) {
        Ok(s) => s,
        Err(_) => {
            return Err(CoreError::data_format("id"));
        },
    };
    let status = match TaskStatus::from_str(row.status.as_str()) {
        Some(st) => st,
        None => {
            return Err(CoreError::data_format("status"));
        },
    };
    let labels = match parse_string_list(row.labels.as_str()) {
        Ok(l) => l,
        Err(m) => {
            return Err(CoreError::Serde(m));
        },
    };
    if let Some(d) = &row.due_at {
        if check_rfc3339(d.as_str()).is_err() {
            return Err(CoreError::data_format("datetime"));
        }
    }
    if check_rfc3339(row.local_updated_at.as_str()).is_err() {
        return Err(CoreError::data_format("datetime"));
    }
    let t = Task {
        id,
        source,
        title: row.title,
        body: row.body,
        status,
        labels,
        due_at: row.due_at,
        local_updated_at: row.local_updated_at,
        dirty: row.dirty != 0,
        deleted: row.deleted != 0,
    };
    assert(row_decodes_to(orig, t));
    Ok(t)
}

/// The SQL of a task listing: not deleted unless asked for, then each given
/// filter, newest change first.
pub open spec fn spec_list_sql(f: TaskFilter) -> Seq<char> {
    "SELECT * FROM tasks WHERE 1 = 1"@
        + (if f.include_deleted { Seq::empty() } else { " AND deleted = 0"@ })
        + (if f.status is Some { " AND status = ?"@ } else { Seq::empty() })
        + (if f.label is Some { " AND labels LIKE ?"@ } else { Seq::empty() })
        + (if f.query is Some { " AND (title LIKE ? OR body LIKE ?)"@ } else { Seq::empty() })
        + " ORDER BY local_updated_at DESC"@
}

/// The values bound to the listing's placeholders, in order: the status by
/// its wire name; the label quoted as it appears inside the labels' JSON (an
/// approximate membership test: `%` and `_` in it are not escaped); the
/// free-text query, for title and for body.
pub open spec fn spec_list_binds(f: TaskFilter) -> Seq<Seq<char>> {
    (match f.status {
        Some(s) => seq![spec_status_str(s)],
        None => Seq::empty(),
    }) + (match f.label {
        Some(l) => seq!["%\""@ + l@ + "\"%"@],
        None => Seq::empty(),
    }) + (match f.query {
        Some(q) => seq!["%"@ + q@ + "%"@, "%"@ + q@ + "%"@],
        None => Seq::empty(),
    })
}

/// The query that lists the tasks a filter selects, and its bound values.
pub fn list_tasks_query(f: &TaskFilter) -> (r: (String, Vec<String>))
    ensures
        r.0@ == spec_list_sql(*f),
        strings_view(r.1@) == spec_list_binds(*f),
{
    let mut sql = owned("SELECT * FROM tasks WHERE 1 = 1");
    let mut binds: Vec<String> = Vec::new();
    if !f.include_deleted {
        push_str(&mut sql, " AND deleted = 0");
    }
    if let Some(s) = f.status {
        push_str(&mut sql, " AND status = ?");
        binds.push(owned(s.as_str()));
    }
    if let Some(l) = &f.label {
        push_str(&mut sql, " AND labels LIKE ?");
        let mut b = owned("%\"");
        push_str(&mut b, l.as_str());
        push_str(&mut b, "\"%");
        binds.push(b);
    }
    if let Some(q) = &f.query {
        push_str(&mut sql, " AND (title LIKE ? OR body LIKE ?)");
        let mut b = owned("%");
        push_str(&mut b, q.as_str());
        push_str(&mut b, "%");
        binds.push(b.clone());
        binds.push(b);
    }
    push_str(&mut sql, " ORDER BY local_updated_at DESC");
    assert(strings_view(binds@) =~= spec_list_binds(*f));
    (sql, binds)
}

/// A task written into a row reads back as the same task.
pub proof fn lemma_row_roundtrip(t: Task, row: TaskRow)
    requires
        row_encodes(t, row),
        task_storable(t),
    ensures
        row_valid(row),
        row_decodes_to(row, t),
{
    reveal_strlit("open");
    reveal_strlit("done");
    assert("open"@[0] != "done"@[0]);
}

} // verus!
