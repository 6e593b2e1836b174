//! Synced rows as changes. Each of the four synced entities becomes a
//! [`SyncChange`] whose `data_json` carries the row's fields that the envelope
//! (id, clock, tombstone, parent board and column) does not; an incoming
//! change becomes the clean row it describes.

use vstd::prelude::*;

use crate::error::CoreError;
use crate::jsonobj::{
    entries_view, field, get_int, get_opt_str, get_str, json_object_read, object_of, opt_field,
    opt_scalar, opt_str_field, read_object, req_int, req_str, write_object, written_view, JsonRead,
    JsonScalar, JsonView,
};
use crate::syncset::{SyncChange, KIND_BOARD, KIND_CARD, KIND_COLUMN, KIND_TASK};
use crate::text::{opt_string, owned};

verus! {

/// A row of the task table, as the change set sees it.
#[derive(Debug, Clone, PartialEq, Eq)]
pub struct TaskRecord {
    pub id: String,
    pub account_id: Option<String>,
    pub remote_id: Option<String>,
    pub html_url: Option<String>,
    pub title: String,
    pub body: String,
    pub status: String,
    /// JSON array of strings.
    pub labels: String,
    pub due_at: Option<String>,
    pub project_id: Option<String>,
    pub remote_updated_at: Option<String>,
    pub local_updated_at: String,
    pub dirty: bool,
    pub deleted: bool,
}

/// A row of the board table.
#[derive(Debug, Clone, PartialEq, Eq)]
pub struct BoardRecord {
    pub id: String,
    pub name: String,
    pub position: i64,
    pub created_at: String,
    pub updated_at: String,
    pub dirty: bool,
    pub deleted: bool,
}

/// A row of the column table.
#[derive(Debug, Clone, PartialEq, Eq)]
pub struct ColumnRecord {
    pub id: String,
    pub board_id: String,
    pub name: String,
    pub position: i64,
    pub filter: String,
    pub created_at: String,
    pub updated_at: String,
    pub dirty: bool,
    pub deleted: bool,
}

/// A row of the card table.
#[derive(Debug, Clone, PartialEq, Eq)]
pub struct CardRecord {
    pub id: String,
    pub board_id: String,
    pub column_id: String,
    pub item_key: String,
    pub position: i64,
    pub created_at: String,
    pub updated_at: String,
    pub dirty: bool,
    pub deleted: bool,
}

/// The data of a task change.
pub open spec fn task_fields(r: TaskRecord) -> Seq<(Seq<char>, JsonView)> {
    seq![
        ("account_id"@, opt_field(r.account_id)),
        ("remote_id"@, opt_field(r.remote_id)),
        ("html_url"@, opt_field(r.html_url)),
        ("title"@, JsonView::Str(r.title@)),
        ("body"@, JsonView::Str(r.body@)),
        ("status"@, JsonView::Str(r.status@)),
        ("labels"@, JsonView::Str(r.labels@)),
        ("due_at"@, opt_field(r.due_at)),
        ("project_id"@, opt_field(r.project_id)),
        ("remote_updated_at"@, opt_field(r.remote_updated_at)),
    ]
}

/// The data of a board change.
pub open spec fn board_fields(r: BoardRecord) -> Seq<(Seq<char>, JsonView)> {
    seq![
        ("name"@, JsonView::Str(r.name@)),
        ("position"@, JsonView::Int(r.position as int)),
        ("created_at"@, JsonView::Str(r.created_at@)),
    ]
}

/// The data of a column change.
pub open spec fn column_fields(r: ColumnRecord) -> Seq<(Seq<char>, JsonView)> {
    seq![
        ("name"@, JsonView::Str(r.name@)),
        ("position"@, JsonView::Int(r.position as int)),
        ("filter"@, JsonView::Str(r.filter@)),
        ("created_at"@, JsonView::Str(r.created_at@)),
    ]
}

/// The data of a card change.
pub open spec fn card_fields(r: CardRecord) -> Seq<(Seq<char>, JsonView)> {
    seq![
        ("item_key"@, JsonView::Str(r.item_key@)),
        ("position"@, JsonView::Int(r.position as int)),
        ("created_at"@, JsonView::Str(r.created_at@)),
    ]
}

/// Whether `c` is the change a row with these envelope values and data fields makes.
pub open spec fn is_change(
    c: SyncChange,
    kind: Seq<char>,
    id: String,
    updated_at: String,
    deleted: bool,
    board_id: Seq<char>,
    column_id: Seq<char>,
    data: Seq<(Seq<char>, JsonView)>,
) -> bool {
    &&& c.kind@ == kind
    &&& c.id == id
    &&& c.updated_at == updated_at
    &&& c.deleted == deleted
    &&& c.board_id@ == board_id
    &&& c.column_id@ == column_id
    &&& json_object_read(c.data_json@) == Ok::<Option<Map<Seq<char>, JsonView>>, Seq<char>>(Some(object_of(data)))
}

fn change(
    kind: &str,
    id: String,
    updated_at: String,
    deleted: bool,
    board_id: String,
    column_id: String,
    data: Vec<(String, JsonScalar)>,
) -> (c: SyncChange)
    ensures
        is_change(c, kind@, id, updated_at, deleted, board_id@, column_id@, written_view(data@)),
{
    let data_json = write_object(&data);
    SyncChange { kind: owned(kind), id, updated_at, deleted, data_json, board_id, column_id }
}

/// The change a task row makes: its local clock is the change's clock.
pub fn task_to_change(r: &TaskRecord) -> (c: SyncChange)
    ensures
        is_change(c, KIND_TASK@, r.id, r.local_updated_at, r.deleted, Seq::empty(), Seq::empty(), task_fields(*r)),
{
    let mut f: Vec<(String, JsonScalar)> = Vec::new();
    f.push(field("account_id", opt_scalar(&r.account_id)));
    f.push(field("remote_id", opt_scalar(&r.remote_id)));
    f.push(field("html_url", opt_scalar(&r.html_url)));
    f.push(field("title", JsonScalar::Str(r.title.clone())));
    f.push(field("body", JsonScalar::Str(r.body.clone())));
    f.push(field("status", JsonScalar::Str(r.status.clone())));
    f.push(field("labels", JsonScalar::Str(r.labels.clone())));
    f.push(field("due_at", opt_scalar(&r.due_at)));
    f.push(field("project_id", opt_scalar(&r.project_id)));
    f.push(field("remote_updated_at", opt_scalar(&r.remote_updated_at)));
    assert(written_view(f@) =~= task_fields(*r));
    change(KIND_TASK, r.id.clone(), r.local_updated_at.clone(), r.deleted, String::new(), String::new(), f)
}

/// The change a board row makes.
pub fn board_to_change(r: &BoardRecord) -> (c: SyncChange)
    ensures
        is_change(c, KIND_BOARD@, r.id, r.updated_at, r.deleted, Seq::empty(), Seq::empty(), board_fields(*r)),
{
    let mut f: Vec<(String, JsonScalar)> = Vec::new();
    f.push(field("name", JsonScalar::Str(r.name.clone())));
    f.push(field("position", JsonScalar::Int(r.position)));
    f.push(field("created_at", JsonScalar::Str(r.created_at.clone())));
    assert(written_view(f@) =~= board_fields(*r));
    change(KIND_BOARD, r.id.clone(), r.updated_at.clone(), r.deleted, String::new(), String::new(), f)
}

/// The change a column row makes; it names the column's board.
pub fn column_to_change(r: &ColumnRecord) -> (c: SyncChange)
    ensures
        is_change(c, KIND_COLUMN@, r.id, r.updated_at, r.deleted, r.board_id@, Seq::empty(), column_fields(*r)),
{
    let mut f: Vec<(String, JsonScalar)> = Vec::new();
    f.push(field("name", JsonScalar::Str(r.name.clone())));
    f.push(field("position", JsonScalar::Int(r.position)));
    f.push(field("filter", JsonScalar::Str(r.filter.clone())));
    f.push(field("created_at", JsonScalar::Str(r.created_at.clone())));
    assert(written_view(f@) =~= column_fields(*r));
    change(KIND_COLUMN, r.id.clone(), r.updated_at.clone(), r.deleted, r.board_id.clone(), String::new(), f)
}

/// The change a card row makes; it names the card's board and column.
pub fn card_to_change(r: &CardRecord) -> (c: SyncChange)
    ensures
        is_change(c, KIND_CARD@, r.id, r.updated_at, r.deleted, r.board_id@, r.column_id@, card_fields(*r)),
{
    let mut f: Vec<(String, JsonScalar)> = Vec::new();
    f.push(field("item_key", JsonScalar::Str(r.item_key.clone())));
    f.push(field("position", JsonScalar::Int(r.position)));
    f.push(field("created_at", JsonScalar::Str(r.created_at.clone())));
    assert(written_view(f@) =~= card_fields(*r));
    change(KIND_CARD, r.id.clone(), r.updated_at.clone(), r.deleted, r.board_id.clone(), r.column_id.clone(), f)
}

/// The fields of a change's data: it must be a JSON object.
fn data_entries(c: &SyncChange) -> (r: Result<Vec<(String, JsonRead)>, CoreError>)
    ensures
        match json_object_read(c.data_json@) {
            Ok(Some(m)) => r matches Ok(v) && object_of(entries_view(v@)) == m,
            Ok(None) => r matches Err(CoreError::Serde(e)) && e@ == "invalid type: expected a JSON object"@,
            Err(msg) => r matches Err(CoreError::Serde(e)) && e@ == msg,
        },
{
    match read_object(c.data_json.as_str()) {
        Ok(Some(v)) => Ok(v),
        Ok(None) => Err(CoreError::Serde(owned("invalid type: expected a JSON object"))),
        Err(m) => Err(CoreError::Serde(m)),
    }
}

/// Whether the data `m` holds every field of a task change, each of its type.
pub open spec fn task_data_ok(m: Map<Seq<char>, JsonView>) -> bool {
    &&& opt_str_field(m, "account_id"@) is Some
    &&& opt_str_field(m, "remote_id"@) is Some
    &&& opt_str_field(m, "html_url"@) is Some
    &&& req_str(m, "title"@) is Some
    &&& req_str(m, "body"@) is Some
    &&& req_str(m, "status"@) is Some
    &&& req_str(m, "labels"@) is Some
    &&& opt_str_field(m, "due_at"@) is Some
    &&& opt_str_field(m, "project_id"@) is Some
    &&& opt_str_field(m, "remote_updated_at"@) is Some
}

/// Whether `r` is the clean task row the change `c` with data `m` describes.
pub open spec fn task_from_data(r: TaskRecord, c: SyncChange, m: Map<Seq<char>, JsonView>) -> bool {
    &&& r.id == c.id
    &&& opt_str_field(m, "account_id"@) == Some(opt_string(r.account_id))
    &&& opt_str_field(m, "remote_id"@) == Some(opt_string(r.remote_id))
    &&& opt_str_field(m, "html_url"@) == Some(opt_string(r.html_url))
    &&& req_str(m, "title"@) == Some(r.title@)
    &&& req_str(m, "body"@) == Some(r.body@)
    &&& req_str(m, "status"@) == Some(r.status@)
    &&& req_str(m, "labels"@) == Some(r.labels@)
    &&& opt_str_field(m, "due_at"@) == Some(opt_string(r.due_at))
    &&& opt_str_field(m, "project_id"@) == Some(opt_string(r.project_id))
    &&& opt_str_field(m, "remote_updated_at"@) == Some(opt_string(r.remote_updated_at))
    &&& r.local_updated_at == c.updated_at
    &&& !r.dirty
    &&& r.deleted == c.deleted
}

/// The task row an incoming change describes, written as synced (clean).
pub fn task_from_change(c: &SyncChange) -> (r: Result<TaskRecord, CoreError>)
    ensures
        match json_object_read(c.data_json@) {
            Ok(Some(m)) => (r is Ok <==> task_data_ok(m)) && (r matches Ok(t) ==> task_from_data(t, *c, m)),
            _ => r is Err,
        },
        r matches Err(e) ==> e is Serde,
{
    let e = data_entries(c)?;
    let account_id = get_opt_str(&e, "account_id")?;
    let remote_id = get_opt_str(&e, "remote_id")?;
    let html_url = get_opt_str(&e, "html_url")?;
    let title = get_str(&e, "title")?;
    let body = get_str(&e, "body")?;
    let status = get_str(&e, "status")?;
    let labels = get_str(&e, "labels")?;
    let due_at = get_opt_str(&e, "due_at")?;
    let project_id = get_opt_str(&e, "project_id")?;
    let remote_updated_at = get_opt_str(&e, "remote_updated_at")?;
    Ok(
        TaskRecord {
            id: c.id.clone(),
            account_id,
            remote_id,
            html_url,
            title,
            body,
            status,
            labels,
            due_at,
            project_id,
            remote_updated_at,
            local_updated_at: c.updated_at.clone(),
            dirty: false,
            deleted: c.deleted,
        },
    )
}

/// Whether the data `m` holds every field of a board change, each of its type.
pub open spec fn board_data_ok(m: Map<Seq<char>, JsonView>) -> bool {
    &&& req_str(m, "name"@) is Some
    &&& req_int(m, "position"@) is Some
    &&& req_str(m, "created_at"@) is Some
}

/// Whether `r` is the clean board row the change `c` with data `m` describes.
pub open spec fn board_from_data(r: BoardRecord, c: SyncChange, m: Map<Seq<char>, JsonView>) -> bool {
    &&& r.id == c.id
    &&& req_str(m, "name"@) == Some(r.name@)
    &&& req_int(m, "position"@) == Some(r.position as int)
    &&& req_str(m, "created_at"@) == Some(r.created_at@)
    &&& r.updated_at == c.updated_at
    &&& !r.dirty
    &&& r.deleted == c.deleted
}

/// The board row an incoming change describes, written as synced (clean).
pub fn board_from_change(c: &SyncChange) -> (r: Result<BoardRecord, CoreError>)
    ensures
        match json_object_read(c.data_json@) {
            Ok(Some(m)) => (r is Ok <==> board_data_ok(m)) && (r matches Ok(b) ==> board_from_data(b, *c, m)),
            _ => r is Err,
        },
        r matches Err(e) ==> e is Serde,
{
    let e = data_entries(c)?;
    let name = get_str(&e, "name")?;
    let position = get_int(&e, "position")?;
    let created_at = get_str(&e, "created_at")?;
    Ok(
        BoardRecord {
            id: c.id.clone(),
            name,
            position,
            created_at,
            updated_at: c.updated_at.clone(),
            dirty: false,
            deleted: c.deleted,
        },
    )
}

/// Whether the data `m` holds every field of a column change, each of its type.
pub open spec fn column_data_ok(m: Map<Seq<char>, JsonView>) -> bool {
    &&& req_str(m, "name"@) is Some
    &&& req_int(m, "position"@) is Some
    &&& req_str(m, "filter"@) is Some
    &&& req_str(m, "created_at"@) is Some
}

/// Whether `r` is the clean column row the change `c` with data `m` describes.
pub open spec fn column_from_data(r: ColumnRecord, c: SyncChange, m: Map<Seq<char>, JsonView>) -> bool {
    &&& r.id == c.id
    &&& r.board_id == c.board_id
    &&& req_str(m, "name"@) == Some(r.name@)
    &&& req_int(m, "position"@) == Some(r.position as int)
    &&& req_str(m, "filter"@) == Some(r.filter@)
    &&& req_str(m, "created_at"@) == Some(r.created_at@)
    &&& r.updated_at == c.updated_at
    &&& !r.dirty
    &&& r.deleted == c.deleted
}

/// The column row an incoming change describes, under the change's board.
pub fn column_from_change(c: &SyncChange) -> (r: Result<ColumnRecord, CoreError>)
    ensures
        match json_object_read(c.data_json@) {
            Ok(Some(m)) => (r is Ok <==> column_data_ok(m)) && (r matches Ok(x) ==> column_from_data(x, *c, m)),
            _ => r is Err,
        },
        r matches Err(e) ==> e is Serde,
{
    let e = data_entries(c)?;
    let name = get_str(&e, "name")?;
    let position = get_int(&e, "position")?;
    let filter = get_str(&e, "filter")?;
    let created_at = get_str(&e, "created_at")?;
    Ok(
        ColumnRecord {
            id: c.id.clone(),
            board_id: c.board_id.clone(),
            name,
            position,
            filter,
            created_at,
            updated_at: c.updated_at.clone(),
            dirty: false,
            deleted: c.deleted,
        },
    )
}

/// Whether the data `m` holds every field of a card change, each of its type.
pub open spec fn card_data_ok(m: Map<Seq<char>, JsonView>) -> bool {
    &&& req_str(m, "item_key"@) is Some
    &&& req_int(m, "position"@) is Some
    &&& req_str(m, "created_at"@) is Some
}

/// Whether `r` is the clean card row the change `c` with data `m` describes.
pub open spec fn card_from_data(r: CardRecord, c: SyncChange, m: Map<Seq<char>, JsonView>) -> bool {
    &&& r.id == c.id
    &&& r.board_id == c.board_id
    &&& r.column_id == c.column_id
    &&& req_str(m, "item_key"@) == Some(r.item_key@)
    &&& req_int(m, "position"@) == Some(r.position as int)
    &&& req_str(m, "created_at"@) == Some(r.created_at@)
    &&& r.updated_at == c.updated_at
    &&& !r.dirty
    &&& r.deleted == c.deleted
}

/// The card row an incoming change describes, under the change's board and column.
pub fn card_from_change(c: &SyncChange) -> (r: Result<CardRecord, CoreError>)
    ensures
        match json_object_read(c.data_json@) {
            Ok(Some(m)) => (r is Ok <==> card_data_ok(m)) && (r matches Ok(x) ==> card_from_data(x, *c, m)),
            _ => r is Err,
        },
        r matches Err(e) ==> e is Serde,
{
    let e = data_entries(c)?;
    let item_key = get_str(&e, "item_key")?;
    let position = get_int(&e, "position")?;
    let created_at = get_str(&e, "created_at")?;
    Ok(
        CardRecord {
            id: c.id.clone(),
            board_id: c.board_id.clone(),
            column_id: c.column_id.clone(),
            item_key,
            position,
            created_at,
            updated_at: c.updated_at.clone(),
            dirty: false,
            deleted: c.deleted,
        },
    )
}

/// Whether `a` holds the values of `b` (as text), written clean.
pub open spec fn same_task_record(a: TaskRecord, b: TaskRecord) -> bool {
    &&& a.id == b.id
    &&& opt_string(a.account_id) == opt_string(b.account_id)
    &&& opt_string(a.remote_id) == opt_string(b.remote_id)
    &&& opt_string(a.html_url) == opt_string(b.html_url)
    &&& a.title@ == b.title@
    &&& a.body@ == b.body@
    &&& a.status@ == b.status@
    &&& a.labels@ == b.labels@
    &&& opt_string(a.due_at) == opt_string(b.due_at)
    &&& opt_string(a.project_id) == opt_string(b.project_id)
    &&& opt_string(a.remote_updated_at) == opt_string(b.remote_updated_at)
    &&& a.local_updated_at == b.local_updated_at
    &&& !a.dirty
    &&& a.deleted == b.deleted
}

/// In an object made of fields, a field that no later one names keeps its value.
proof fn lemma_object_field(f: Seq<(Seq<char>, JsonView)>, i: int)
    requires
        0 <= i < f.len(),
        forall|j: int| i < j < f.len() ==> (#[trigger] f[j]).0 != f[i].0,
    ensures
        object_of(f).contains_key(f[i].0),
        object_of(f)[f[i].0] == f[i].1,
    decreases f.len(),
{
    if i < f.len() - 1 {
        lemma_object_field(f.drop_last(), i);
    }
}

/// In an object made of fields with distinct names, every field keeps its value.
proof fn lemma_object_fields(f: Seq<(Seq<char>, JsonView)>)
    requires
        forall|i: int, j: int| 0 <= i < j < f.len() ==> (#[trigger] f[j]).0 != (#[trigger] f[i]).0,
    ensures
        forall|i: int| 0 <= i < f.len() ==> object_of(f).contains_key(#[trigger] f[i].0) && object_of(f)[f[i].0] == f[i].1,
{
    assert forall|i: int| 0 <= i < f.len() implies object_of(f).contains_key(#[trigger] f[i].0)
        && object_of(f)[f[i].0] == f[i].1 by {
        lemma_object_field(f, i);
    }
}

/// A task row sent as a change reads back, on the other side, as the same
/// row, written clean.
pub proof fn lemma_task_change_roundtrip(r: TaskRecord, c: SyncChange, back: TaskRecord)
    requires
        is_change(c, KIND_TASK@, r.id, r.local_updated_at, r.deleted, Seq::empty(), Seq::empty(), task_fields(r)),
    ensures
        task_data_ok(object_of(task_fields(r))),
        task_from_data(back, c, object_of(task_fields(r))) ==> same_task_record(back, r),
{
    let f = task_fields(r);
    reveal_strlit("account_id");
    reveal_strlit("remote_id");
    reveal_strlit("html_url");
    reveal_strlit("title");
    reveal_strlit("body");
    reveal_strlit("status");
    reveal_strlit("labels");
    reveal_strlit("due_at");
    reveal_strlit("project_id");
    reveal_strlit("remote_updated_at");
    assert("account_id"@[0] != "project_id"@[0]);
    assert("status"@[0] != "labels"@[0]);
    assert("status"@[0] != "due_at"@[0]);
    assert("labels"@[0] != "due_at"@[0]);
    assert forall|i: int, j: int| 0 <= i < j < f.len() implies (#[trigger] f[j]).0 != (#[trigger] f[i]).0 by {
        if f[j].0.len() == f[i].0.len() {
            assert(f[j].0[0] != f[i].0[0]);
        }
    }
    lemma_object_fields(f);
}

/// Whether `a` holds the values of `b` (as text), written clean.
pub open spec fn same_board_record(a: BoardRecord, b: BoardRecord) -> bool {
    &&& a.id == b.id
    &&& a.name@ == b.name@
    &&& a.position == b.position
    &&& a.created_at@ == b.created_at@
    &&& a.updated_at == b.updated_at
    &&& !a.dirty
    &&& a.deleted == b.deleted
}

/// A board row sent as a change reads back as the same row, written clean.
pub proof fn lemma_board_change_roundtrip(r: BoardRecord, c: SyncChange, back: BoardRecord)
    requires
        is_change(c, KIND_BOARD@, r.id, r.updated_at, r.deleted, Seq::empty(), Seq::empty(), board_fields(r)),
    ensures
        board_data_ok(object_of(board_fields(r))),
        board_from_data(back, c, object_of(board_fields(r))) ==> same_board_record(back, r),
{
    let f = board_fields(r);
    reveal_strlit("name");
    reveal_strlit("position");
    reveal_strlit("created_at");
    assert forall|i: int, j: int| 0 <= i < j < f.len() implies (#[trigger] f[j]).0 != (#[trigger] f[i]).0 by {
        if f[j].0.len() == f[i].0.len() {
            assert(f[j].0[0] != f[i].0[0]);
        }
    }
    lemma_object_fields(f);
}

/// Whether `a` holds the values of `b` (as text), written clean.
pub open spec fn same_column_record(a: ColumnRecord, b: ColumnRecord) -> bool {
    &&& a.id == b.id
    &&& a.board_id == b.board_id
    &&& a.name@ == b.name@
    &&& a.position == b.position
    &&& a.filter@ == b.filter@
    &&& a.created_at@ == b.created_at@
    &&& a.updated_at == b.updated_at
    &&& !a.dirty
    &&& a.deleted == b.deleted
}

/// A column row sent as a change reads back as the same row, under the same
/// board, written clean.
pub proof fn lemma_column_change_roundtrip(r: ColumnRecord, c: SyncChange, back: ColumnRecord)
    requires
        is_change(c, KIND_COLUMN@, r.id, r.updated_at, r.deleted, r.board_id@, Seq::empty(), column_fields(r)),
        c.board_id == r.board_id,
    ensures
        column_data_ok(object_of(column_fields(r))),
        column_from_data(back, c, object_of(column_fields(r))) ==> same_column_record(back, r),
{
    let f = column_fields(r);
    reveal_strlit("name");
    reveal_strlit("position");
    reveal_strlit("filter");
    reveal_strlit("created_at");
    assert forall|i: int, j: int| 0 <= i < j < f.len() implies (#[trigger] f[j]).0 != (#[trigger] f[i]).0 by {
        if f[j].0.len() == f[i].0.len() {
            assert(f[j].0[0] != f[i].0[0]);
        }
    }
    lemma_object_fields(f);
}

/// Whether `a` holds the values of `b` (as text), written clean.
pub open spec fn same_card_record(a: CardRecord, b: CardRecord) -> bool {
    &&& a.id == b.id
    &&& a.board_id == b.board_id
    &&& a.column_id == b.column_id
    &&& a.item_key@ == b.item_key@
    &&& a.position == b.position
    &&& a.created_at@ == b.created_at@
    &&& a.updated_at == b.updated_at
    &&& !a.dirty
    &&& a.deleted == b.deleted
}

/// A card row sent as a change reads back as the same row, on the same board
/// and column, written clean.
pub proof fn lemma_card_change_roundtrip(r: CardRecord, c: SyncChange, back: CardRecord)
    requires
        is_change(c, KIND_CARD@, r.id, r.updated_at, r.deleted, r.board_id@, r.column_id@, card_fields(r)),
        c.board_id == r.board_id,
        c.column_id == r.column_id,
    ensures
        card_data_ok(object_of(card_fields(r))),
        card_from_data(back, c, object_of(card_fields(r))) ==> same_card_record(back, r),
{
    let f = card_fields(r);
    reveal_strlit("item_key");
    reveal_strlit("position");
    reveal_strlit("created_at");
    assert forall|i: int, j: int| 0 <= i < j < f.len() implies (#[trigger] f[j]).0 != (#[trigger] f[i]).0 by {
        if f[j].0.len() == f[i].0.len() {
            assert(f[j].0[0] != f[i].0[0]);
        }
    }
    lemma_object_fields(f);
}

/// The board a column or card change creates when its board has not arrived
/// yet: empty, at position 0, with an empty clock, so that the real board's
/// change replaces it.
pub fn placeholder_board(board_id: &str) -> (b: BoardRecord)
    ensures
        b.id@ == board_id@,
        b.name@.len() == 0,
        b.position == 0,
        b.created_at@.len() == 0,
        b.updated_at@.len() == 0,
        !b.dirty,
        !b.deleted,
{
    BoardRecord {
        id: owned(board_id),
        name: String::new(),
        position: 0,
        created_at: String::new(),
        updated_at: String::new(),
        dirty: false,
        deleted: false,
    }
}

/// Any board change with a clock replaces a placeholder board.
pub proof fn lemma_placeholder_yields(placeholder: SyncChange, incoming: SyncChange)
    requires
        placeholder.updated_at@.len() == 0,
        incoming.kind@ == KIND_BOARD@,
        incoming.updated_at@.len() > 0,
    ensures
        crate::syncset::spec_lww_applies(Some(placeholder), incoming),
{
}

} // verus!
