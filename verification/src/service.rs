//! The decisions of the task service: reading request parameters into the
//! store's drafts, filters and patches, choosing the provider for an account,
//! and assembling boards and snapshot rows. The store and the network calls
//! around them run outside the library.

use vstd::prelude::*;

use crate::domain::{
    spec_provider_str, spec_status_from_str, Account, Board, BoardCard, BoardColumn, ProviderKind,
    TaskDraft, TaskFilter, TaskPatch, TaskStatus,
};
use crate::dto::{
    spec_card_dto, spec_repo_detail_dto, BoardDto, CardDto, ColumnDto, CreateTaskParams, ListTasksParams, RepoDetailDto,
    TaskIdParam, UpdateTaskParams,
};
use crate::github::GitHubProvider;
use crate::ids::{canonical_id, spec_uuid_text, uuid_parse};
use crate::json::{field_str, json_field_str};
use crate::provider::{RemoteRepo, RemoteRepoDetail};
use crate::store::LOCAL_USER;
use crate::text::{owned, push_str};
use crate::timefmt::{check_rfc3339, rfc3339_problem};
use crate::tokens::{OAuthToken, TokenError};
use crate::auth::AuthContext;

verus! {

/// The GitHub REST API an account without its own base URL talks to.
pub const GITHUB_API: &'static str = "https://api.github.com";

/// Why a service operation was refused before or around the store.
#[derive(Debug, Clone, PartialEq, Eq)]
pub enum ServiceError {
    /// An id is not a UUID (the parser's message).
    InvalidId(String),
    /// A status is neither "open" nor "done" (the offending text).
    InvalidStatus(String),
    /// A due date is not RFC3339 (the parser's message).
    InvalidDate(String),
    /// No account has this id.
    AccountNotFound(String),
    /// A GitHub account's configuration lacks this key.
    MissingConfig(String),
    /// The token store failed (its message).
    TokenStore(String),
    /// No token is stored for this account.
    NoToken(String),
    /// The account's provider has no implementation yet.
    Unsupported(ProviderKind),
    /// The repository `owner/repo` does not exist.
    RepoNotFound(String, String),
}

/// The message of a service error, as the service reports it.
pub open spec fn error_text(e: ServiceError) -> Seq<char> {
    match e {
        ServiceError::InvalidId(m) => m@,
        ServiceError::InvalidStatus(s) => "invalid status `"@ + s@ + "` (use open|done)"@,
        ServiceError::InvalidDate(m) => m@,
        ServiceError::AccountNotFound(id) => "account not found: "@ + id@,
        ServiceError::MissingConfig(k) => "github account missing config."@ + k@,
        ServiceError::TokenStore(m) => "token store error: "@ + m@,
        ServiceError::NoToken(id) => "no token stored for account "@ + id@,
        ServiceError::Unsupported(k) => "provider not yet supported: "@ + spec_provider_str(k),
        ServiceError::RepoNotFound(o, r) => "repository not found: "@ + o@ + "/"@ + r@,
    }
}

impl ServiceError {
    /// The message of this error.
    pub fn message(&self) -> (m: String)
        ensures
            m@ == error_text(*self),
    {
        match self {
            ServiceError::InvalidId(m) => m.clone(),
            ServiceError::InvalidStatus(s) => {
                let mut m = owned("invalid status `");
                push_str(&mut m, s.as_str());
                push_str(&mut m, "` (use open|done)");
                m
            },
            ServiceError::InvalidDate(m) => m.clone(),
            ServiceError::AccountNotFound(id) => {
                let mut m = owned("account not found: ");
                push_str(&mut m, id.as_str());
                m
            },
            ServiceError::MissingConfig(k) => {
                let mut m = owned("github account missing config.");
                push_str(&mut m, k.as_str());
                m
            },
            ServiceError::TokenStore(e) => {
                let mut m = owned("token store error: ");
                push_str(&mut m, e.as_str());
                m
            },
            ServiceError::NoToken(id) => {
                let mut m = owned("no token stored for account ");
                push_str(&mut m, id.as_str());
                m
            },
            ServiceError::Unsupported(k) => {
                let mut m = owned("provider not yet supported: ");
                push_str(&mut m, k.as_str());
                m
            },
            ServiceError::RepoNotFound(o, r) => {
                let mut m = owned("repository not found: ");
                push_str(&mut m, o.as_str());
                push_str(&mut m, "/");
                push_str(&mut m, r.as_str());
                m
            },
        }
    }
}

/// A status named by its wire name.
pub fn parse_status(s: &str) -> (r: Result<TaskStatus, ServiceError>)
    ensures
        match spec_status_from_str(s@) {
            Some(st) => r == Ok::<TaskStatus, ServiceError>(st),
            None => r matches Err(ServiceError::InvalidStatus(t)) && t@ == s@,
        },
{
    match TaskStatus::from_str(s) {
        Some(st) => Ok(st),
        None => Err(ServiceError::InvalidStatus(owned(s))),
    }
}

/// An id read as a UUID and written canonically.
pub fn parse_id(text: &str) -> (r: Result<String, ServiceError>)
    ensures
        match uuid_parse(text@) {
            Ok(v) => r matches Ok(s) && s@ == spec_uuid_text(v),
            Err(m) => r matches Err(ServiceError::InvalidId(e)) && e@ == m,
        },
{
    match canonical_id(text) {
        Ok(s) => Ok(s),
        Err(m) => Err(ServiceError::InvalidId(m)),
    }
}

/// Whether every id of `ids` reads as a UUID.
pub open spec fn all_ids_parse(ids: Seq<String>) -> bool {
    forall|i: int| 0 <= i < ids.len() ==> (#[trigger] uuid_parse(ids[i]@)) is Ok
}

/// A list of ids, each read as a UUID and written canonically; the first id
/// that is no UUID refuses the whole list.
pub fn parse_ids(ids: &Vec<String>) -> (r: Result<Vec<String>, ServiceError>)
    ensures
        match r {
            Ok(v) => all_ids_parse(ids@) && v@.len() == ids@.len() && forall|i: int|
                0 <= i < ids@.len() ==> (#[trigger] v@[i])@ == spec_uuid_text(uuid_parse(ids@[i]@)->Ok_0),
            Err(e) => exists|k: int|
                0 <= k < ids@.len() && all_ids_parse(ids@.take(k)) && ((#[trigger] uuid_parse(ids@[k]@)) matches Err(m)
                    && (e matches ServiceError::InvalidId(t) && t@ == m)),
        },
{
    let mut out: Vec<String> = Vec::new();
    let mut i: usize = 0;
    while i < ids.len()
        invariant
            i <= ids@.len(),
            all_ids_parse(ids@.take(i as int)),
            out@.len() == i,
            forall|j: int| 0 <= j < i ==> (#[trigger] out@[j])@ == spec_uuid_text(uuid_parse(ids@[j]@)->Ok_0),
        decreases ids.len() - i,
    {
        match parse_id(ids[i].as_str()) {
            Ok(s) => {
                out.push(s);
                proof {
                    assert forall|j: int| 0 <= j < i + 1 implies (#[trigger] uuid_parse(ids@.take(i + 1)[j]@)) is Ok by {
                        if j < i {
                            assert(ids@.take(i as int)[j] == ids@[j]);
                            assert(uuid_parse(ids@.take(i as int)[j]@) is Ok);
                        }
                    }
                }
                i = i + 1;
            },
            Err(e) => {
                proof {
                    assert(uuid_parse(ids@[i as int]@) is Err);
                }
                return Err(e);
            },
        }
    }
    proof {
        assert(ids@.take(ids@.len() as int) =~= ids@);
    }
    Ok(out)
}

/// The text held by an optional string, empty when absent.
pub open spec fn text_or_empty(o: Option<String>) -> Seq<char> {
    match o {
        Some(s) => s@,
        None => Seq::empty(),
    }
}

/// The draft a task creation asks for: missing body and labels are empty,
/// and a due date must be RFC3339.
pub fn draft_from_params(p: CreateTaskParams) -> (r: Result<TaskDraft, ServiceError>)
    ensures
        r is Ok <==> (p.due_at is None || rfc3339_problem(p.due_at->Some_0@) is None),
        r matches Ok(d) ==> d.title == p.title && d.body@ == text_or_empty(p.body) && d.labels@ == (
        match p.labels {
            Some(l) => l@,
            None => Seq::<String>::empty(),
        }) && d.due_at == p.due_at,
        r matches Err(e) ==> e matches ServiceError::InvalidDate(m) && rfc3339_problem(
            p.due_at->Some_0@,
        ) == Some(m@),
{
    let due_at = match p.due_at {
        Some(due) => {
            match check_rfc3339(due.as_str()) {
                Ok(()) => Some(due),
                Err(m) => {
                    return Err(ServiceError::InvalidDate(m));
                },
            }
        },
        None => None,
    };
    let body = match p.body {
        Some(b) => b,
        None => String::new(),
    };
    let labels = match p.labels {
        Some(l) => l,
        None => Vec::new(),
    };
    Ok(TaskDraft { title: p.title, body, labels, due_at })
}

/// What an optional status parameter asks for: `None` when it names no
/// status, else the status filter or change it denotes.
pub open spec fn spec_status_param(o: Option<String>) -> Option<Option<TaskStatus>> {
    match o {
        None => Some(None),
        Some(s) => match spec_status_from_str(s@) {
            Some(st) => Some(Some(st)),
            None => None,
        },
    }
}

fn status_param(o: Option<String>) -> (r: Result<Option<TaskStatus>, ServiceError>)
    ensures
        match spec_status_param(o) {
            Some(st) => r == Ok::<Option<TaskStatus>, ServiceError>(st),
            None => r == Err::<Option<TaskStatus>, ServiceError>(ServiceError::InvalidStatus(o->Some_0)),
        },
{
    match o {
        None => Ok(None),
        Some(s) => match TaskStatus::from_str(s.as_str()) {
            Some(st) => Ok(Some(st)),
            None => Err(ServiceError::InvalidStatus(s)),
        },
    }
}

/// The filter a task listing asks for; deleted tasks are never listed.
pub fn filter_from_params(p: ListTasksParams) -> (r: Result<TaskFilter, ServiceError>)
    ensures
        match spec_status_param(p.status) {
            Some(st) => r == Ok::<TaskFilter, ServiceError>(
                TaskFilter { status: st, label: p.label, query: p.query, include_deleted: false },
            ),
            None => r == Err::<TaskFilter, ServiceError>(ServiceError::InvalidStatus(p.status->Some_0)),
        },
{
    let status = status_param(p.status)?;
    Ok(TaskFilter { status, label: p.label, query: p.query, include_deleted: false })
}

/// What the due-date parameters of an update ask for: `None` when the given
/// date is not RFC3339; `clear_due` wins over any date.
pub open spec fn spec_due_param(clear_due: bool, due_at: Option<String>) -> Option<Option<Option<String>>> {
    if clear_due {
        Some(Some(None))
    } else {
        match due_at {
            None => Some(None),
            Some(d) => if rfc3339_problem(d@) is None {
                Some(Some(Some(d)))
            } else {
                None
            },
        }
    }
}

/// The patch an update asks for, when its status and due date are valid.
pub open spec fn spec_patch(p: UpdateTaskParams) -> Option<TaskPatch> {
    match (spec_status_param(p.status), spec_due_param(p.clear_due, p.due_at)) {
        (Some(st), Some(due)) => Some(
            TaskPatch { title: p.title, body: p.body, status: st, labels: p.labels, due_at: due },
        ),
        _ => None,
    }
}

/// The task id and patch a task update asks for. The id is read first, then
/// the status, then the due date; the first invalid one refuses the update.
pub fn patch_from_params(p: UpdateTaskParams) -> (r: Result<(String, TaskPatch), ServiceError>)
    ensures
        match uuid_parse(p.id@) {
            Err(m) => r matches Err(ServiceError::InvalidId(e)) && e@ == m,
            Ok(v) => match spec_patch(p) {
                Some(patch) => r matches Ok((id, q)) && id@ == spec_uuid_text(v) && q == patch,
                None => if spec_status_param(p.status) is None {
                    r == Err::<(String, TaskPatch), ServiceError>(ServiceError::InvalidStatus(p.status->Some_0))
                } else {
                    r matches Err(ServiceError::InvalidDate(m)) && rfc3339_problem(p.due_at->Some_0@) == Some(m@)
                },
            },
        },
{
    let ghost orig = p;
    let id = parse_id(p.id.as_str())?;
    let status = status_param(p.status)?;
    let due_at = if p.clear_due {
        Some(None)
    } else {
        match p.due_at {
            Some(s) => match check_rfc3339(s.as_str()) {
                Ok(()) => Some(Some(s)),
                Err(m) => {
                    return Err(ServiceError::InvalidDate(m));
                },
            },
            None => None,
        }
    };
    let patch = TaskPatch { title: p.title, body: p.body, status, labels: p.labels, due_at };
    proof {
        assert(spec_status_param(orig.status) == Some(status));
        assert(spec_due_param(orig.clear_due, orig.due_at) == Some(patch.due_at));
    }
    Ok((id, patch))
}

/// Whether `p` is the update that completes the task `id` asks for.
pub open spec fn is_completion(p: UpdateTaskParams, id: String) -> bool {
    &&& p.id == id
    &&& p.title is None
    &&& p.body is None
    &&& p.status matches Some(s) && s@ == "done"@
    &&& p.labels is None
    &&& p.due_at is None
    &&& !p.clear_due
}

/// The update that completes a task: status "done", nothing else touched.
pub fn complete_params(p: TaskIdParam) -> (r: UpdateTaskParams)
    ensures
        is_completion(r, p.id),
{
    UpdateTaskParams {
        id: p.id,
        title: None,
        body: None,
        status: Some(owned("done")),
        labels: None,
        due_at: None,
        clear_due: false,
    }
}

/// Completing a task marks it done and changes nothing else it holds, and
/// completing it again changes nothing more.
pub proof fn lemma_complete_marks_done(t: crate::domain::Task, p: UpdateTaskParams, id: String, now: Seq<char>)
    requires
        is_completion(p, id),
    ensures
        spec_patch(p) == Some(
            TaskPatch { title: None, body: None, status: Some(TaskStatus::Done), labels: None, due_at: None },
        ),
        ({
            let done = crate::domain::spec_patched(t, spec_patch(p)->Some_0, now);
            &&& done.status == TaskStatus::Done
            &&& done.title == t.title
            &&& done.body == t.body
            &&& done.labels == t.labels
            &&& done.due_at == t.due_at
            &&& crate::domain::spec_patched(done, spec_patch(p)->Some_0, now) == done
        }),
{
    reveal_strlit("done");
    reveal_strlit("open");
    assert("done"@[0] != "open"@[0]);
}

/// An update with `clear_due` clears the due date whatever date it also carries.
pub proof fn lemma_clear_due_wins(t: crate::domain::Task, p: UpdateTaskParams, now: Seq<char>)
    requires
        p.clear_due,
        spec_status_param(p.status) is Some,
    ensures
        spec_patch(p) is Some,
        crate::domain::spec_patched(t, spec_patch(p)->Some_0, now).due_at is None,
{
}

/// The text of a configuration key, empty when absent.
pub open spec fn spec_config_field(config: Seq<char>, key: Seq<char>) -> Seq<char> {
    match json_field_str(config, key) {
        Some(s) => s,
        None => Seq::empty(),
    }
}

fn config_field(config: &str, key: &str) -> (r: String)
    ensures
        r@ == spec_config_field(config@, key@),
{
    match field_str(config, key) {
        Some(s) => s,
        None => String::new(),
    }
}

/// The GitHub provider an account's operations go through. The account must
/// exist and be a GitHub account; `require_repo` (a sync) also asks for its
/// configured `owner` and `repo`, which the account-wide operations let
/// default to empty; then a token must be stored for it. The API base is the
/// account's own or GitHub's.
pub fn github_provider_for(
    account_id: &str,
    account: Option<Account>,
    token: Result<Option<OAuthToken>, TokenError>,
    require_repo: bool,
) -> (r: Result<GitHubProvider, ServiceError>)
    ensures
        match account {
            None => r matches Err(ServiceError::AccountNotFound(t)) && t@ == account_id@,
            Some(a) => if a.provider != ProviderKind::Github {
                r == Err::<GitHubProvider, ServiceError>(ServiceError::Unsupported(a.provider))
            } else if require_repo && json_field_str(a.config@, "owner"@) is None {
                r matches Err(ServiceError::MissingConfig(k)) && k@ == "owner"@
            } else if require_repo && json_field_str(a.config@, "repo"@) is None {
                r matches Err(ServiceError::MissingConfig(k)) && k@ == "repo"@
            } else {
                match token {
                    Err(e) => r == Err::<GitHubProvider, ServiceError>(ServiceError::TokenStore(e.0)),
                    Ok(None) => r matches Err(ServiceError::NoToken(t)) && t@ == account_id@,
                    Ok(Some(t)) => r matches Ok(p) && p.base_url@ == (match a.base_url {
                        Some(b) => b@,
                        None => GITHUB_API@,
                    }) && p.token == t.access_token && p.owner@ == spec_config_field(a.config@, "owner"@)
                        && p.repo@ == spec_config_field(a.config@, "repo"@),
                }
            },
        },
{
    let a = match account {
        None => {
            return Err(ServiceError::AccountNotFound(owned(account_id)));
        },
        Some(a) => a,
    };
    match a.provider {
        ProviderKind::Github => {},
        other => {
            return Err(ServiceError::Unsupported(other));
        },
    }
    if require_repo {
        if field_str(a.config.as_str(), "owner").is_none() {
            return Err(ServiceError::MissingConfig(owned("owner")));
        }
        if field_str(a.config.as_str(), "repo").is_none() {
            return Err(ServiceError::MissingConfig(owned("repo")));
        }
    }
    let owner = config_field(a.config.as_str(), "owner");
    let repo = config_field(a.config.as_str(), "repo");
    let t = match token {
        Err(e) => {
            return Err(ServiceError::TokenStore(e.0));
        },
        Ok(None) => {
            return Err(ServiceError::NoToken(owned(account_id)));
        },
        Ok(Some(t)) => t,
    };
    let base_url = match a.base_url {
        Some(b) => b,
        None => owned(GITHUB_API),
    };
    Ok(GitHubProvider::new(base_url, t.access_token, owner, repo))
}

/// A repository's detail, or the refusal naming it when it does not exist.
pub fn repo_detail_or_missing(detail: Option<RemoteRepoDetail>, owner: &str, repo: &str) -> (r: Result<
    RepoDetailDto,
    ServiceError,
>)
    ensures
        match detail {
            Some(d) => r == Ok::<RepoDetailDto, ServiceError>(spec_repo_detail_dto(d)),
            None => r matches Err(ServiceError::RepoNotFound(o, n)) && o@ == owner@ && n@ == repo@,
        },
{
    match detail {
        Some(d) => Ok(RepoDetailDto::from(d)),
        None => Err(ServiceError::RepoNotFound(owned(owner), owned(repo))),
    }
}

/// The filter a new or updated column gets: the given JSON, or `{}` (a
/// manual-only column) when none is given.
pub fn column_filter(filter: Option<String>) -> (r: String)
    ensures
        r@ == match filter {
            Some(f) => f@,
            None => "{}"@,
        },
{
    match filter {
        Some(f) => f,
        None => owned("{}"),
    }
}

/// The manual cards of one column, in the order given.
pub open spec fn spec_cards_in(cards: Seq<BoardCard>, column_id: Seq<char>) -> Seq<CardDto>
    decreases cards.len(),
{
    if cards.len() == 0 {
        Seq::empty()
    } else {
        let rest = spec_cards_in(cards.drop_last(), column_id);
        if cards.last().column_id@ == column_id {
            rest.push(spec_card_dto(cards.last()))
        } else {
            rest
        }
    }
}

fn card_dto_of(c: &BoardCard) -> (d: CardDto)
    ensures
        d == spec_card_dto(*c),
{
    CardDto { id: c.id.clone(), item_key: c.item_key.clone(), position: c.position }
}

fn cards_in(cards: &Vec<BoardCard>, column_id: &str) -> (r: Vec<CardDto>)
    ensures
        r@ == spec_cards_in(cards@, column_id@),
{
    let mut out: Vec<CardDto> = Vec::new();
    let mut i: usize = 0;
    while i < cards.len()
        invariant
            i <= cards@.len(),
            out@ == spec_cards_in(cards@.take(i as int), column_id@),
        decreases cards.len() - i,
    {
        let c = &cards[i];
        proof {
            assert(cards@.take(i + 1).drop_last() =~= cards@.take(i as int));
            assert(cards@.take(i + 1).last() == cards@[i as int]);
        }
        if crate::text::str_eq(c.column_id.as_str(), column_id) {
            out.push(card_dto_of(c));
        }
        i = i + 1;
    }
    proof {
        assert(cards@.take(cards@.len() as int) =~= cards@);
    }
    out
}

/// Whether `d` is the view of column `c` carrying its cards out of `cards`.
pub open spec fn column_view_of(d: ColumnDto, c: BoardColumn, cards: Seq<BoardCard>) -> bool {
    &&& d.id == c.id
    &&& d.name == c.name
    &&& d.position == c.position
    &&& d.filter == c.filter
    &&& d.created_at == c.created_at
    &&& d.cards@ == spec_cards_in(cards, c.id@)
}

/// A board with its columns in the order given, each carrying, in order, the
/// manual cards placed on it.
pub fn assemble_board(board: Board, columns: Vec<BoardColumn>, cards: Vec<BoardCard>) -> (d: BoardDto)
    ensures
        d.id == board.id,
        d.name == board.name,
        d.position == board.position,
        d.created_at == board.created_at,
        d.updated_at == board.updated_at,
        d.columns@.len() == columns@.len(),
        forall|i: int| 0 <= i < columns@.len() ==> column_view_of(#[trigger] d.columns@[i], columns@[i], cards@),
{
    let all = Ghost(columns@);
    let mut rest = columns;
    let mut out: Vec<ColumnDto> = Vec::new();
    while rest.len() > 0
        invariant
            rest@.len() <= all@.len(),
            rest@ == all@.skip(all@.len() - rest@.len()),
            out@.len() == all@.len() - rest@.len(),
            forall|i: int| 0 <= i < out@.len() ==> column_view_of(#[trigger] out@[i], all@[i], cards@),
        decreases rest@.len(),
    {
        let ghost done = all@.len() - rest@.len();
        let col = rest.remove(0);
        proof {
            assert(all@[done] == col);
            assert(rest@ =~= all@.skip(all@.len() - rest@.len()));
        }
        let col_cards = cards_in(&cards, col.id.as_str());
        out.push(ColumnDto::from_parts(col, col_cards));
    }
    BoardDto::from_parts(board, out)
}

/// The overview of each board, in order: no columns.
pub fn board_overviews(boards: Vec<Board>) -> (r: Vec<BoardDto>)
    ensures
        r@.len() == boards@.len(),
        forall|i: int| 0 <= i < boards@.len() ==> {
            let d = #[trigger] r@[i];
            &&& d.id == boards@[i].id
            &&& d.name == boards@[i].name
            &&& d.position == boards@[i].position
            &&& d.created_at == boards@[i].created_at
            &&& d.updated_at == boards@[i].updated_at
            &&& d.columns@.len() == 0
        },
{
    let all = Ghost(boards@);
    let mut rest = boards;
    let mut out: Vec<BoardDto> = Vec::new();
    while rest.len() > 0
        invariant
            rest@.len() <= all@.len(),
            rest@ == all@.skip(all@.len() - rest@.len()),
            out@.len() == all@.len() - rest@.len(),
            forall|i: int| 0 <= i < out@.len() ==> {
                let d = #[trigger] out@[i];
                &&& d.id == all@[i].id
                &&& d.name == all@[i].name
                &&& d.position == all@[i].position
                &&& d.created_at == all@[i].created_at
                &&& d.updated_at == all@[i].updated_at
                &&& d.columns@.len() == 0
            },
        decreases rest@.len(),
    {
        let ghost done = all@.len() - rest@.len();
        let b = rest.remove(0);
        proof {
            assert(all@[done] == b);
            assert(rest@ =~= all@.skip(all@.len() - rest@.len()));
        }
        out.push(BoardDto::from_parts(b, Vec::new()));
    }
    out
}

/// One repository's numbers for the day's snapshot.
#[derive(Debug, Clone, PartialEq, Eq)]
pub struct SnapshotRow {
    pub repo_full_name: String,
    pub stars: i64,
    pub forks: i64,
    pub open_issues: i64,
}

/// The snapshot row of each repository, in order. Forks are not known from a
/// repository listing and are recorded as 0.
pub fn snapshot_rows(repos: &Vec<RemoteRepo>) -> (r: Vec<SnapshotRow>)
    ensures
        r@.len() == repos@.len(),
        forall|i: int| 0 <= i < repos@.len() ==> {
            let row = #[trigger] r@[i];
            &&& row.repo_full_name == repos@[i].full_name
            &&& row.stars == repos@[i].stars as i64
            &&& row.forks == 0
            &&& row.open_issues == repos@[i].open_issues as i64
        },
{
    let mut out: Vec<SnapshotRow> = Vec::new();
    let mut i: usize = 0;
    while i < repos.len()
        invariant
            i <= repos@.len(),
            out@.len() == i,
            forall|j: int| 0 <= j < i ==> {
                let row = #[trigger] out@[j];
                &&& row.repo_full_name == repos@[j].full_name
                &&& row.stars == repos@[j].stars as i64
                &&& row.forks == 0
                &&& row.open_issues == repos@[j].open_issues as i64
            },
        decreases repos.len() - i,
    {
        let repo = &repos[i];
        out.push(
            SnapshotRow {
                repo_full_name: repo.full_name.clone(),
                stars: repo.stars as i64,
                forks: 0,
                open_issues: repo.open_issues as i64,
            },
        );
        i = i + 1;
    }
    out
}

/// The first day the digest needs loaded, given the most recent captured
/// days newest first: the oldest of them.
pub fn digest_since_day(days: &Vec<String>) -> (r: Option<String>)
    ensures
        r == (if days@.len() == 0 {
            None
        } else {
            Some(days@.last())
        }),
{
    if days.len() == 0 {
        None
    } else {
        Some(days[days.len() - 1].clone())
    }
}

/// The user a data request is scoped to: the authenticated user, or the
/// local user when the request carries no identity.
pub fn user_of(ctx: Option<&AuthContext>) -> (r: String)
    ensures
        r@ == match ctx {
            Some(c) => match c.user_id {
                Some(u) => u@,
                None => LOCAL_USER@,
            },
            None => LOCAL_USER@,
        },
{
    match ctx {
        Some(c) => match &c.user_id {
            Some(u) => u.clone(),
            None => owned(LOCAL_USER),
        },
        None => owned(LOCAL_USER),
    }
}

} // verus!
