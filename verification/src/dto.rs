//! The agent- and UI-facing views of tasks, boards and provider data, and the
//! parameter records of the service operations.

use vstd::prelude::*;

use crate::domain::{spec_status_str, Board, BoardCard, BoardColumn, Task};
use crate::provider::{
    RemoteCodeHit, RemoteComment, RemoteContributor, RemoteFork, RemoteIssueDetail, RemoteLabel,
    RemoteLanguage, RemoteNotification, RemotePath, RemotePullRequestDetail, RemoteReferrer,
    RemoteRelease, RemoteRepoDetail, RemoteReview, RemoteTraffic, RemoteTrafficDay, RemoteUser,
    RemoteWorkflowRun,
};
use crate::snapshot::RepoSnapshot;
use crate::text::owned;

verus! {

// --- tasks ------------------------------------------------------------------

/// Agent-facing view of a task (timestamps as RFC3339 strings).
#[derive(Debug, Clone, PartialEq, Eq)]
pub struct TaskDto {
    pub id: String,
    pub title: String,
    pub body: String,
    pub status: String,
    pub labels: Vec<String>,
    pub due_at: Option<String>,
    pub updated_at: String,
    /// The web page of the issue the task is linked to, if any.
    pub source_url: Option<String>,
}

/// The provider URL of a task, if it mirrors a remote issue that has one.
pub open spec fn spec_source_url(t: Task) -> Option<String> {
    match t.source {
        Some(s) => s.html_url,
        None => None,
    }
}

impl TaskDto {
    /// The view of `t`: its status by wire name, its last local change as
    /// `updated_at`, and the URL of the issue it mirrors.
    pub fn from_task(t: Task) -> (d: TaskDto)
        ensures
            d.id == t.id,
            d.title == t.title,
            d.body == t.body,
            d.status@ == spec_status_str(t.status),
            d.labels == t.labels,
            d.due_at == t.due_at,
            d.updated_at == t.local_updated_at,
            d.source_url == spec_source_url(t),
    {
        let status = owned(t.status.as_str());
        let source_url = match t.source {
            Some(s) => s.html_url,
            None => None,
        };
        TaskDto {
            id: t.id,
            title: t.title,
            body: t.body,
            status,
            labels: t.labels,
            due_at: t.due_at,
            updated_at: t.local_updated_at,
            source_url,
        }
    }
}

/// Parameters of task creation.
#[derive(Debug, Clone, PartialEq, Eq)]
pub struct CreateTaskParams {
    pub title: String,
    pub body: Option<String>,
    pub labels: Option<Vec<String>>,
    /// Optional RFC3339 due date.
    pub due_at: Option<String>,
}

/// Parameters of a task listing.
#[derive(Debug, Clone, PartialEq, Eq)]
pub struct ListTasksParams {
    /// Filter by status: "open" or "done".
    pub status: Option<String>,
    pub label: Option<String>,
    /// Free-text match on title/body.
    pub query: Option<String>,
}

/// A task named by its id.
#[derive(Debug, Clone, PartialEq, Eq)]
pub struct TaskIdParam {
    pub id: String,
}

/// Parameters of a task update.
#[derive(Debug, Clone, PartialEq, Eq)]
pub struct UpdateTaskParams {
    pub id: String,
    pub title: Option<String>,
    pub body: Option<String>,
    /// "open" or "done".
    pub status: Option<String>,
    pub labels: Option<Vec<String>>,
    /// RFC3339 string to set a due date.
    pub due_at: Option<String>,
    /// When true, clears the due date (overrides `due_at`).
    pub clear_due: bool,
}

/// An account named for a sync.
#[derive(Debug, Clone, PartialEq, Eq)]
pub struct SyncAccountParams {
    /// UUID of the account to sync.
    pub account_id: String,
}

// --- boards -----------------------------------------------------------------

/// A manually placed card.
#[derive(Debug, Clone, PartialEq, Eq)]
pub struct CardDto {
    pub id: String,
    pub item_key: String,
    pub position: i64,
}

pub open spec fn spec_card_dto(c: BoardCard) -> CardDto {
    CardDto { id: c.id, item_key: c.item_key, position: c.position }
}

impl From<BoardCard> for CardDto {
    fn from(c: BoardCard) -> (d: CardDto) {
        CardDto { id: c.id, item_key: c.item_key, position: c.position }
    }
}

impl vstd::std_specs::convert::FromSpecImpl<BoardCard> for CardDto {
    open spec fn obeys_from_spec() -> bool {
        true
    }

    open spec fn from_spec(c: BoardCard) -> CardDto {
        spec_card_dto(c)
    }
}

/// A column with its ordered manual cards.
#[derive(Debug, Clone, PartialEq, Eq)]
pub struct ColumnDto {
    pub id: String,
    pub name: String,
    pub position: i64,
    /// Opaque smart-filter JSON; interpreted by the frontend.
    pub filter: String,
    pub created_at: String,
    pub cards: Vec<CardDto>,
}

impl ColumnDto {
    /// A column view from a column plus its manual cards (already filtered and ordered).
    pub fn from_parts(column: BoardColumn, cards: Vec<CardDto>) -> (d: ColumnDto)
        ensures
            d.id == column.id,
            d.name == column.name,
            d.position == column.position,
            d.filter == column.filter,
            d.created_at == column.created_at,
            d.cards == cards,
    {
        ColumnDto {
            id: column.id,
            name: column.name,
            position: column.position,
            filter: column.filter,
            created_at: column.created_at,
            cards,
        }
    }
}

/// A board with its ordered columns (each carrying its ordered manual cards).
#[derive(Debug, Clone, PartialEq, Eq)]
pub struct BoardDto {
    pub id: String,
    pub name: String,
    pub position: i64,
    pub created_at: String,
    pub updated_at: String,
    pub columns: Vec<ColumnDto>,
}

impl BoardDto {
    /// A board view from a board plus its assembled columns (ordered).
    pub fn from_parts(board: Board, columns: Vec<ColumnDto>) -> (d: BoardDto)
        ensures
            d.id == board.id,
            d.name == board.name,
            d.position == board.position,
            d.created_at == board.created_at,
            d.updated_at == board.updated_at,
            d.columns == columns,
    {
        BoardDto {
            id: board.id,
            name: board.name,
            position: board.position,
            created_at: board.created_at,
            updated_at: board.updated_at,
            columns,
        }
    }
}

#[derive(Debug, Clone, PartialEq, Eq)]
pub struct CreateBoardParams {
    pub name: String,
}

#[derive(Debug, Clone, PartialEq, Eq)]
pub struct RenameBoardParams {
    pub id: String,
    pub name: String,
}

#[derive(Debug, Clone, PartialEq, Eq)]
pub struct BoardIdParam {
    pub id: String,
}

#[derive(Debug, Clone, PartialEq, Eq)]
pub struct ReorderBoardsParams {
    /// Board ids in the desired order.
    pub ordered_ids: Vec<String>,
}

#[derive(Debug, Clone, PartialEq, Eq)]
pub struct CreateColumnParams {
    pub board_id: String,
    pub name: String,
    /// Opaque smart-filter JSON. Defaults to `{}` (manual-only) when omitted.
    pub filter: Option<String>,
}

#[derive(Debug, Clone, PartialEq, Eq)]
pub struct UpdateColumnParams {
    pub id: String,
    pub name: String,
    pub filter: Option<String>,
}

#[derive(Debug, Clone, PartialEq, Eq)]
pub struct ColumnIdParam {
    pub id: String,
}

#[derive(Debug, Clone, PartialEq, Eq)]
pub struct ReorderColumnsParams {
    pub board_id: String,
    /// Column ids in the desired order.
    pub ordered_ids: Vec<String>,
}

#[derive(Debug, Clone, PartialEq, Eq)]
pub struct PlaceCardParams {
    pub board_id: String,
    pub column_id: String,
    pub item_key: String,
}

#[derive(Debug, Clone, PartialEq, Eq)]
pub struct RemoveCardParams {
    pub board_id: String,
    pub item_key: String,
}

// --- notifications ----------------------------------------------------------

/// A GitHub notification thread (Inbox view).
#[derive(Debug, Clone, PartialEq, Eq)]
pub struct NotificationDto {
    pub id: String,
    pub repo_name_with_owner: String,
    pub subject_title: String,
    pub subject_type: String,
    pub subject_url: Option<String>,
    pub reason: String,
    pub unread: bool,
    pub updated_at: String,
}

impl From<RemoteNotification> for NotificationDto {
    fn from(n: RemoteNotification) -> (d: NotificationDto) {
        NotificationDto {
            id: n.id,
            repo_name_with_owner: n.repo_name_with_owner,
            subject_title: n.subject_title,
            subject_type: n.subject_type,
            subject_url: n.subject_url,
            reason: n.reason,
            unread: n.unread,
            updated_at: n.updated_at,
        }
    }
}

impl vstd::std_specs::convert::FromSpecImpl<RemoteNotification> for NotificationDto {
    open spec fn obeys_from_spec() -> bool {
        true
    }

    open spec fn from_spec(n: RemoteNotification) -> NotificationDto {
        NotificationDto {
            id: n.id,
            repo_name_with_owner: n.repo_name_with_owner,
            subject_title: n.subject_title,
            subject_type: n.subject_type,
            subject_url: n.subject_url,
            reason: n.reason,
            unread: n.unread,
            updated_at: n.updated_at,
        }
    }
}

#[derive(Debug, Clone, PartialEq, Eq)]
pub struct MarkNotificationReadParams {
    /// UUID of the account the notification belongs to.
    pub id: String,
    /// GitHub notification thread id.
    pub thread_id: String,
}

// --- workflow runs ----------------------------------------------------------

/// A GitHub Actions workflow run (CI Health view).
#[derive(Debug, Clone, PartialEq, Eq)]
pub struct WorkflowRunDto {
    pub id: u64,
    pub name: Option<String>,
    pub head_branch: Option<String>,
    pub status: String,
    pub conclusion: Option<String>,
    pub html_url: String,
    pub created_at: String,
    pub updated_at: String,
    pub event: Option<String>,
}

impl From<RemoteWorkflowRun> for WorkflowRunDto {
    fn from(r: RemoteWorkflowRun) -> (d: WorkflowRunDto) {
        WorkflowRunDto {
            id: r.id,
            name: r.name,
            head_branch: r.head_branch,
            status: r.status,
            conclusion: r.conclusion,
            html_url: r.html_url,
            created_at: r.created_at,
            updated_at: r.updated_at,
            event: r.event,
        }
    }
}

impl vstd::std_specs::convert::FromSpecImpl<RemoteWorkflowRun> for WorkflowRunDto {
    open spec fn obeys_from_spec() -> bool {
        true
    }

    open spec fn from_spec(r: RemoteWorkflowRun) -> WorkflowRunDto {
        WorkflowRunDto {
            id: r.id,
            name: r.name,
            head_branch: r.head_branch,
            status: r.status,
            conclusion: r.conclusion,
            html_url: r.html_url,
            created_at: r.created_at,
            updated_at: r.updated_at,
            event: r.event,
        }
    }
}

#[derive(Debug, Clone, PartialEq, Eq)]
pub struct ListWorkflowRunsParams {
    /// UUID of the account.
    pub id: String,
    pub owner: String,
    pub repo: String,
    /// Number of runs to fetch (capped at 20 by the provider).
    pub per_page: Option<u32>,
}

// --- repository details -----------------------------------------------------

/// Full detail for a single repository (Repository Details view).
#[derive(Debug, Clone, PartialEq, Eq)]
pub struct RepoDetailDto {
    pub full_name: String,
    pub description: Option<String>,
    pub html_url: String,
    pub homepage: Option<String>,
    pub language: Option<String>,
    pub stars: u64,
    pub forks: u64,
    pub open_issues: u64,
    pub watchers: u64,
    pub default_branch: String,
    pub license: Option<String>,
    pub topics: Vec<String>,
    pub owner_login: String,
    pub owner_avatar_url: Option<String>,
    pub is_private: bool,
    pub is_fork: bool,
    pub is_archived: bool,
    pub size: u64,
    pub pushed_at: Option<String>,
    pub created_at: Option<String>,
    pub updated_at: Option<String>,
}

impl From<RemoteRepoDetail> for RepoDetailDto {
    fn from(r: RemoteRepoDetail) -> (d: RepoDetailDto) {
        RepoDetailDto {
            full_name: r.full_name,
            description: r.description,
            html_url: r.html_url,
            homepage: r.homepage,
            language: r.language,
            stars: r.stars,
            forks: r.forks,
            open_issues: r.open_issues,
            watchers: r.watchers,
            default_branch: r.default_branch,
            license: r.license,
            topics: r.topics,
            owner_login: r.owner_login,
            owner_avatar_url: r.owner_avatar_url,
            is_private: r.is_private,
            is_fork: r.is_fork,
            is_archived: r.is_archived,
            size: r.size,
            pushed_at: r.pushed_at,
            created_at: r.created_at,
            updated_at: r.updated_at,
        }
    }
}

pub open spec fn spec_repo_detail_dto(r: RemoteRepoDetail) -> RepoDetailDto {
    RepoDetailDto {
        full_name: r.full_name,
        description: r.description,
        html_url: r.html_url,
        homepage: r.homepage,
        language: r.language,
        stars: r.stars,
        forks: r.forks,
        open_issues: r.open_issues,
        watchers: r.watchers,
        default_branch: r.default_branch,
        license: r.license,
        topics: r.topics,
        owner_login: r.owner_login,
        owner_avatar_url: r.owner_avatar_url,
        is_private: r.is_private,
        is_fork: r.is_fork,
        is_archived: r.is_archived,
        size: r.size,
        pushed_at: r.pushed_at,
        created_at: r.created_at,
        updated_at: r.updated_at,
    }
}

impl vstd::std_specs::convert::FromSpecImpl<RemoteRepoDetail> for RepoDetailDto {
    open spec fn obeys_from_spec() -> bool {
        true
    }

    open spec fn from_spec(r: RemoteRepoDetail) -> RepoDetailDto {
        spec_repo_detail_dto(r)
    }
}

/// A GitHub release (Repository Details view).
#[derive(Debug, Clone, PartialEq, Eq)]
pub struct ReleaseDto {
    pub id: u64,
    pub tag_name: String,
    pub name: Option<String>,
    pub html_url: String,
    pub body: Option<String>,
    pub draft: bool,
    pub prerelease: bool,
    pub published_at: Option<String>,
    pub author_login: Option<String>,
}

impl From<RemoteRelease> for ReleaseDto {
    fn from(r: RemoteRelease) -> (d: ReleaseDto) {
        ReleaseDto {
            id: r.id,
            tag_name: r.tag_name,
            name: r.name,
            html_url: r.html_url,
            body: r.body,
            draft: r.draft,
            prerelease: r.prerelease,
            published_at: r.published_at,
            author_login: r.author_login,
        }
    }
}

impl vstd::std_specs::convert::FromSpecImpl<RemoteRelease> for ReleaseDto {
    open spec fn obeys_from_spec() -> bool {
        true
    }

    open spec fn from_spec(r: RemoteRelease) -> ReleaseDto {
        ReleaseDto {
            id: r.id,
            tag_name: r.tag_name,
            name: r.name,
            html_url: r.html_url,
            body: r.body,
            draft: r.draft,
            prerelease: r.prerelease,
            published_at: r.published_at,
            author_login: r.author_login,
        }
    }
}

/// A fork of a repository (Repository Details view).
#[derive(Debug, Clone, PartialEq, Eq)]
pub struct ForkDto {
    pub full_name: String,
    pub html_url: String,
    pub stars: u64,
    pub pushed_at: Option<String>,
    pub owner_login: String,
}

impl From<RemoteFork> for ForkDto {
    fn from(f: RemoteFork) -> (d: ForkDto) {
        ForkDto {
            full_name: f.full_name,
            html_url: f.html_url,
            stars: f.stars,
            pushed_at: f.pushed_at,
            owner_login: f.owner_login,
        }
    }
}

impl vstd::std_specs::convert::FromSpecImpl<RemoteFork> for ForkDto {
    open spec fn obeys_from_spec() -> bool {
        true
    }

    open spec fn from_spec(f: RemoteFork) -> ForkDto {
        ForkDto {
            full_name: f.full_name,
            html_url: f.html_url,
            stars: f.stars,
            pushed_at: f.pushed_at,
            owner_login: f.owner_login,
        }
    }
}

/// A contributor to a repository (Repository Details view).
#[derive(Debug, Clone, PartialEq, Eq)]
pub struct ContributorDto {
    pub login: String,
    pub avatar_url: Option<String>,
    pub html_url: String,
    pub contributions: u64,
}

impl From<RemoteContributor> for ContributorDto {
    fn from(c: RemoteContributor) -> (d: ContributorDto) {
        ContributorDto {
            login: c.login,
            avatar_url: c.avatar_url,
            html_url: c.html_url,
            contributions: c.contributions,
        }
    }
}

impl vstd::std_specs::convert::FromSpecImpl<RemoteContributor> for ContributorDto {
    open spec fn obeys_from_spec() -> bool {
        true
    }

    open spec fn from_spec(c: RemoteContributor) -> ContributorDto {
        ContributorDto {
            login: c.login,
            avatar_url: c.avatar_url,
            html_url: c.html_url,
            contributions: c.contributions,
        }
    }
}

/// A language used in a repository (Repository Details view).
#[derive(Debug, Clone, PartialEq, Eq)]
pub struct LanguageDto {
    pub name: String,
    pub bytes: u64,
}

impl From<RemoteLanguage> for LanguageDto {
    fn from(l: RemoteLanguage) -> (d: LanguageDto) {
        LanguageDto { name: l.name, bytes: l.bytes }
    }
}

impl vstd::std_specs::convert::FromSpecImpl<RemoteLanguage> for LanguageDto {
    open spec fn obeys_from_spec() -> bool {
        true
    }

    open spec fn from_spec(l: RemoteLanguage) -> LanguageDto {
        LanguageDto { name: l.name, bytes: l.bytes }
    }
}

// --- traffic ----------------------------------------------------------------

/// A single day of repository traffic (views or clones).
#[derive(Debug, Clone, PartialEq, Eq)]
pub struct TrafficDayDto {
    pub timestamp: String,
    pub count: u64,
    pub uniques: u64,
}

pub open spec fn spec_traffic_day_dto(d: RemoteTrafficDay) -> TrafficDayDto {
    TrafficDayDto { timestamp: d.timestamp, count: d.count, uniques: d.uniques }
}

impl From<RemoteTrafficDay> for TrafficDayDto {
    fn from(d: RemoteTrafficDay) -> (r: TrafficDayDto) {
        TrafficDayDto { timestamp: d.timestamp, count: d.count, uniques: d.uniques }
    }
}

impl vstd::std_specs::convert::FromSpecImpl<RemoteTrafficDay> for TrafficDayDto {
    open spec fn obeys_from_spec() -> bool {
        true
    }

    open spec fn from_spec(d: RemoteTrafficDay) -> TrafficDayDto {
        spec_traffic_day_dto(d)
    }
}

/// Repository traffic totals plus a per-day breakdown (Traffic view); used
/// for both views and clones.
#[derive(Debug, Clone, PartialEq, Eq)]
pub struct TrafficDto {
    pub count: u64,
    pub uniques: u64,
    pub days: Vec<TrafficDayDto>,
}

impl TrafficDto {
    /// The view of `t`, day by day in the same order.
    pub fn from_remote(t: RemoteTraffic) -> (r: TrafficDto)
        ensures
            r.count == t.count,
            r.uniques == t.uniques,
            r.days@.len() == t.days@.len(),
            forall|i: int| 0 <= i < t.days@.len() ==> r.days@[i] == spec_traffic_day_dto(#[trigger] t.days@[i]),
    {
        let all = Ghost(t.days@);
        let mut rest = t.days;
        let mut days: Vec<TrafficDayDto> = Vec::new();
        while rest.len() > 0
            invariant
                rest@.len() <= all@.len(),
                rest@ == all@.skip(all@.len() - rest@.len()),
                days@.len() == all@.len() - rest@.len(),
                forall|i: int| 0 <= i < days@.len() ==> days@[i] == spec_traffic_day_dto(#[trigger] all@[i]),
            decreases rest@.len(),
        {
            let ghost done = all@.len() - rest@.len();
            let d = rest.remove(0);
            proof {
                assert(all@[done] == d);
                assert(rest@ =~= all@.skip(all@.len() - rest@.len()));
            }
            days.push(TrafficDayDto::from(d));
        }
        TrafficDto { count: t.count, uniques: t.uniques, days }
    }
}

/// A popular referrer for a repository (Traffic view).
#[derive(Debug, Clone, PartialEq, Eq)]
pub struct ReferrerDto {
    pub referrer: String,
    pub count: u64,
    pub uniques: u64,
}

impl From<RemoteReferrer> for ReferrerDto {
    fn from(r: RemoteReferrer) -> (d: ReferrerDto) {
        ReferrerDto { referrer: r.referrer, count: r.count, uniques: r.uniques }
    }
}

impl vstd::std_specs::convert::FromSpecImpl<RemoteReferrer> for ReferrerDto {
    open spec fn obeys_from_spec() -> bool {
        true
    }

    open spec fn from_spec(r: RemoteReferrer) -> ReferrerDto {
        ReferrerDto { referrer: r.referrer, count: r.count, uniques: r.uniques }
    }
}

/// A popular content path for a repository (Traffic view).
#[derive(Debug, Clone, PartialEq, Eq)]
pub struct PathDto {
    pub path: String,
    pub title: String,
    pub count: u64,
    pub uniques: u64,
}

impl From<RemotePath> for PathDto {
    fn from(p: RemotePath) -> (d: PathDto) {
        PathDto { path: p.path, title: p.title, count: p.count, uniques: p.uniques }
    }
}

impl vstd::std_specs::convert::FromSpecImpl<RemotePath> for PathDto {
    open spec fn obeys_from_spec() -> bool {
        true
    }

    open spec fn from_spec(p: RemotePath) -> PathDto {
        PathDto { path: p.path, title: p.title, count: p.count, uniques: p.uniques }
    }
}

// --- search -----------------------------------------------------------------

/// A code-search hit.
#[derive(Debug, Clone, PartialEq, Eq)]
pub struct CodeHitDto {
    pub repo_name_with_owner: String,
    pub path: String,
    pub html_url: String,
    pub name: String,
}

impl From<RemoteCodeHit> for CodeHitDto {
    fn from(h: RemoteCodeHit) -> (d: CodeHitDto) {
        CodeHitDto {
            repo_name_with_owner: h.repo_name_with_owner,
            path: h.path,
            html_url: h.html_url,
            name: h.name,
        }
    }
}

impl vstd::std_specs::convert::FromSpecImpl<RemoteCodeHit> for CodeHitDto {
    open spec fn obeys_from_spec() -> bool {
        true
    }

    open spec fn from_spec(h: RemoteCodeHit) -> CodeHitDto {
        CodeHitDto {
            repo_name_with_owner: h.repo_name_with_owner,
            path: h.path,
            html_url: h.html_url,
            name: h.name,
        }
    }
}

#[derive(Debug, Clone, PartialEq, Eq)]
pub struct SearchParams {
    pub id: String,
    pub query: String,
    pub per_page: Option<u32>,
}

#[derive(Debug, Clone, PartialEq, Eq)]
pub struct RepoRefParams {
    pub id: String,
    pub owner: String,
    pub repo: String,
    pub per_page: Option<u32>,
}

// --- issue and pull request detail ------------------------------------------

#[derive(Debug, Clone, PartialEq, Eq)]
pub struct UserDto {
    pub login: String,
    pub avatar_url: Option<String>,
}

pub open spec fn spec_user_dto(u: RemoteUser) -> UserDto {
    UserDto { login: u.login, avatar_url: u.avatar_url }
}

impl From<RemoteUser> for UserDto {
    fn from(u: RemoteUser) -> (d: UserDto) {
        UserDto { login: u.login, avatar_url: u.avatar_url }
    }
}

impl vstd::std_specs::convert::FromSpecImpl<RemoteUser> for UserDto {
    open spec fn obeys_from_spec() -> bool {
        true
    }

    open spec fn from_spec(u: RemoteUser) -> UserDto {
        spec_user_dto(u)
    }
}

#[derive(Debug, Clone, PartialEq, Eq)]
pub struct CommentDto {
    pub id: u64,
    pub author_login: String,
    pub author_avatar_url: Option<String>,
    pub body: String,
    pub created_at: String,
    pub updated_at: String,
    pub html_url: String,
}

impl From<RemoteComment> for CommentDto {
    fn from(c: RemoteComment) -> (d: CommentDto) {
        CommentDto {
            id: c.id,
            author_login: c.author_login,
            author_avatar_url: c.author_avatar_url,
            body: c.body,
            created_at: c.created_at,
            updated_at: c.updated_at,
            html_url: c.html_url,
        }
    }
}

impl vstd::std_specs::convert::FromSpecImpl<RemoteComment> for CommentDto {
    open spec fn obeys_from_spec() -> bool {
        true
    }

    open spec fn from_spec(c: RemoteComment) -> CommentDto {
        CommentDto {
            id: c.id,
            author_login: c.author_login,
            author_avatar_url: c.author_avatar_url,
            body: c.body,
            created_at: c.created_at,
            updated_at: c.updated_at,
            html_url: c.html_url,
        }
    }
}

#[derive(Debug, Clone, PartialEq, Eq)]
pub struct ReviewDto {
    pub id: u64,
    pub reviewer_login: String,
    pub reviewer_avatar_url: Option<String>,
    pub state: String,
    pub body: Option<String>,
    pub submitted_at: Option<String>,
    pub html_url: String,
}

impl From<RemoteReview> for ReviewDto {
    fn from(r: RemoteReview) -> (d: ReviewDto) {
        ReviewDto {
            id: r.id,
            reviewer_login: r.reviewer_login,
            reviewer_avatar_url: r.reviewer_avatar_url,
            state: r.state,
            body: r.body,
            submitted_at: r.submitted_at,
            html_url: r.html_url,
        }
    }
}

impl vstd::std_specs::convert::FromSpecImpl<RemoteReview> for ReviewDto {
    open spec fn obeys_from_spec() -> bool {
        true
    }

    open spec fn from_spec(r: RemoteReview) -> ReviewDto {
        ReviewDto {
            id: r.id,
            reviewer_login: r.reviewer_login,
            reviewer_avatar_url: r.reviewer_avatar_url,
            state: r.state,
            body: r.body,
            submitted_at: r.submitted_at,
            html_url: r.html_url,
        }
    }
}

#[derive(Debug, Clone, PartialEq, Eq)]
pub struct LabelDto {
    pub name: String,
    pub color: String,
}

pub open spec fn spec_label_dto(l: RemoteLabel) -> LabelDto {
    LabelDto { name: l.name, color: l.color }
}

impl From<RemoteLabel> for LabelDto {
    fn from(l: RemoteLabel) -> (d: LabelDto) {
        LabelDto { name: l.name, color: l.color }
    }
}

impl vstd::std_specs::convert::FromSpecImpl<RemoteLabel> for LabelDto {
    open spec fn obeys_from_spec() -> bool {
        true
    }

    open spec fn from_spec(l: RemoteLabel) -> LabelDto {
        spec_label_dto(l)
    }
}

/// Each label's view, in order.
fn label_dtos(labels: Vec<RemoteLabel>) -> (r: Vec<LabelDto>)
    ensures
        r@.len() == labels@.len(),
        forall|i: int| 0 <= i < labels@.len() ==> r@[i] == spec_label_dto(#[trigger] labels@[i]),
{
    let all = Ghost(labels@);
    let mut rest = labels;
    let mut out: Vec<LabelDto> = Vec::new();
    while rest.len() > 0
        invariant
            rest@.len() <= all@.len(),
            rest@ == all@.skip(all@.len() - rest@.len()),
            out@.len() == all@.len() - rest@.len(),
            forall|i: int| 0 <= i < out@.len() ==> out@[i] == spec_label_dto(#[trigger] all@[i]),
        decreases rest@.len(),
    {
        let ghost done = all@.len() - rest@.len();
        let l = rest.remove(0);
        proof {
            assert(all@[done] == l);
            assert(rest@ =~= all@.skip(all@.len() - rest@.len()));
        }
        out.push(LabelDto::from(l));
    }
    out
}

/// Each user's view, in order.
fn user_dtos(users: Vec<RemoteUser>) -> (r: Vec<UserDto>)
    ensures
        r@.len() == users@.len(),
        forall|i: int| 0 <= i < users@.len() ==> r@[i] == spec_user_dto(#[trigger] users@[i]),
{
    let all = Ghost(users@);
    let mut rest = users;
    let mut out: Vec<UserDto> = Vec::new();
    while rest.len() > 0
        invariant
            rest@.len() <= all@.len(),
            rest@ == all@.skip(all@.len() - rest@.len()),
            out@.len() == all@.len() - rest@.len(),
            forall|i: int| 0 <= i < out@.len() ==> out@[i] == spec_user_dto(#[trigger] all@[i]),
        decreases rest@.len(),
    {
        let ghost done = all@.len() - rest@.len();
        let u = rest.remove(0);
        proof {
            assert(all@[done] == u);
            assert(rest@ =~= all@.skip(all@.len() - rest@.len()));
        }
        out.push(UserDto::from(u));
    }
    out
}

/// Full detail for a single issue.
#[derive(Debug, Clone, PartialEq, Eq)]
pub struct IssueDetailDto {
    pub number: u64,
    pub title: String,
    pub body: Option<String>,
    pub html_url: String,
    pub state: String,
    pub author_login: String,
    pub author_avatar_url: Option<String>,
    pub repo_name_with_owner: String,
    pub created_at: String,
    pub updated_at: String,
    pub closed_at: Option<String>,
    pub comments_count: u64,
    pub labels: Vec<LabelDto>,
    pub assignees: Vec<UserDto>,
    pub milestone_title: Option<String>,
}

impl IssueDetailDto {
    /// The view of `i`, labels and assignees each mapped in order.
    pub fn from_remote(i: RemoteIssueDetail) -> (d: IssueDetailDto)
        ensures
            d.number == i.number,
            d.title == i.title,
            d.body == i.body,
            d.html_url == i.html_url,
            d.state == i.state,
            d.author_login == i.author_login,
            d.author_avatar_url == i.author_avatar_url,
            d.repo_name_with_owner == i.repo_name_with_owner,
            d.created_at == i.created_at,
            d.updated_at == i.updated_at,
            d.closed_at == i.closed_at,
            d.comments_count == i.comments_count,
            d.labels@.len() == i.labels@.len(),
            forall|k: int| 0 <= k < i.labels@.len() ==> d.labels@[k] == spec_label_dto(#[trigger] i.labels@[k]),
            d.assignees@.len() == i.assignees@.len(),
            forall|k: int| 0 <= k < i.assignees@.len() ==> d.assignees@[k] == spec_user_dto(#[trigger] i.assignees@[k]),
            d.milestone_title == i.milestone_title,
    {
        IssueDetailDto {
            number: i.number,
            title: i.title,
            body: i.body,
            html_url: i.html_url,
            state: i.state,
            author_login: i.author_login,
            author_avatar_url: i.author_avatar_url,
            repo_name_with_owner: i.repo_name_with_owner,
            created_at: i.created_at,
            updated_at: i.updated_at,
            closed_at: i.closed_at,
            comments_count: i.comments_count,
            labels: label_dtos(i.labels),
            assignees: user_dtos(i.assignees),
            milestone_title: i.milestone_title,
        }
    }
}

/// Full detail for a single pull request.
#[derive(Debug, Clone, PartialEq, Eq)]
pub struct PullRequestDetailDto {
    pub number: u64,
    pub title: String,
    pub body: Option<String>,
    pub html_url: String,
    pub state: String,
    pub author_login: String,
    pub author_avatar_url: Option<String>,
    pub repo_name_with_owner: String,
    pub created_at: String,
    pub updated_at: String,
    pub closed_at: Option<String>,
    pub comments_count: u64,
    pub labels: Vec<LabelDto>,
    pub assignees: Vec<UserDto>,
    pub milestone_title: Option<String>,
    pub is_draft: bool,
    pub merged: bool,
    pub mergeable_state: Option<String>,
    pub base_ref: String,
    pub head_ref: String,
    pub additions: Option<u64>,
    pub deletions: Option<u64>,
    pub changed_files: Option<u64>,
    pub commits: Option<u64>,
    pub requested_reviewers: Vec<UserDto>,
    pub requested_teams: Vec<String>,
}

impl PullRequestDetailDto {
    /// The view of `p`; its labels, assignees and the people asked to look at it are each mapped in order.
    pub fn from_remote(p: RemotePullRequestDetail) -> (d: PullRequestDetailDto)
        ensures
            d.number == p.number,
            d.title == p.title,
            d.body == p.body,
            d.html_url == p.html_url,
            d.state == p.state,
            d.author_login == p.author_login,
            d.author_avatar_url == p.author_avatar_url,
            d.repo_name_with_owner == p.repo_name_with_owner,
            d.created_at == p.created_at,
            d.updated_at == p.updated_at,
            d.closed_at == p.closed_at,
            d.comments_count == p.comments_count,
            d.labels@.len() == p.labels@.len(),
            forall|k: int| 0 <= k < p.labels@.len() ==> d.labels@[k] == spec_label_dto(#[trigger] p.labels@[k]),
            d.assignees@.len() == p.assignees@.len(),
            forall|k: int| 0 <= k < p.assignees@.len() ==> d.assignees@[k] == spec_user_dto(#[trigger] p.assignees@[k]),
            d.milestone_title == p.milestone_title,
            d.is_draft == p.is_draft,
            d.merged == p.merged,
            d.mergeable_state == p.mergeable_state,
            d.base_ref == p.base_ref,
            d.head_ref == p.head_ref,
            d.additions == p.additions,
            d.deletions == p.deletions,
            d.changed_files == p.changed_files,
            d.commits == p.commits,
            d.requested_reviewers@.len() == p.requested_reviewers@.len(),
            forall|k: int| 0 <= k < p.requested_reviewers@.len() ==> d.requested_reviewers@[k] == spec_user_dto(#[trigger] p.requested_reviewers@[k]),
            d.requested_teams == p.requested_teams,
    {
        PullRequestDetailDto {
            number: p.number,
            title: p.title,
            body: p.body,
            html_url: p.html_url,
            state: p.state,
            author_login: p.author_login,
            author_avatar_url: p.author_avatar_url,
            repo_name_with_owner: p.repo_name_with_owner,
            created_at: p.created_at,
            updated_at: p.updated_at,
            closed_at: p.closed_at,
            comments_count: p.comments_count,
            labels: label_dtos(p.labels),
            assignees: user_dtos(p.assignees),
            milestone_title: p.milestone_title,
            is_draft: p.is_draft,
            merged: p.merged,
            mergeable_state: p.mergeable_state,
            base_ref: p.base_ref,
            head_ref: p.head_ref,
            additions: p.additions,
            deletions: p.deletions,
            changed_files: p.changed_files,
            commits: p.commits,
            requested_reviewers: user_dtos(p.requested_reviewers),
            requested_teams: p.requested_teams,
        }
    }
}

#[derive(Debug, Clone, PartialEq, Eq)]
pub struct IssueRefParams {
    pub id: String,
    pub owner: String,
    pub repo: String,
    pub number: u64,
    pub per_page: Option<u32>,
}

// --- triage write actions ---------------------------------------------------

#[derive(Debug, Clone, PartialEq, Eq)]
pub struct SetIssueStateParams {
    pub id: String,
    pub owner: String,
    pub repo: String,
    pub number: u64,
    pub state: String,
}

#[derive(Debug, Clone, PartialEq, Eq)]
pub struct IssueLabelsParams {
    pub id: String,
    pub owner: String,
    pub repo: String,
    pub number: u64,
    pub labels: Vec<String>,
}

#[derive(Debug, Clone, PartialEq, Eq)]
pub struct RemoveLabelParams {
    pub id: String,
    pub owner: String,
    pub repo: String,
    pub number: u64,
    pub label: String,
}

#[derive(Debug, Clone, PartialEq, Eq)]
pub struct IssueAssigneesParams {
    pub id: String,
    pub owner: String,
    pub repo: String,
    pub number: u64,
    pub assignees: Vec<String>,
}

#[derive(Debug, Clone, PartialEq, Eq)]
pub struct IssueCommentParams {
    pub id: String,
    pub owner: String,
    pub repo: String,
    pub number: u64,
    pub body: String,
}

// --- daily repo snapshots ---------------------------------------------------

#[derive(Debug, Clone, PartialEq, Eq)]
pub struct SnapshotDto {
    pub id: String,
    pub account_id: String,
    pub repo_full_name: String,
    pub day: String,
    pub stars: i64,
    pub forks: i64,
    pub open_issues: i64,
    pub captured_at: String,
}

impl From<RepoSnapshot> for SnapshotDto {
    fn from(s: RepoSnapshot) -> (d: SnapshotDto) {
        SnapshotDto {
            id: s.id,
            account_id: s.account_id,
            repo_full_name: s.repo_full_name,
            day: s.day,
            stars: s.stars,
            forks: s.forks,
            open_issues: s.open_issues,
            captured_at: s.captured_at,
        }
    }
}

impl vstd::std_specs::convert::FromSpecImpl<RepoSnapshot> for SnapshotDto {
    open spec fn obeys_from_spec() -> bool {
        true
    }

    open spec fn from_spec(s: RepoSnapshot) -> SnapshotDto {
        SnapshotDto {
            id: s.id,
            account_id: s.account_id,
            repo_full_name: s.repo_full_name,
            day: s.day,
            stars: s.stars,
            forks: s.forks,
            open_issues: s.open_issues,
            captured_at: s.captured_at,
        }
    }
}

#[derive(Debug, Clone, PartialEq, Eq)]
pub struct ListSnapshotsParams {
    pub id: String,
    pub since_day: Option<String>,
}

} // verus!
