//! GitHub's JSON payloads, decoded, and their mapping onto the
//! provider-neutral types.

use vstd::prelude::*;

use crate::domain::TaskStatus;
use crate::github::{repo_name_with_owner, spec_repo_name_with_owner};
use crate::provider::{
    ProviderError, RemoteCodeHit, RemoteComment, RemoteContributor, RemoteFork, RemoteIssue,
    RemoteIssueDetail, RemoteLabel, RemoteLanguage, RemoteNotification, RemotePath,
    RemotePullRequest, RemotePullRequestDetail, RemoteReferrer, RemoteRelease, RemoteRepo,
    RemoteRepoDetail, RemoteReview, RemoteTask, RemoteTraffic, RemoteTrafficDay, RemoteUser,
    RemoteWorkflowRun,
};
use crate::text::{decimal, owned, push_str, seq_lt, spec_decimal, str_eq, str_lt, lemma_seq_lt_total, lemma_seq_lt_transitive, lemma_seq_lt_irreflexive};
use crate::timefmt::{check_rfc3339, rfc3339_problem};

verus! {

/// `prefix + message` as a provider error.
fn provider_error(prefix: &str, message: &str) -> (e: ProviderError)
    ensures
        e.0@ == prefix@ + message@,
{
    let mut m = owned(prefix);
    push_str(&mut m, message);
    ProviderError(m)
}

/// The error a timestamp field yields: `None` when it is valid RFC3339, else
/// `bad {field}: {parser message}`.
pub open spec fn spec_time_error(field: Seq<char>, text: Seq<char>) -> Option<Seq<char>> {
    match rfc3339_problem(text) {
        None => None,
        Some(m) => Some("bad "@ + field + ": "@ + m),
    }
}

/// Check a timestamp field, naming it in the error.
fn check_time(field: &str, text: &str) -> (r: Result<(), ProviderError>)
    ensures
        match spec_time_error(field@, text@) {
            None => r is Ok,
            Some(m) => (r matches Err(e) && e.0@ == m),
        },
{
    match check_rfc3339(text) {
        Ok(()) => Ok(()),
        Err(m) => {
            let mut p = owned("bad ");
            push_str(&mut p, field);
            push_str(&mut p, ": ");
            Err(provider_error(p.as_str(), m.as_str()))
        },
    }
}

/// A repository from `/user/repos`.
#[derive(Debug, Clone, PartialEq, Eq)]
pub struct GhRepo {
    pub id: u64,
    pub full_name: String,
    pub description: Option<String>,
    pub html_url: String,
    pub stargazers_count: u64,
    pub open_issues_count: u64,
    pub language: Option<String>,
    pub private: bool,
    pub fork: bool,
    pub updated_at: String,
}

impl GhRepo {
    pub fn into_remote(self) -> (r: Result<RemoteRepo, ProviderError>)
        ensures
            match spec_time_error("updated_at"@, self.updated_at@) {
                Some(m) => (r matches Err(e) && e.0@ == m),
                None => (r matches Ok(x) && x.id@ == spec_decimal(self.id as nat) && x.full_name
                    == self.full_name && x.description == self.description && x.html_url == self.html_url
                    && x.stars == self.stargazers_count && x.open_issues == self.open_issues_count
                    && x.language == self.language && x.is_private == self.private && x.is_fork == self.fork
                    && x.updated_at == self.updated_at),
            },
    {
        check_time("updated_at", self.updated_at.as_str())?;
        Ok(
            RemoteRepo {
                id: decimal(self.id),
                full_name: self.full_name,
                description: self.description,
                html_url: self.html_url,
                stars: self.stargazers_count,
                open_issues: self.open_issues_count,
                language: self.language,
                is_private: self.private,
                is_fork: self.fork,
                updated_at: self.updated_at,
            },
        )
    }
}

/// A label on a task-list issue.
#[derive(Debug, Clone, PartialEq, Eq)]
pub struct GhLabel {
    pub name: String,
}

/// An issue from the repo's issue list (pull requests included, flagged).
#[derive(Debug, Clone, PartialEq, Eq)]
pub struct GhIssue {
    pub number: u64,
    pub title: String,
    pub body: Option<String>,
    /// "open" | "closed"
    pub state: String,
    pub html_url: String,
    pub updated_at: String,
    pub labels: Vec<GhLabel>,
    /// The payload carried a `pull_request` object: it is a PR, not an issue.
    pub pull_request: bool,
}

/// The task status a GitHub issue state means: "closed" is done, anything else open.
pub open spec fn spec_status_of_state(state: Seq<char>) -> TaskStatus {
    if state == "closed"@ {
        TaskStatus::Done
    } else {
        TaskStatus::Open
    }
}

/// The issue state a task status is pushed as.
pub open spec fn spec_state_of_status(s: TaskStatus) -> Seq<char> {
    match s {
        TaskStatus::Done => "closed"@,
        TaskStatus::Open => "open"@,
    }
}

pub fn status_of_state(state: &str) -> (r: TaskStatus)
    ensures
        r == spec_status_of_state(state@),
{
    if str_eq(state, "closed") {
        TaskStatus::Done
    } else {
        TaskStatus::Open
    }
}

pub fn state_of_status(s: TaskStatus) -> (r: &'static str)
    ensures
        r@ == spec_state_of_status(s),
{
    match s {
        TaskStatus::Done => "closed",
        TaskStatus::Open => "open",
    }
}

/// Pushing a status and reading the state back gives the same status.
pub proof fn lemma_state_roundtrip(s: TaskStatus)
    ensures
        spec_status_of_state(spec_state_of_status(s)) == s,
{
    reveal_strlit("closed");
    reveal_strlit("open");
    assert("open"@.len() != "closed"@.len());
}

fn label_names(labels: Vec<GhLabel>) -> (r: Vec<String>)
    ensures
        r@.len() == labels@.len(),
        forall|k: int| 0 <= k < r@.len() ==> #[trigger] r@[k] == labels@[k].name,
{
    let ghost all = labels@;
    let mut rest = labels;
    let mut r: Vec<String> = Vec::new();
    while rest.len() > 0
        invariant
            rest@.len() <= all.len(),
            rest@ == all.skip(all.len() - rest@.len()),
            r@.len() == all.len() - rest@.len(),
            forall|k: int| 0 <= k < r@.len() ==> #[trigger] r@[k] == all[k].name,
        decreases rest@.len(),
    {
        let ghost done = all.len() - rest@.len();
        let l = rest.remove(0);
        assert(all[done] == l);
        assert(rest@ =~= all.skip(all.len() - rest@.len()));
        r.push(l.name);
    }
    r
}

/// The task an issue maps to.
pub open spec fn issue_task_ok(i: GhIssue, x: RemoteTask) -> bool {
    &&& x.remote_id@ == spec_decimal(i.number as nat)
    &&& x.title == i.title
    &&& x.body@ == (match i.body {
        Some(b) => b@,
        None => Seq::<char>::empty(),
    })
    &&& x.status == spec_status_of_state(i.state@)
    &&& x.labels@.len() == i.labels@.len()
    &&& (forall|k: int| 0 <= k < x.labels@.len() ==> #[trigger] x.labels@[k] == i.labels@[k].name)
    &&& x.html_url == Some(i.html_url)
    &&& x.remote_updated_at == i.updated_at
}

impl GhIssue {
    pub fn into_remote(self) -> (r: Result<RemoteTask, ProviderError>)
        ensures
            match spec_time_error("updated_at"@, self.updated_at@) {
                Some(m) => (r matches Err(e) && e.0@ == m),
                None => (r matches Ok(x) && issue_task_ok(self, x)),
            },
    {
        check_time("updated_at", self.updated_at.as_str())?;
        let status = status_of_state(self.state.as_str());
        let body = match self.body {
            Some(b) => b,
            None => String::new(),
        };
        Ok(
            RemoteTask {
                remote_id: decimal(self.number),
                title: self.title,
                body,
                status,
                labels: label_names(self.labels),
                html_url: Some(self.html_url),
                remote_updated_at: self.updated_at,
            },
        )
    }
}

/// The issues of a list that are not pull requests, in order.
pub open spec fn non_pr(s: Seq<GhIssue>) -> Seq<GhIssue>
    decreases s.len(),
{
    if s.len() == 0 {
        Seq::empty()
    } else if s.last().pull_request {
        non_pr(s.drop_last())
    } else {
        non_pr(s.drop_last()).push(s.last())
    }
}

/// Map the repo's issue list to tasks, leaving out pull requests. The first
/// issue with a malformed timestamp fails the whole listing.
pub fn tasks_from_issues(issues: Vec<GhIssue>) -> (r: Result<Vec<RemoteTask>, ProviderError>)
    ensures
        match r {
            Ok(ts) => {
                &&& ts@.len() == non_pr(issues@).len()
                &&& forall|k: int| 0 <= k < ts@.len() ==> issue_task_ok(non_pr(issues@)[k], #[trigger] ts@[k])
                &&& forall|k: int| 0 <= k < non_pr(issues@).len() ==> spec_time_error("updated_at"@, (#[trigger] non_pr(issues@)[k]).updated_at@) is None
            },
            Err(e) => exists|k: int|
                0 <= k < non_pr(issues@).len() && spec_time_error("updated_at"@, (#[trigger] non_pr(issues@)[k]).updated_at@)
                    == Some(e.0@) && forall|j: int| 0 <= j < k ==> spec_time_error("updated_at"@, (#[trigger] non_pr(issues@)[j]).updated_at@) is None,
        },
{
    let ghost all = issues@;
    let mut rest = issues;
    let mut out: Vec<RemoteTask> = Vec::new();
    while rest.len() > 0
        invariant
            all == issues@,
            rest@.len() <= all.len(),
            rest@ == all.skip(all.len() - rest@.len()),
            out@.len() == non_pr(all.take(all.len() - rest@.len())).len(),
            forall|k: int| 0 <= k < out@.len() ==> issue_task_ok(non_pr(all.take(all.len() - rest@.len()))[k], #[trigger] out@[k]),
            forall|k: int| 0 <= k < out@.len() ==> spec_time_error("updated_at"@, (#[trigger] non_pr(all.take(all.len() - rest@.len()))[k]).updated_at@) is None,
        decreases rest@.len(),
    {
        let ghost done = all.len() - rest@.len();
        let ghost before = non_pr(all.take(done));
        let issue = rest.remove(0);
        proof {
            assert(all[done] == issue);
            assert(rest@ =~= all.skip(all.len() - rest@.len()));
            let t = all.take(done + 1);
            assert(t.drop_last() =~= all.take(done));
            assert(t.last() == issue);
        }
        if !issue.pull_request {
            let ghost iss = issue;
            match issue.into_remote() {
                Ok(t) => {
                    out.push(t);
                    proof {
                        assert(non_pr(all.take(done + 1)) == before.push(iss));
                    }
                },
                Err(e) => {
                    proof {
                        lemma_non_pr_prefix(all, done + 1);
                        let k = before.len() as int;
                        assert(non_pr(all.take(done + 1))[k] == iss);
                        assert(non_pr(all)[k] == iss);
                        assert(spec_time_error("updated_at"@, non_pr(all)[k].updated_at@) == Some(e.0@));
                        assert forall|j: int| 0 <= j < k implies spec_time_error("updated_at"@, (#[trigger] non_pr(all)[j]).updated_at@) is None by {
                            assert(non_pr(all)[j] == before[j]);
                            assert(non_pr(all.take(done + 1))[j] == before[j]);
                        }
                    }
                    return Err(e);
                },
            }
        }
    }
    assert(all.take(all.len() as int) =~= all);
    Ok(out)
}

proof fn lemma_non_pr_prefix(s: Seq<GhIssue>, n: int)
    requires
        0 <= n <= s.len(),
    ensures
        non_pr(s.take(n)).len() <= non_pr(s).len(),
        forall|k: int| 0 <= k < non_pr(s.take(n)).len() ==> #[trigger] non_pr(s)[k] == non_pr(s.take(n))[k],
    decreases s.len() - n,
{
    if n < s.len() {
        lemma_non_pr_prefix(s, n + 1);
        let t = s.take(n + 1);
        assert(t.drop_last() =~= s.take(n));
    } else {
        assert(s.take(n) =~= s);
    }
}

/// The author of a search hit.
#[derive(Debug, Clone, PartialEq, Eq)]
pub struct GhSearchUser {
    pub login: String,
    pub avatar_url: Option<String>,
}

#[derive(Debug, Clone, PartialEq, Eq)]
pub struct GhSearchLabel {
    pub name: String,
    pub color: String,
}

#[derive(Debug, Clone, PartialEq, Eq)]
pub struct GhSearchAssignee {
    pub login: String,
}

/// One item of the issue/PR search API.
#[derive(Debug, Clone, PartialEq, Eq)]
pub struct GhSearchItem {
    pub number: u64,
    pub title: String,
    pub html_url: String,
    pub state: String,
    pub user: Option<GhSearchUser>,
    pub comments: u64,
    pub labels: Vec<GhSearchLabel>,
    pub assignees: Vec<GhSearchAssignee>,
    pub created_at: String,
    pub updated_at: String,
    pub repository_url: String,
    pub draft: bool,
}

/// The error of a search item's timestamps: `created_at` is checked first.
pub open spec fn spec_dates_error(created: Seq<char>, updated: Seq<char>) -> Option<Seq<char>> {
    match spec_time_error("created_at"@, created) {
        Some(m) => Some(m),
        None => spec_time_error("updated_at"@, updated),
    }
}

/// Author login and avatar: the user's, or empty when there is none.
pub open spec fn spec_author(u: Option<GhSearchUser>) -> (Seq<char>, Option<String>) {
    match u {
        Some(u) => (u.login@, u.avatar_url),
        None => (Seq::empty(), None),
    }
}

impl GhSearchItem {
    pub fn labels(&self) -> (r: Vec<RemoteLabel>)
        ensures
            r@.len() == self.labels@.len(),
            forall|k: int|
                0 <= k < r@.len() ==> (#[trigger] r@[k]).name == self.labels@[k].name && r@[k].color
                    == self.labels@[k].color,
    {
        let mut r: Vec<RemoteLabel> = Vec::new();
        let mut i: usize = 0;
        while i < self.labels.len()
            invariant
                i <= self.labels@.len(),
                r@.len() == i,
                forall|k: int|
                    0 <= k < i ==> (#[trigger] r@[k]).name == self.labels@[k].name && r@[k].color
                        == self.labels@[k].color,
            decreases self.labels.len() - i,
        {
            r.push(RemoteLabel { name: self.labels[i].name.clone(), color: self.labels[i].color.clone() });
            i = i + 1;
        }
        r
    }

    pub fn assignees(&self) -> (r: Vec<String>)
        ensures
            r@.len() == self.assignees@.len(),
            forall|k: int| 0 <= k < r@.len() ==> #[trigger] r@[k] == self.assignees@[k].login,
    {
        let mut r: Vec<String> = Vec::new();
        let mut i: usize = 0;
        while i < self.assignees.len()
            invariant
                i <= self.assignees@.len(),
                r@.len() == i,
                forall|k: int| 0 <= k < i ==> #[trigger] r@[k] == self.assignees@[k].login,
            decreases self.assignees.len() - i,
        {
            r.push(self.assignees[i].login.clone());
            i = i + 1;
        }
        r
    }

    /// Check both timestamps (created first).
    pub fn parsed_dates(&self) -> (r: Result<(), ProviderError>)
        ensures
            match spec_dates_error(self.created_at@, self.updated_at@) {
                None => r is Ok,
                Some(m) => (r matches Err(e) && e.0@ == m),
            },
    {
        check_time("created_at", self.created_at.as_str())?;
        check_time("updated_at", self.updated_at.as_str())
    }

    pub fn into_issue(self) -> (r: Result<RemoteIssue, ProviderError>)
        ensures
            match spec_dates_error(self.created_at@, self.updated_at@) {
                Some(m) => (r matches Err(e) && e.0@ == m),
                None => (r matches Ok(x) && x.number == self.number && x.title == self.title && x.html_url
                    == self.html_url && x.state == self.state && x.author_login@ == spec_author(self.user).0
                    && x.author_avatar_url == spec_author(self.user).1 && x.repo_name_with_owner@
                    == spec_repo_name_with_owner(self.repository_url@) && x.created_at == self.created_at
                    && x.updated_at == self.updated_at && x.comments_count == self.comments
                    && x.labels@.len() == self.labels@.len() && (forall|k: int|
                    0 <= k < x.labels@.len() ==> (#[trigger] x.labels@[k]).name == self.labels@[k].name
                        && x.labels@[k].color == self.labels@[k].color) && x.assignees@.len()
                    == self.assignees@.len() && (forall|k: int|
                    0 <= k < x.assignees@.len() ==> #[trigger] x.assignees@[k] == self.assignees@[k].login)),
            },
    {
        self.parsed_dates()?;
        let labels = self.labels();
        let assignees = self.assignees();
        let (author_login, author_avatar_url) = match self.user {
            Some(u) => (u.login, u.avatar_url),
            None => (String::new(), None),
        };
        let repo = repo_name_with_owner(self.repository_url.as_str());
        Ok(
            RemoteIssue {
                number: self.number,
                title: self.title,
                html_url: self.html_url,
                state: self.state,
                author_login,
                author_avatar_url,
                repo_name_with_owner: repo,
                created_at: self.created_at,
                updated_at: self.updated_at,
                comments_count: self.comments,
                labels,
                assignees,
            },
        )
    }

    pub fn into_pull_request(self) -> (r: Result<RemotePullRequest, ProviderError>)
        ensures
            match spec_dates_error(self.created_at@, self.updated_at@) {
                Some(m) => (r matches Err(e) && e.0@ == m),
                None => (r matches Ok(x) && x.number == self.number && x.title == self.title && x.html_url
                    == self.html_url && x.state == self.state && x.author_login@ == spec_author(self.user).0
                    && x.author_avatar_url == spec_author(self.user).1 && x.repo_name_with_owner@
                    == spec_repo_name_with_owner(self.repository_url@) && x.created_at == self.created_at
                    && x.updated_at == self.updated_at && x.comments_count == self.comments
                    && x.is_draft == self.draft && x.labels@.len() == self.labels@.len() && (forall|k: int|
                    0 <= k < x.labels@.len() ==> (#[trigger] x.labels@[k]).name == self.labels@[k].name
                        && x.labels@[k].color == self.labels@[k].color) && x.assignees@.len()
                    == self.assignees@.len() && (forall|k: int|
                    0 <= k < x.assignees@.len() ==> #[trigger] x.assignees@[k] == self.assignees@[k].login)),
            },
    {
        self.parsed_dates()?;
        let labels = self.labels();
        let assignees = self.assignees();
        let is_draft = self.draft;
        let (author_login, author_avatar_url) = match self.user {
            Some(u) => (u.login, u.avatar_url),
            None => (String::new(), None),
        };
        let repo = repo_name_with_owner(self.repository_url.as_str());
        Ok(
            RemotePullRequest {
                number: self.number,
                title: self.title,
                html_url: self.html_url,
                state: self.state,
                author_login,
                author_avatar_url,
                repo_name_with_owner: repo,
                created_at: self.created_at,
                updated_at: self.updated_at,
                comments_count: self.comments,
                labels,
                assignees,
                is_draft,
            },
        )
    }
}

#[derive(Debug, Clone, PartialEq, Eq)]
pub struct GhCodeRepository {
    pub full_name: String,
}

/// One hit of the code search API.
#[derive(Debug, Clone, PartialEq, Eq)]
pub struct GhCodeSearchItem {
    pub name: String,
    pub path: String,
    pub html_url: String,
    pub repository: GhCodeRepository,
}

impl GhCodeSearchItem {
    pub fn into_remote(self) -> (r: RemoteCodeHit)
        ensures
            r == (RemoteCodeHit {
                repo_name_with_owner: self.repository.full_name,
                path: self.path,
                html_url: self.html_url,
                name: self.name,
            }),
    {
        RemoteCodeHit {
            repo_name_with_owner: self.repository.full_name,
            path: self.path,
            html_url: self.html_url,
            name: self.name,
        }
    }
}

#[derive(Debug, Clone, PartialEq, Eq)]
pub struct GhNotificationRepo {
    pub full_name: String,
}

#[derive(Debug, Clone, PartialEq, Eq)]
pub struct GhNotificationSubject {
    pub title: String,
    pub subject_type: String,
    pub url: Option<String>,
}

/// A notification thread.
#[derive(Debug, Clone, PartialEq, Eq)]
pub struct GhNotification {
    pub id: String,
    pub repository: Option<GhNotificationRepo>,
    pub subject: GhNotificationSubject,
    pub reason: String,
    pub unread: bool,
    pub updated_at: String,
}

impl GhNotification {
    pub fn into_remote(self) -> (r: RemoteNotification)
        ensures
            r.id == self.id,
            r.repo_name_with_owner@ == (match self.repository {
                Some(x) => x.full_name@,
                None => Seq::<char>::empty(),
            }),
            r.subject_title == self.subject.title,
            r.subject_type == self.subject.subject_type,
            r.subject_url == self.subject.url,
            r.reason == self.reason,
            r.unread == self.unread,
            r.updated_at == self.updated_at,
    {
        RemoteNotification {
            id: self.id,
            repo_name_with_owner: match self.repository {
                Some(x) => x.full_name,
                None => String::new(),
            },
            subject_title: self.subject.title,
            subject_type: self.subject.subject_type,
            subject_url: self.subject.url,
            reason: self.reason,
            unread: self.unread,
            updated_at: self.updated_at,
        }
    }
}

/// A workflow run.
#[derive(Debug, Clone, PartialEq, Eq)]
pub struct GhWorkflowRun {
    pub id: u64,
    pub name: Option<String>,
    pub head_branch: Option<String>,
    pub status: String,
    pub conclusion: Option<String>,
    pub html_url: String,
    pub created_at: String,
    pub updated_at: String,
    pub event: Option<String>,
}

impl GhWorkflowRun {
    pub fn into_remote(self) -> (r: RemoteWorkflowRun)
        ensures
            r == (RemoteWorkflowRun {
                id: self.id,
                name: self.name,
                head_branch: self.head_branch,
                status: self.status,
                conclusion: self.conclusion,
                html_url: self.html_url,
                created_at: self.created_at,
                updated_at: self.updated_at,
                event: self.event,
            }),
    {
        RemoteWorkflowRun {
            id: self.id,
            name: self.name,
            head_branch: self.head_branch,
            status: self.status,
            conclusion: self.conclusion,
            html_url: self.html_url,
            created_at: self.created_at,
            updated_at: self.updated_at,
            event: self.event,
        }
    }
}

#[derive(Debug, Clone, PartialEq, Eq)]
pub struct GhOwner {
    pub login: String,
    pub avatar_url: Option<String>,
}

#[derive(Debug, Clone, PartialEq, Eq)]
pub struct GhLicense {
    pub spdx_id: Option<String>,
    pub name: Option<String>,
}

/// Full detail of a repository.
#[derive(Debug, Clone, PartialEq, Eq)]
pub struct GhRepoDetail {
    pub full_name: String,
    pub description: Option<String>,
    pub html_url: String,
    pub homepage: Option<String>,
    pub language: Option<String>,
    pub stargazers_count: u64,
    pub forks_count: u64,
    pub open_issues_count: u64,
    pub watchers_count: u64,
    pub default_branch: String,
    pub license: Option<GhLicense>,
    pub topics: Vec<String>,
    pub owner: Option<GhOwner>,
    pub private: bool,
    pub fork: bool,
    pub archived: bool,
    pub size: u64,
    pub pushed_at: Option<String>,
    pub created_at: Option<String>,
    pub updated_at: Option<String>,
}

/// The license shown for a repo: its SPDX id, unless that is missing, empty or
/// GitHub's "NOASSERTION" (unidentified), in which case its human name.
pub open spec fn spec_license(l: Option<GhLicense>) -> Option<String> {
    match l {
        None => None,
        Some(l) => match l.spdx_id {
            Some(id) => if id@.len() > 0 && id@ != "NOASSERTION"@ {
                Some(id)
            } else {
                l.name
            },
            None => l.name,
        },
    }
}

/// An empty homepage counts as none.
pub open spec fn spec_nonempty(o: Option<String>) -> Option<String> {
    match o {
        Some(h) => if h@.len() > 0 {
            Some(h)
        } else {
            None
        },
        None => None,
    }
}

fn nonempty(o: Option<String>) -> (r: Option<String>)
    ensures
        r == spec_nonempty(o),
{
    match o {
        Some(h) => if h.as_str().unicode_len() > 0 {
            Some(h)
        } else {
            None
        },
        None => None,
    }
}

impl GhRepoDetail {
    pub fn into_remote(self) -> (r: RemoteRepoDetail)
        ensures
            r == (RemoteRepoDetail {
                full_name: self.full_name,
                description: self.description,
                html_url: self.html_url,
                homepage: spec_nonempty(self.homepage),
                language: self.language,
                stars: self.stargazers_count,
                forks: self.forks_count,
                open_issues: self.open_issues_count,
                watchers: self.watchers_count,
                default_branch: self.default_branch,
                license: spec_license(self.license),
                topics: self.topics,
                owner_login: r.owner_login,
                owner_avatar_url: r.owner_avatar_url,
                is_private: self.private,
                is_fork: self.fork,
                is_archived: self.archived,
                size: self.size,
                pushed_at: self.pushed_at,
                created_at: self.created_at,
                updated_at: self.updated_at,
            }),
            r.owner_login@ == (match self.owner {
                Some(o) => o.login@,
                None => Seq::<char>::empty(),
            }),
            r.owner_avatar_url == (match self.owner {
                Some(o) => o.avatar_url,
                None => None,
            }),
    {
        let license = match self.license {
            None => None,
            Some(l) => match l.spdx_id {
                Some(id) => {
                    if id.as_str().unicode_len() > 0 && !str_eq(id.as_str(), "NOASSERTION") {
                        Some(id)
                    } else {
                        l.name
                    }
                },
                None => l.name,
            },
        };
        let (owner_login, owner_avatar_url) = match self.owner {
            Some(o) => (o.login, o.avatar_url),
            None => (String::new(), None),
        };
        RemoteRepoDetail {
            full_name: self.full_name,
            description: self.description,
            html_url: self.html_url,
            homepage: nonempty(self.homepage),
            language: self.language,
            stars: self.stargazers_count,
            forks: self.forks_count,
            open_issues: self.open_issues_count,
            watchers: self.watchers_count,
            default_branch: self.default_branch,
            license,
            topics: self.topics,
            owner_login,
            owner_avatar_url,
            is_private: self.private,
            is_fork: self.fork,
            is_archived: self.archived,
            size: self.size,
            pushed_at: self.pushed_at,
            created_at: self.created_at,
            updated_at: self.updated_at,
        }
    }
}

#[derive(Debug, Clone, PartialEq, Eq)]
pub struct GhReleaseAuthor {
    pub login: String,
}

/// A release.
#[derive(Debug, Clone, PartialEq, Eq)]
pub struct GhRelease {
    pub id: u64,
    pub tag_name: String,
    pub name: Option<String>,
    pub html_url: String,
    pub body: Option<String>,
    pub draft: bool,
    pub prerelease: bool,
    pub published_at: Option<String>,
    pub author: Option<GhReleaseAuthor>,
}

impl GhRelease {
    pub fn into_remote(self) -> (r: RemoteRelease)
        ensures
            r == (RemoteRelease {
                id: self.id,
                tag_name: self.tag_name,
                name: self.name,
                html_url: self.html_url,
                body: self.body,
                draft: self.draft,
                prerelease: self.prerelease,
                published_at: self.published_at,
                author_login: match self.author {
                    Some(a) => Some(a.login),
                    None => None,
                },
            }),
    {
        RemoteRelease {
            id: self.id,
            tag_name: self.tag_name,
            name: self.name,
            html_url: self.html_url,
            body: self.body,
            draft: self.draft,
            prerelease: self.prerelease,
            published_at: self.published_at,
            author_login: match self.author {
                Some(a) => Some(a.login),
                None => None,
            },
        }
    }
}

/// A fork.
#[derive(Debug, Clone, PartialEq, Eq)]
pub struct GhFork {
    pub full_name: String,
    pub html_url: String,
    pub stargazers_count: u64,
    pub pushed_at: Option<String>,
    pub owner: Option<GhOwner>,
}

impl GhFork {
    pub fn into_remote(self) -> (r: RemoteFork)
        ensures
            r.full_name == self.full_name,
            r.html_url == self.html_url,
            r.stars == self.stargazers_count,
            r.pushed_at == self.pushed_at,
            r.owner_login@ == (match self.owner {
                Some(o) => o.login@,
                None => Seq::<char>::empty(),
            }),
    {
        RemoteFork {
            full_name: self.full_name,
            html_url: self.html_url,
            stars: self.stargazers_count,
            pushed_at: self.pushed_at,
            owner_login: match self.owner {
                Some(o) => o.login,
                None => String::new(),
            },
        }
    }
}

/// A contributor.
#[derive(Debug, Clone, PartialEq, Eq)]
pub struct GhContributor {
    pub login: String,
    pub avatar_url: Option<String>,
    pub html_url: String,
    pub contributions: u64,
}

impl GhContributor {
    pub fn into_remote(self) -> (r: RemoteContributor)
        ensures
            r == (RemoteContributor {
                login: self.login,
                avatar_url: self.avatar_url,
                html_url: self.html_url,
                contributions: self.contributions,
            }),
    {
        RemoteContributor {
            login: self.login,
            avatar_url: self.avatar_url,
            html_url: self.html_url,
            contributions: self.contributions,
        }
    }
}

/// One day of traffic.
#[derive(Debug, Clone, PartialEq, Eq)]
pub struct GhTrafficDay {
    pub timestamp: String,
    pub count: u64,
    pub uniques: u64,
}

impl GhTrafficDay {
    pub fn into_remote(self) -> (r: RemoteTrafficDay)
        ensures
            r == (RemoteTrafficDay { timestamp: self.timestamp, count: self.count, uniques: self.uniques }),
    {
        RemoteTrafficDay { timestamp: self.timestamp, count: self.count, uniques: self.uniques }
    }
}

fn traffic_days(days: Vec<GhTrafficDay>) -> (r: Vec<RemoteTrafficDay>)
    ensures
        r@.len() == days@.len(),
        forall|k: int|
            0 <= k < r@.len() ==> #[trigger] r@[k] == (RemoteTrafficDay {
                timestamp: days@[k].timestamp,
                count: days@[k].count,
                uniques: days@[k].uniques,
            }),
{
    let ghost all = days@;
    let mut rest = days;
    let mut r: Vec<RemoteTrafficDay> = Vec::new();
    while rest.len() > 0
        invariant
            rest@.len() <= all.len(),
            rest@ == all.skip(all.len() - rest@.len()),
            r@.len() == all.len() - rest@.len(),
            forall|k: int|
                0 <= k < r@.len() ==> #[trigger] r@[k] == (RemoteTrafficDay {
                    timestamp: all[k].timestamp,
                    count: all[k].count,
                    uniques: all[k].uniques,
                }),
        decreases rest@.len(),
    {
        let ghost done = all.len() - rest@.len();
        let d = rest.remove(0);
        assert(all[done] == d);
        assert(rest@ =~= all.skip(all.len() - rest@.len()));
        r.push(d.into_remote());
    }
    r
}

/// The views traffic of a repo.
#[derive(Debug, Clone, PartialEq, Eq)]
pub struct GhTrafficViews {
    pub count: u64,
    pub uniques: u64,
    pub views: Vec<GhTrafficDay>,
}

impl GhTrafficViews {
    pub fn into_remote(self) -> (r: RemoteTraffic)
        ensures
            r.count == self.count,
            r.uniques == self.uniques,
            r.days@.len() == self.views@.len(),
            forall|k: int|
                0 <= k < r.days@.len() ==> #[trigger] r.days@[k] == (RemoteTrafficDay {
                    timestamp: self.views@[k].timestamp,
                    count: self.views@[k].count,
                    uniques: self.views@[k].uniques,
                }),
    {
        RemoteTraffic { count: self.count, uniques: self.uniques, days: traffic_days(self.views) }
    }
}

/// The clones traffic of a repo.
#[derive(Debug, Clone, PartialEq, Eq)]
pub struct GhTrafficClones {
    pub count: u64,
    pub uniques: u64,
    pub clones: Vec<GhTrafficDay>,
}

impl GhTrafficClones {
    pub fn into_remote(self) -> (r: RemoteTraffic)
        ensures
            r.count == self.count,
            r.uniques == self.uniques,
            r.days@.len() == self.clones@.len(),
            forall|k: int|
                0 <= k < r.days@.len() ==> #[trigger] r.days@[k] == (RemoteTrafficDay {
                    timestamp: self.clones@[k].timestamp,
                    count: self.clones@[k].count,
                    uniques: self.clones@[k].uniques,
                }),
    {
        RemoteTraffic { count: self.count, uniques: self.uniques, days: traffic_days(self.clones) }
    }
}

/// A popular referrer.
#[derive(Debug, Clone, PartialEq, Eq)]
pub struct GhReferrer {
    pub referrer: String,
    pub count: u64,
    pub uniques: u64,
}

impl GhReferrer {
    pub fn into_remote(self) -> (r: RemoteReferrer)
        ensures
            r == (RemoteReferrer { referrer: self.referrer, count: self.count, uniques: self.uniques }),
    {
        RemoteReferrer { referrer: self.referrer, count: self.count, uniques: self.uniques }
    }
}

/// A popular content path.
#[derive(Debug, Clone, PartialEq, Eq)]
pub struct GhPath {
    pub path: String,
    pub title: String,
    pub count: u64,
    pub uniques: u64,
}

impl GhPath {
    pub fn into_remote(self) -> (r: RemotePath)
        ensures
            r == (RemotePath { path: self.path, title: self.title, count: self.count, uniques: self.uniques }),
    {
        RemotePath { path: self.path, title: self.title, count: self.count, uniques: self.uniques }
    }
}

/// A user reference in the detail payloads.
#[derive(Debug, Clone, PartialEq, Eq)]
pub struct GhUser {
    pub login: String,
    pub avatar_url: Option<String>,
}

impl GhUser {
    pub fn into_remote(self) -> (r: RemoteUser)
        ensures
            r == (RemoteUser { login: self.login, avatar_url: self.avatar_url }),
    {
        RemoteUser { login: self.login, avatar_url: self.avatar_url }
    }
}

fn users(us: Vec<GhUser>) -> (r: Vec<RemoteUser>)
    ensures
        r@.len() == us@.len(),
        forall|k: int| 0 <= k < r@.len() ==> #[trigger] r@[k] == (RemoteUser { login: us@[k].login, avatar_url: us@[k].avatar_url }),
{
    let ghost all = us@;
    let mut rest = us;
    let mut r: Vec<RemoteUser> = Vec::new();
    while rest.len() > 0
        invariant
            rest@.len() <= all.len(),
            rest@ == all.skip(all.len() - rest@.len()),
            r@.len() == all.len() - rest@.len(),
            forall|k: int| 0 <= k < r@.len() ==> #[trigger] r@[k] == (RemoteUser { login: all[k].login, avatar_url: all[k].avatar_url }),
        decreases rest@.len(),
    {
        let ghost done = all.len() - rest@.len();
        let u = rest.remove(0);
        assert(all[done] == u);
        assert(rest@ =~= all.skip(all.len() - rest@.len()));
        r.push(u.into_remote());
    }
    r
}

#[derive(Debug, Clone, PartialEq, Eq)]
pub struct GhDetailLabel {
    pub name: String,
    pub color: String,
}

#[derive(Debug, Clone, PartialEq, Eq)]
pub struct GhMilestone {
    pub title: Option<String>,
}

/// The issue-ish fields shared by the issues and pulls detail endpoints.
#[derive(Debug, Clone, PartialEq, Eq)]
pub struct GhIssueDetail {
    pub number: u64,
    pub title: String,
    pub body: Option<String>,
    pub html_url: String,
    pub state: String,
    pub user: Option<GhUser>,
    pub repository_url: String,
    pub created_at: String,
    pub updated_at: String,
    pub closed_at: Option<String>,
    pub comments: u64,
    pub labels: Vec<GhDetailLabel>,
    pub assignees: Vec<GhUser>,
    pub milestone: Option<GhMilestone>,
}

pub fn detail_labels(labels: Vec<GhDetailLabel>) -> (r: Vec<RemoteLabel>)
    ensures
        r@.len() == labels@.len(),
        forall|k: int| 0 <= k < r@.len() ==> #[trigger] r@[k] == (RemoteLabel { name: labels@[k].name, color: labels@[k].color }),
{
    let ghost all = labels@;
    let mut rest = labels;
    let mut r: Vec<RemoteLabel> = Vec::new();
    while rest.len() > 0
        invariant
            rest@.len() <= all.len(),
            rest@ == all.skip(all.len() - rest@.len()),
            r@.len() == all.len() - rest@.len(),
            forall|k: int| 0 <= k < r@.len() ==> #[trigger] r@[k] == (RemoteLabel { name: all[k].name, color: all[k].color }),
        decreases rest@.len(),
    {
        let ghost done = all.len() - rest@.len();
        let l = rest.remove(0);
        assert(all[done] == l);
        assert(rest@ =~= all.skip(all.len() - rest@.len()));
        r.push(RemoteLabel { name: l.name, color: l.color });
    }
    r
}

/// `owner/name` of an issue detail: derived from its `repository_url`, or the
/// requested `owner/repo` when the payload has none.
pub open spec fn spec_detail_repo(repository_url: Seq<char>, owner: Seq<char>, repo: Seq<char>) -> Seq<char> {
    if repository_url.len() == 0 {
        owner + "/"@ + repo
    } else {
        spec_repo_name_with_owner(repository_url)
    }
}

/// The detail fields an issue (or the issue part of a pull) maps to.
pub open spec fn spec_issue_detail_ok(d: GhIssueDetail, owner: Seq<char>, repo: Seq<char>, r: RemoteIssueDetail) -> bool {
    &&& r.number == d.number
    &&& r.title == d.title
    &&& r.body == d.body
    &&& r.html_url == d.html_url
    &&& r.state == d.state
    &&& r.author_login@ == (match d.user {
        Some(u) => u.login@,
        None => Seq::<char>::empty(),
    })
    &&& r.author_avatar_url == (match d.user {
        Some(u) => u.avatar_url,
        None => None,
    })
    &&& r.repo_name_with_owner@ == spec_detail_repo(d.repository_url@, owner, repo)
    &&& r.created_at == d.created_at
    &&& r.updated_at == d.updated_at
    &&& r.closed_at == d.closed_at
    &&& r.comments_count == d.comments
    &&& r.labels@.len() == d.labels@.len()
    &&& (forall|k: int| 0 <= k < r.labels@.len() ==> #[trigger] r.labels@[k] == (RemoteLabel { name: d.labels@[k].name, color: d.labels@[k].color }))
    &&& r.assignees@.len() == d.assignees@.len()
    &&& (forall|k: int| 0 <= k < r.assignees@.len() ==> #[trigger] r.assignees@[k] == (RemoteUser { login: d.assignees@[k].login, avatar_url: d.assignees@[k].avatar_url }))
    &&& r.milestone_title == (match d.milestone {
        Some(m) => m.title,
        None => None,
    })
}

impl GhIssueDetail {
    pub fn into_remote(self, owner: &str, repo: &str) -> (r: RemoteIssueDetail)
        ensures
            spec_issue_detail_ok(self, owner@, repo@, r),
    {
        let (author_login, author_avatar_url) = match self.user {
            Some(u) => (u.login, u.avatar_url),
            None => (String::new(), None),
        };
        let repo_name = if self.repository_url.as_str().unicode_len() == 0 {
            let mut s = owned(owner);
            push_str(&mut s, "/");
            push_str(&mut s, repo);
            s
        } else {
            repo_name_with_owner(self.repository_url.as_str())
        };
        RemoteIssueDetail {
            number: self.number,
            title: self.title,
            body: self.body,
            html_url: self.html_url,
            state: self.state,
            author_login,
            author_avatar_url,
            repo_name_with_owner: repo_name,
            created_at: self.created_at,
            updated_at: self.updated_at,
            closed_at: self.closed_at,
            comments_count: self.comments,
            labels: detail_labels(self.labels),
            assignees: users(self.assignees),
            milestone_title: match self.milestone {
                Some(m) => m.title,
                None => None,
            },
        }
    }
}

#[derive(Debug, Clone, PartialEq, Eq)]
pub struct GhRef {
    pub ref_name: String,
}

#[derive(Debug, Clone, PartialEq, Eq)]
pub struct GhTeam {
    pub slug: String,
}

/// A pull request detail: the issue-ish fields plus PR-specific ones.
#[derive(Debug, Clone, PartialEq, Eq)]
pub struct GhPullDetail {
    pub issue: GhIssueDetail,
    pub draft: bool,
    pub merged: bool,
    pub mergeable_state: Option<String>,
    pub base: Option<GhRef>,
    pub head: Option<GhRef>,
    pub additions: Option<u64>,
    pub deletions: Option<u64>,
    pub changed_files: Option<u64>,
    pub commits: Option<u64>,
    pub requested_reviewers: Vec<GhUser>,
    pub requested_teams: Vec<GhTeam>,
}

fn team_slugs(ts: Vec<GhTeam>) -> (r: Vec<String>)
    ensures
        r@.len() == ts@.len(),
        forall|k: int| 0 <= k < r@.len() ==> #[trigger] r@[k] == ts@[k].slug,
{
    let ghost all = ts@;
    let mut rest = ts;
    let mut r: Vec<String> = Vec::new();
    while rest.len() > 0
        invariant
            rest@.len() <= all.len(),
            rest@ == all.skip(all.len() - rest@.len()),
            r@.len() == all.len() - rest@.len(),
            forall|k: int| 0 <= k < r@.len() ==> #[trigger] r@[k] == all[k].slug,
        decreases rest@.len(),
    {
        let ghost done = all.len() - rest@.len();
        let t = rest.remove(0);
        assert(all[done] == t);
        assert(rest@ =~= all.skip(all.len() - rest@.len()));
        r.push(t.slug);
    }
    r
}

pub open spec fn spec_ref(r: Option<GhRef>) -> Seq<char> {
    match r {
        Some(x) => x.ref_name@,
        None => Seq::empty(),
    }
}

impl GhPullDetail {
    pub fn into_remote(self, owner: &str, repo: &str) -> (r: RemotePullRequestDetail)
        ensures
            ({
                let i = RemoteIssueDetail {
                    number: r.number,
                    title: r.title,
                    body: r.body,
                    html_url: r.html_url,
                    state: r.state,
                    author_login: r.author_login,
                    author_avatar_url: r.author_avatar_url,
                    repo_name_with_owner: r.repo_name_with_owner,
                    created_at: r.created_at,
                    updated_at: r.updated_at,
                    closed_at: r.closed_at,
                    comments_count: r.comments_count,
                    labels: r.labels,
                    assignees: r.assignees,
                    milestone_title: r.milestone_title,
                };
                spec_issue_detail_ok(self.issue, owner@, repo@, i)
            }),
            r.is_draft == self.draft,
            r.merged == self.merged,
            r.mergeable_state == self.mergeable_state,
            r.base_ref@ == spec_ref(self.base),
            r.head_ref@ == spec_ref(self.head),
            r.additions == self.additions,
            r.deletions == self.deletions,
            r.changed_files == self.changed_files,
            r.commits == self.commits,
            r.requested_reviewers@.len() == self.requested_reviewers@.len(),
            forall|k: int| 0 <= k < r.requested_reviewers@.len() ==> #[trigger] r.requested_reviewers@[k] == (RemoteUser {
                login: self.requested_reviewers@[k].login,
                avatar_url: self.requested_reviewers@[k].avatar_url,
            }),
            r.requested_teams@.len() == self.requested_teams@.len(),
            forall|k: int| 0 <= k < r.requested_teams@.len() ==> #[trigger] r.requested_teams@[k] == self.requested_teams@[k].slug,
    {
        let base_ref = match self.base {
            Some(x) => x.ref_name,
            None => String::new(),
        };
        let head_ref = match self.head {
            Some(x) => x.ref_name,
            None => String::new(),
        };
        let issue = self.issue.into_remote(owner, repo);
        RemotePullRequestDetail {
            number: issue.number,
            title: issue.title,
            body: issue.body,
            html_url: issue.html_url,
            state: issue.state,
            author_login: issue.author_login,
            author_avatar_url: issue.author_avatar_url,
            repo_name_with_owner: issue.repo_name_with_owner,
            created_at: issue.created_at,
            updated_at: issue.updated_at,
            closed_at: issue.closed_at,
            comments_count: issue.comments_count,
            labels: issue.labels,
            assignees: issue.assignees,
            milestone_title: issue.milestone_title,
            is_draft: self.draft,
            merged: self.merged,
            mergeable_state: self.mergeable_state,
            base_ref,
            head_ref,
            additions: self.additions,
            deletions: self.deletions,
            changed_files: self.changed_files,
            commits: self.commits,
            requested_reviewers: users(self.requested_reviewers),
            requested_teams: team_slugs(self.requested_teams),
        }
    }
}

/// A comment on an issue or PR.
#[derive(Debug, Clone, PartialEq, Eq)]
pub struct GhIssueComment {
    pub id: u64,
    pub user: Option<GhUser>,
    pub body: String,
    pub created_at: String,
    pub updated_at: String,
    pub html_url: String,
}

impl GhIssueComment {
    pub fn into_remote(self) -> (r: RemoteComment)
        ensures
            r.id == self.id,
            r.author_login@ == (match self.user {
                Some(u) => u.login@,
                None => Seq::<char>::empty(),
            }),
            r.author_avatar_url == (match self.user {
                Some(u) => u.avatar_url,
                None => None,
            }),
            r.body == self.body,
            r.created_at == self.created_at,
            r.updated_at == self.updated_at,
            r.html_url == self.html_url,
    {
        let (author_login, author_avatar_url) = match self.user {
            Some(u) => (u.login, u.avatar_url),
            None => (String::new(), None),
        };
        RemoteComment {
            id: self.id,
            author_login,
            author_avatar_url,
            body: self.body,
            created_at: self.created_at,
            updated_at: self.updated_at,
            html_url: self.html_url,
        }
    }
}

/// A pull request review.
#[derive(Debug, Clone, PartialEq, Eq)]
pub struct GhReview {
    pub id: u64,
    pub user: Option<GhUser>,
    pub state: String,
    pub body: Option<String>,
    pub submitted_at: Option<String>,
    pub html_url: String,
}

impl GhReview {
    pub fn into_remote(self) -> (r: RemoteReview)
        ensures
            r.id == self.id,
            r.reviewer_login@ == (match self.user {
                Some(u) => u.login@,
                None => Seq::<char>::empty(),
            }),
            r.reviewer_avatar_url == (match self.user {
                Some(u) => u.avatar_url,
                None => None,
            }),
            r.state == self.state,
            r.body == spec_nonempty(self.body),
            r.submitted_at == self.submitted_at,
            r.html_url == self.html_url,
    {
        let (reviewer_login, reviewer_avatar_url) = match self.user {
            Some(u) => (u.login, u.avatar_url),
            None => (String::new(), None),
        };
        RemoteReview {
            id: self.id,
            reviewer_login,
            reviewer_avatar_url,
            state: self.state,
            body: nonempty(self.body),
            submitted_at: self.submitted_at,
            html_url: self.html_url,
        }
    }
}

/// `a` comes before `b` in the languages listing: more bytes first, then by name.
pub open spec fn language_before(a: RemoteLanguage, b: RemoteLanguage) -> bool {
    a.bytes > b.bytes || (a.bytes == b.bytes && seq_lt(a.name@, b.name@))
}

/// Languages ordered by bytes descending, ties broken by name ascending.
pub fn sort_languages(langs: Vec<RemoteLanguage>) -> (out: Vec<RemoteLanguage>)
    ensures
        out@.len() == langs@.len(),
        out@.to_multiset() == langs@.to_multiset(),
        forall|k: int, l: int| 0 <= k < l < out@.len() ==> !language_before(#[trigger] out@[l], #[trigger] out@[k]),
{
    let ghost all = langs@;
    let mut rest = langs;
    let mut out: Vec<RemoteLanguage> = Vec::new();
    proof {
        assert(all.skip(0) =~= all);
        assert(all.take(0) =~= Seq::<RemoteLanguage>::empty());
    }
    while rest.len() > 0
        invariant
            rest@.len() <= all.len(),
            rest@ == all.skip(all.len() - rest@.len()),
            out@.len() == all.len() - rest@.len(),
            out@.to_multiset() == all.take(all.len() - rest@.len()).to_multiset(),
            forall|k: int, l: int| 0 <= k < l < out@.len() ==> !language_before(#[trigger] out@[l], #[trigger] out@[k]),
        decreases rest@.len(),
    {
        let ghost done = all.len() - rest@.len();
        let x = rest.remove(0);
        proof {
            assert(all[done] == x);
            assert(rest@ =~= all.skip(all.len() - rest@.len()));
        }
        let mut k: usize = out.len();
        while k > 0 && (x.bytes > out[k - 1].bytes || (x.bytes == out[k - 1].bytes && str_lt(x.name.as_str(), out[k - 1].name.as_str())))
            invariant
                k <= out@.len(),
                forall|m: int| k <= m < out@.len() ==> language_before(x, #[trigger] out@[m]),
            decreases k,
        {
            k = k - 1;
        }
        let ghost old_out = out@;
        proof {
            if k > 0 {
                lemma_seq_lt_total(x.name@, old_out[k - 1].name@);
            }
        }
        out.insert(k, x);
        proof {
            let o = out@;
            assert(o =~= old_out.insert(k as int, x));
            assert(all.take(done + 1) =~= all.take(done).push(x));
            vstd::seq_lib::to_multiset_insert(old_out, k as int, x);
            vstd::seq_lib::to_multiset_build(all.take(done), x);
            assert forall|a: int, b: int| 0 <= a < b < o.len() implies !language_before(#[trigger] o[b], #[trigger] o[a]) by {
                if b < k {
                } else if b == k {
                    // o[a] = old_out[a], a < k: old_out[a] is not after old_out[k-1], which is not after x
                    let p = old_out[a];
                    let q = old_out[k - 1];
                    if a < k - 1 {
                        assert(!language_before(q, p));
                    }
                    if language_before(x, p) {
                        if a < k - 1 {
                            if x.bytes == p.bytes && seq_lt(x.name@, p.name@) {
                                if q.bytes == p.bytes {
                                    lemma_seq_lt_total(q.name@, p.name@);
                                    if seq_lt(x.name@, q.name@) {
                                    } else if x.name@ == q.name@ {
                                    } else {
                                        lemma_seq_lt_transitive(q.name@, x.name@, p.name@);
                                    }
                                }
                            }
                        }
                    }
                } else if a < k {
                    let p = old_out[a];
                    let c = old_out[b - 1];
                    assert(o[b] == c);
                    assert(language_before(x, c));
                    if language_before(c, p) {
                        // x before c before p, while p is not after x
                        if a < k - 1 {
                            let q = old_out[k - 1];
                            assert(!language_before(q, p));
                            assert(!language_before(x, q));
                            if x.bytes == c.bytes && c.bytes == p.bytes {
                                lemma_seq_lt_transitive(x.name@, c.name@, p.name@);
                                if q.bytes == p.bytes {
                                    lemma_seq_lt_total(q.name@, p.name@);
                                    lemma_seq_lt_total(x.name@, q.name@);
                                    if seq_lt(p.name@, q.name@) {
                                        lemma_seq_lt_transitive(x.name@, p.name@, q.name@);
                                    }
                                }
                            }
                        } else {
                            if x.bytes == c.bytes && c.bytes == p.bytes {
                                lemma_seq_lt_transitive(x.name@, c.name@, p.name@);
                                lemma_seq_lt_total(x.name@, p.name@);
                            }
                        }
                    }
                } else if a == k {
                    assert(o[b] == old_out[b - 1]);
                    lemma_seq_lt_irreflexive(x.name@);
                    if language_before(old_out[b - 1], x) {
                        lemma_seq_lt_transitive(x.name@, old_out[b - 1].name@, x.name@);
                    }
                } else {
                    assert(o[a] == old_out[a - 1]);
                    assert(o[b] == old_out[b - 1]);
                }
            }
        }
    }
    assert(all.take(all.len() as int) =~= all);
    out
}

} // verus!
