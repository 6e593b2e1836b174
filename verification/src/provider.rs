//! What providers (GitHub, Codeberg, ClickUp) expose, as plain values.
//! Timestamps are RFC3339 strings.

use vstd::prelude::*;

use crate::domain::TaskStatus;

verus! {

/// A task as it exists on a provider (GitHub issue, Codeberg issue, ClickUp task).
#[derive(Debug, Clone, PartialEq, Eq)]
pub struct RemoteTask {
    pub remote_id: String,
    pub title: String,
    pub body: String,
    pub status: TaskStatus,
    pub labels: Vec<String>,
    pub html_url: Option<String>,
    pub remote_updated_at: String,
}

#[derive(Debug, Clone, PartialEq, Eq)]
pub struct RemoteDraft {
    pub title: String,
    pub body: String,
    pub labels: Vec<String>,
}

/// A repository as exposed by a provider (e.g. a GitHub repo).
#[derive(Debug, Clone, PartialEq, Eq)]
pub struct RemoteRepo {
    pub id: String,
    pub full_name: String, // "owner/name"
    pub description: Option<String>,
    pub html_url: String,
    pub stars: u64,
    pub open_issues: u64,
    pub language: Option<String>,
    pub is_private: bool,
    pub is_fork: bool,
    pub updated_at: String,
}

/// A label on a GitHub issue or PR (name + hex color, no leading `#`).
#[derive(Debug, Clone, PartialEq, Eq)]
pub struct RemoteLabel {
    pub name: String,
    pub color: String,
}

/// An issue as surfaced by the dashboard (via the GitHub Search API).
#[derive(Debug, Clone, PartialEq, Eq)]
pub struct RemoteIssue {
    pub number: u64,
    pub title: String,
    pub html_url: String,
    pub state: String, // "open" | "closed"
    pub author_login: String,
    pub author_avatar_url: Option<String>,
    pub repo_name_with_owner: String, // "owner/name"
    pub created_at: String,
    pub updated_at: String,
    pub comments_count: u64,
    pub labels: Vec<RemoteLabel>,
    pub assignees: Vec<String>, // logins
}

/// A pull request as surfaced by the dashboard (via the GitHub Search API).
#[derive(Debug, Clone, PartialEq, Eq)]
pub struct RemotePullRequest {
    pub number: u64,
    pub title: String,
    pub html_url: String,
    pub state: String,
    pub author_login: String,
    pub author_avatar_url: Option<String>,
    pub repo_name_with_owner: String,
    pub created_at: String,
    pub updated_at: String,
    pub comments_count: u64,
    pub labels: Vec<RemoteLabel>,
    pub assignees: Vec<String>,
    pub is_draft: bool,
}

/// A GitHub user reference (login + optional avatar). Used for assignees,
/// the people asked to look at a pull request, and comment authors in the detail views.
#[derive(Debug, Clone, PartialEq, Eq)]
pub struct RemoteUser {
    pub login: String,
    pub avatar_url: Option<String>,
}

/// A single comment on an issue or PR (the issue-comment timeline).
#[derive(Debug, Clone, PartialEq, Eq)]
pub struct RemoteComment {
    pub id: u64,
    pub author_login: String,
    pub author_avatar_url: Option<String>,
    pub body: String,
    pub created_at: String,
    pub updated_at: String,
    pub html_url: String,
}

/// A single PR review (approval/changes/comment) with its overall state.
#[derive(Debug, Clone, PartialEq, Eq)]
pub struct RemoteReview {
    pub id: u64,
    pub reviewer_login: String,
    pub reviewer_avatar_url: Option<String>,
    /// "APPROVED" | "CHANGES_REQUESTED" | "COMMENTED" | "DISMISSED" | "PENDING"
    pub state: String,
    pub body: Option<String>,
    pub submitted_at: Option<String>,
    pub html_url: String,
}

/// Full detail for a single issue (in-app issue detail view).
#[derive(Debug, Clone, PartialEq, Eq)]
pub struct RemoteIssueDetail {
    pub number: u64,
    pub title: String,
    pub body: Option<String>,
    pub html_url: String,
    pub state: String, // "open" | "closed"
    pub author_login: String,
    pub author_avatar_url: Option<String>,
    pub repo_name_with_owner: String, // "owner/name"
    pub created_at: String,
    pub updated_at: String,
    pub closed_at: Option<String>,
    pub comments_count: u64,
    pub labels: Vec<RemoteLabel>,
    pub assignees: Vec<RemoteUser>,
    pub milestone_title: Option<String>,
}

/// Full detail for a single pull request (in-app PR detail view). Carries all
/// of [`RemoteIssueDetail`] plus PR-specific fields (merge state, diffstat, refs,
/// and the people asked to look at it).
#[derive(Debug, Clone, PartialEq, Eq)]
pub struct RemotePullRequestDetail {
    pub number: u64,
    pub title: String,
    pub body: Option<String>,
    pub html_url: String,
    pub state: String,
    pub author_login: String,
    pub author_avatar_url: Option<String>,
    pub repo_name_with_owner: String,
    pub created_at: String,
    pub updated_at: String,
    pub closed_at: Option<String>,
    pub comments_count: u64,
    pub labels: Vec<RemoteLabel>,
    pub assignees: Vec<RemoteUser>,
    pub milestone_title: Option<String>,
    pub is_draft: bool,
    pub merged: bool,
    pub mergeable_state: Option<String>,
    pub base_ref: String,
    pub head_ref: String,
    pub additions: Option<u64>,
    pub deletions: Option<u64>,
    pub changed_files: Option<u64>,
    pub commits: Option<u64>,
    pub requested_reviewers: Vec<RemoteUser>,
    pub requested_teams: Vec<String>, // team slugs
}

/// A single code-search hit (gitdeck repo modal "Mentions" tab, code search).
#[derive(Debug, Clone, PartialEq, Eq)]
pub struct RemoteCodeHit {
    pub repo_name_with_owner: String, // "owner/name"
    pub path: String,
    pub html_url: String,
    pub name: String,
}

/// A GitHub notification thread (for the Inbox view).
#[derive(Debug, Clone, PartialEq, Eq)]
pub struct RemoteNotification {
    pub id: String, // thread id
    pub repo_name_with_owner: String,
    pub subject_title: String,
    pub subject_type: String, // "Issue" | "PullRequest" | "Release" | ...
    pub subject_url: Option<String>, // api url; may need converting to html later — keep raw
    pub reason: String,
    pub unread: bool,
    pub updated_at: String,
}

/// A GitHub Actions workflow run (for the CI Health view).
#[derive(Debug, Clone, PartialEq, Eq)]
pub struct RemoteWorkflowRun {
    pub id: u64,
    pub name: Option<String>,
    pub head_branch: Option<String>,
    pub status: String, // "queued" | "in_progress" | "completed"
    pub conclusion: Option<String>, // "success" | "failure" | "cancelled" | ...
    pub html_url: String,
    pub created_at: String,
    pub updated_at: String,
    pub event: Option<String>,
}

/// Full detail for a single repository (gitdeck "Repository Details" view).
#[derive(Debug, Clone, PartialEq, Eq)]
pub struct RemoteRepoDetail {
    pub full_name: String,
    pub description: Option<String>,
    pub html_url: String,
    pub homepage: Option<String>,
    pub language: Option<String>,
    pub stars: u64,
    pub forks: u64,
    pub open_issues: u64,
    pub watchers: u64,
    pub default_branch: String,
    pub license: Option<String>, // spdx id or name
    pub topics: Vec<String>,
    pub owner_login: String,
    pub owner_avatar_url: Option<String>,
    pub is_private: bool,
    pub is_fork: bool,
    pub is_archived: bool,
    pub size: u64,
    pub pushed_at: Option<String>,
    pub created_at: Option<String>,
    pub updated_at: Option<String>,
}

/// A GitHub release for a repository.
#[derive(Debug, Clone, PartialEq, Eq)]
pub struct RemoteRelease {
    pub id: u64,
    pub tag_name: String,
    pub name: Option<String>,
    pub html_url: String,
    pub body: Option<String>,
    pub draft: bool,
    pub prerelease: bool,
    pub published_at: Option<String>,
    pub author_login: Option<String>,
}

/// A fork of a repository.
#[derive(Debug, Clone, PartialEq, Eq)]
pub struct RemoteFork {
    pub full_name: String,
    pub html_url: String,
    pub stars: u64,
    pub pushed_at: Option<String>,
    pub owner_login: String,
}

/// A contributor to a repository.
#[derive(Debug, Clone, PartialEq, Eq)]
pub struct RemoteContributor {
    pub login: String,
    pub avatar_url: Option<String>,
    pub html_url: String,
    pub contributions: u64,
}

/// A language used in a repository (name + bytes of code).
#[derive(Debug, Clone, PartialEq, Eq)]
pub struct RemoteLanguage {
    pub name: String,
    pub bytes: u64,
}

/// A single day of repository traffic (views or clones).
#[derive(Debug, Clone, PartialEq, Eq)]
pub struct RemoteTrafficDay {
    pub timestamp: String,
    pub count: u64,
    pub uniques: u64,
}

/// Repository traffic totals plus a per-day breakdown. Used for BOTH the
/// views and clones endpoints (they share the same shape).
#[derive(Debug, Clone, PartialEq, Eq)]
pub struct RemoteTraffic {
    pub count: u64,
    pub uniques: u64,
    pub days: Vec<RemoteTrafficDay>,
}

/// A popular referrer for a repository (traffic view).
#[derive(Debug, Clone, PartialEq, Eq)]
pub struct RemoteReferrer {
    pub referrer: String,
    pub count: u64,
    pub uniques: u64,
}

/// A popular content path for a repository (traffic view).
#[derive(Debug, Clone, PartialEq, Eq)]
pub struct RemotePath {
    pub path: String,
    pub title: String,
    pub count: u64,
    pub uniques: u64,
}

#[derive(Debug, Clone, PartialEq, Eq)]
pub struct RemotePatch {
    pub title: Option<String>,
    pub body: Option<String>,
    pub status: Option<TaskStatus>,
    pub labels: Option<Vec<String>>,
}

/// A provider call failed (its message).
#[derive(Debug, Clone, PartialEq, Eq)]
pub struct ProviderError(pub String);

} // verus!
