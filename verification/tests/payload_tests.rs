use newt_todo::domain::TaskStatus;
use newt_todo::gh_payload::{
    sort_languages, GhCodeRepository, GhCodeSearchItem, GhContributor, GhDetailLabel, GhFork,
    GhIssue, GhIssueComment, GhIssueDetail, GhLabel, GhMilestone, GhOwner, GhPath, GhPullDetail,
    GhRef, GhReferrer, GhRelease, GhReleaseAuthor, GhRepo, GhSearchAssignee, GhSearchItem,
    GhSearchLabel, GhSearchUser, GhTeam, GhTrafficClones, GhTrafficDay, GhTrafficViews, GhUser,
    GhWorkflowRun,
};
use newt_todo::github::{is_no_traffic_access, GitHubProvider};
use newt_todo::provider::{RemoteDraft, RemoteLanguage};
use newt_todo::requests::{is_absent, HttpMethod, JsonBody};

fn provider() -> GitHubProvider {
    GitHubProvider::new(
        "https://api.github.com".to_string(),
        "gho_x".to_string(),
        "o".to_string(),
        "r".to_string(),
    )
}

fn query(r: &newt_todo::requests::ApiRequest) -> Vec<(&str, &str)> {
    r.query.iter().map(|(k, v)| (k.as_str(), v.as_str())).collect()
}

#[test]
fn create_task_posts_and_maps() {
    let r = provider().create_task_request(RemoteDraft {
        title: "new".into(),
        body: "made".into(),
        labels: vec!["feature".into()],
    });
    assert_eq!(r.method, HttpMethod::Post);
    assert_eq!(r.url, "https://api.github.com/repos/o/r/issues");
    let reply = GhIssue {
        number: 7,
        title: "new".into(),
        body: Some("made".into()),
        state: "open".into(),
        html_url: "https://github.com/o/r/issues/7".into(),
        updated_at: "2026-06-15T12:00:00Z".into(),
        labels: vec![GhLabel { name: "feature".into() }],
        pull_request: false,
    };
    let task = reply.into_remote().unwrap();
    assert_eq!(task.remote_id, "7");
    assert_eq!(task.title, "new");
    assert_eq!(task.labels, vec!["feature".to_string()]);
    assert_eq!(task.status, TaskStatus::Open);
}

#[test]
fn list_repos_maps_github_repos() {
    let alpha = GhRepo {
        id: 100,
        full_name: "o/alpha".into(),
        description: Some("the alpha repo".into()),
        html_url: "https://github.com/o/alpha".into(),
        stargazers_count: 42,
        open_issues_count: 3,
        language: Some("Rust".into()),
        private: false,
        fork: false,
        updated_at: "2026-06-15T10:00:00Z".into(),
    }
    .into_remote()
    .unwrap();
    let beta = GhRepo {
        id: 200,
        full_name: "o/beta-fork".into(),
        description: None,
        html_url: "https://github.com/o/beta-fork".into(),
        stargazers_count: 1,
        open_issues_count: 0,
        language: None,
        private: true,
        fork: true,
        updated_at: "2026-06-14T10:00:00Z".into(),
    }
    .into_remote()
    .unwrap();
    assert_eq!(alpha.full_name, "o/alpha");
    assert_eq!(alpha.stars, 42);
    assert_eq!(alpha.open_issues, 3);
    assert_eq!(alpha.language.as_deref(), Some("Rust"));
    assert!(!alpha.is_fork);
    assert!(!alpha.is_private);
    assert_eq!(beta.full_name, "o/beta-fork");
    assert_eq!(beta.stars, 1);
    assert!(beta.is_fork);
    assert!(beta.is_private);
    assert_eq!(beta.language, None);
    assert_eq!(beta.description, None);
}

fn search_item(draft: bool) -> GhSearchItem {
    GhSearchItem {
        number: 42,
        title: "a bug".into(),
        html_url: "https://github.com/o/r/issues/42".into(),
        state: "open".into(),
        user: Some(GhSearchUser { login: "alice".into(), avatar_url: Some("https://avatars/alice.png".into()) }),
        comments: 3,
        labels: vec![GhSearchLabel { name: "bug".into(), color: "d73a4a".into() }],
        assignees: vec![GhSearchAssignee { login: "bob".into() }],
        created_at: "2026-06-10T10:00:00Z".into(),
        updated_at: "2026-06-15T10:00:00Z".into(),
        repository_url: "https://api.github.com/repos/o/r".into(),
        draft,
    }
}

#[test]
fn list_issues_maps_search_items() {
    let r = provider().involved_request(false);
    assert_eq!(r.url, "https://api.github.com/search/issues");
    assert_eq!(query(&r)[0], ("q", "is:issue involves:@me"));
    let i = search_item(false).into_issue().unwrap();
    assert_eq!(i.number, 42);
    assert_eq!(i.repo_name_with_owner, "o/r");
    assert_eq!(i.state, "open");
    assert_eq!(i.author_login, "alice");
    assert_eq!(i.author_avatar_url.as_deref(), Some("https://avatars/alice.png"));
    assert_eq!(i.comments_count, 3);
    assert_eq!(i.labels.len(), 1);
    assert_eq!(i.labels[0].name, "bug");
    assert_eq!(i.labels[0].color, "d73a4a");
    assert_eq!(i.assignees, vec!["bob".to_string()]);
}

#[test]
fn list_pull_requests_maps_draft_and_repo() {
    let r = provider().involved_request(true);
    assert_eq!(query(&r)[0], ("q", "is:pr involves:@me"));
    let mut item = search_item(true);
    item.number = 7;
    item.user = Some(GhSearchUser { login: "carol".into(), avatar_url: None });
    item.comments = 1;
    item.repository_url = "https://api.github.com/repos/octo/widgets".into();
    let pr = item.into_pull_request().unwrap();
    assert_eq!(pr.number, 7);
    assert!(pr.is_draft);
    assert_eq!(pr.repo_name_with_owner, "octo/widgets");
    assert_eq!(pr.author_login, "carol");
    assert_eq!(pr.author_avatar_url, None);
    assert_eq!(pr.comments_count, 1);
}

#[test]
fn search_code_forwards_query_and_maps_items() {
    let r = provider().search_request(false, "fn main", 30);
    assert_eq!(r.url, "https://api.github.com/search/code");
    assert_eq!(query(&r)[0], ("q", "fn main"));
    let hit = GhCodeSearchItem {
        name: "github.rs".into(),
        path: "crates/providers/src/github.rs".into(),
        html_url: "https://github.com/o/r/blob/main/crates/providers/src/github.rs".into(),
        repository: GhCodeRepository { full_name: "o/r".into() },
    }
    .into_remote();
    assert_eq!(hit.repo_name_with_owner, "o/r");
    assert_eq!(hit.path, "crates/providers/src/github.rs");
    assert_eq!(hit.name, "github.rs");
}

#[test]
fn list_workflow_runs_maps_payload() {
    let r0 = GhWorkflowRun {
        id: 111,
        name: Some("CI".into()),
        head_branch: Some("main".into()),
        status: "completed".into(),
        conclusion: Some("success".into()),
        html_url: "https://github.com/o/r/actions/runs/111".into(),
        created_at: "2026-06-15T10:00:00Z".into(),
        updated_at: "2026-06-15T10:05:00Z".into(),
        event: Some("push".into()),
    }
    .into_remote();
    assert_eq!(r0.id, 111);
    assert_eq!(r0.name.as_deref(), Some("CI"));
    assert_eq!(r0.head_branch.as_deref(), Some("main"));
    assert_eq!(r0.status, "completed");
    assert_eq!(r0.conclusion.as_deref(), Some("success"));
    assert_eq!(r0.event.as_deref(), Some("push"));
    let r1 = GhWorkflowRun {
        id: 222,
        name: Some("CI".into()),
        head_branch: Some("feature".into()),
        status: "in_progress".into(),
        conclusion: None,
        html_url: "https://github.com/o/r/actions/runs/222".into(),
        created_at: "2026-06-15T11:00:00Z".into(),
        updated_at: "2026-06-15T11:01:00Z".into(),
        event: Some("pull_request".into()),
    }
    .into_remote();
    assert_eq!(r1.id, 222);
    assert_eq!(r1.status, "in_progress");
    assert_eq!(r1.conclusion, None);
}

#[test]
fn list_releases_maps_payload_null_name() {
    let first = GhRelease {
        id: 1,
        tag_name: "v1.0.0".into(),
        name: Some("First release".into()),
        html_url: "https://github.com/o/r/releases/v1.0.0".into(),
        body: Some("notes".into()),
        draft: false,
        prerelease: false,
        published_at: Some("2026-06-15T10:00:00Z".into()),
        author: Some(GhReleaseAuthor { login: "alice".into() }),
    }
    .into_remote();
    let rc = GhRelease {
        id: 2,
        tag_name: "v1.1.0-rc1".into(),
        name: None,
        html_url: "https://github.com/o/r/releases/v1.1.0-rc1".into(),
        body: None,
        draft: true,
        prerelease: true,
        published_at: None,
        author: None,
    }
    .into_remote();
    assert_eq!(first.tag_name, "v1.0.0");
    assert_eq!(first.name.as_deref(), Some("First release"));
    assert_eq!(first.author_login.as_deref(), Some("alice"));
    assert!(!first.draft);
    assert_eq!(rc.name, None);
    assert_eq!(rc.body, None);
    assert_eq!(rc.published_at, None);
    assert_eq!(rc.author_login, None);
    assert!(rc.draft);
    assert!(rc.prerelease);
}

#[test]
fn list_forks_maps_payload() {
    let r = provider().list_forks_request("o", "r", 30);
    assert_eq!(r.url, "https://api.github.com/repos/o/r/forks");
    assert_eq!(query(&r)[0], ("sort", "stargazers"));
    let f = GhFork {
        full_name: "fork-owner/r".into(),
        html_url: "https://github.com/fork-owner/r".into(),
        stargazers_count: 9,
        pushed_at: Some("2026-06-14T10:00:00Z".into()),
        owner: Some(GhOwner { login: "fork-owner".into(), avatar_url: None }),
    }
    .into_remote();
    assert_eq!(f.full_name, "fork-owner/r");
    assert_eq!(f.stars, 9);
    assert_eq!(f.owner_login, "fork-owner");
    assert_eq!(f.pushed_at.as_deref(), Some("2026-06-14T10:00:00Z"));
}

#[test]
fn list_contributors_maps_payload() {
    let alice = GhContributor {
        login: "alice".into(),
        avatar_url: Some("https://avatars/alice.png".into()),
        html_url: "https://github.com/alice".into(),
        contributions: 120,
    }
    .into_remote();
    let bob = GhContributor {
        login: "bob".into(),
        avatar_url: None,
        html_url: "https://github.com/bob".into(),
        contributions: 5,
    }
    .into_remote();
    assert_eq!(alice.login, "alice");
    assert_eq!(alice.contributions, 120);
    assert_eq!(alice.avatar_url.as_deref(), Some("https://avatars/alice.png"));
    assert_eq!(bob.login, "bob");
    assert_eq!(bob.avatar_url, None);
}

#[test]
fn get_languages_maps_object_to_sorted_vec() {
    let langs = sort_languages(vec![
        RemoteLanguage { name: "Rust".into(), bytes: 50000 },
        RemoteLanguage { name: "TypeScript".into(), bytes: 12000 },
        RemoteLanguage { name: "CSS".into(), bytes: 30000 },
    ]);
    assert_eq!(langs.len(), 3);
    assert_eq!((langs[0].name.as_str(), langs[0].bytes), ("Rust", 50000));
    assert_eq!((langs[1].name.as_str(), langs[1].bytes), ("CSS", 30000));
    assert_eq!((langs[2].name.as_str(), langs[2].bytes), ("TypeScript", 12000));
}

fn day(ts: &str, count: u64, uniques: u64) -> GhTrafficDay {
    GhTrafficDay { timestamp: ts.into(), count, uniques }
}

#[test]
fn get_traffic_views_maps_payload() {
    let t = GhTrafficViews {
        count: 1400,
        uniques: 506,
        views: vec![day("2026-06-14T00:00:00Z", 100, 40), day("2026-06-15T00:00:00Z", 80, 30)],
    }
    .into_remote();
    assert_eq!(t.count, 1400);
    assert_eq!(t.uniques, 506);
    assert_eq!(t.days.len(), 2);
    assert_eq!(t.days[0].timestamp, "2026-06-14T00:00:00Z");
    assert_eq!(t.days[0].count, 100);
    assert_eq!(t.days[0].uniques, 40);
    assert_eq!(t.days[1].count, 80);
}

#[test]
fn get_traffic_clones_maps_payload() {
    let t = GhTrafficClones { count: 173, uniques: 128, clones: vec![day("2026-06-14T00:00:00Z", 10, 8)] }
        .into_remote();
    assert_eq!(t.count, 173);
    assert_eq!(t.uniques, 128);
    assert_eq!(t.days.len(), 1);
    assert_eq!(t.days[0].count, 10);
    assert_eq!(t.days[0].uniques, 8);
}

#[test]
fn list_referrers_maps_payload() {
    let r = provider().popular_request("o", "r", false);
    assert_eq!(r.url, "https://api.github.com/repos/o/r/traffic/popular/referrers");
    let g = GhReferrer { referrer: "Google".into(), count: 4, uniques: 3 }.into_remote();
    let h = GhReferrer { referrer: "github.com".into(), count: 2, uniques: 2 }.into_remote();
    assert_eq!(g.referrer, "Google");
    assert_eq!(g.count, 4);
    assert_eq!(g.uniques, 3);
    assert_eq!(h.referrer, "github.com");
}

#[test]
fn list_paths_maps_payload() {
    let a = GhPath { path: "/o/r".into(), title: "o/r: the repo".into(), count: 30, uniques: 12 }.into_remote();
    let b = GhPath { path: "/o/r/issues".into(), title: "Issues".into(), count: 5, uniques: 4 }.into_remote();
    assert_eq!(a.path, "/o/r");
    assert_eq!(a.title, "o/r: the repo");
    assert_eq!(a.count, 30);
    assert_eq!(a.uniques, 12);
    assert_eq!(b.path, "/o/r/issues");
}

#[test]
fn get_traffic_views_403_returns_none() {
    // No push access: the traffic endpoints answer 403, which means "no data".
    assert!(is_no_traffic_access(403));
}

#[test]
fn list_referrers_403_returns_empty() {
    assert!(is_no_traffic_access(403));
    assert!(!is_no_traffic_access(200));
}

#[test]
fn set_issue_state_patches_state() {
    let r = provider().set_issue_state_request("o", "r", 42, "closed");
    assert_eq!(r.method, HttpMethod::Patch);
    assert_eq!(r.url, "https://api.github.com/repos/o/r/issues/42");
    assert_eq!(r.body, Some(JsonBody::State("closed".into())));
}

#[test]
fn add_issue_labels_posts_labels() {
    let r = provider().add_issue_labels_request("o", "r", 42, vec!["bug".into(), "p1".into()]);
    assert_eq!(r.method, HttpMethod::Post);
    assert_eq!(r.url, "https://api.github.com/repos/o/r/issues/42/labels");
    assert_eq!(r.body, Some(JsonBody::Labels(vec!["bug".into(), "p1".into()])));
}

#[test]
fn remove_issue_label_deletes_label() {
    let r = provider().remove_issue_label_request("o", "r", 42, "bug");
    assert_eq!(r.method, HttpMethod::Delete);
    assert_eq!(r.url, "https://api.github.com/repos/o/r/issues/42/labels/bug");
    assert_eq!(r.body, None);
}

#[test]
fn remove_issue_label_404_is_ok() {
    // A label that is not on the issue answers 404: the removal is a no-op.
    assert!(is_absent(404));
    assert!(!is_absent(200));
}

#[test]
fn add_issue_assignees_posts_assignees() {
    let r = provider().add_issue_assignees_request("o", "r", 42, vec!["alice".into(), "bob".into()]);
    assert_eq!(r.method, HttpMethod::Post);
    assert_eq!(r.url, "https://api.github.com/repos/o/r/issues/42/assignees");
    assert_eq!(r.body, Some(JsonBody::Assignees(vec!["alice".into(), "bob".into()])));
}

#[test]
fn create_issue_comment_posts_body_and_returns_url() {
    let r = provider().create_issue_comment_request("o", "r", 42, "looks good to me");
    assert_eq!(r.method, HttpMethod::Post);
    assert_eq!(r.url, "https://api.github.com/repos/o/r/issues/42/comments");
    assert_eq!(r.body, Some(JsonBody::Comment("looks good to me".into())));
}

#[test]
fn mark_notification_read_patches_thread() {
    let r = provider().mark_notification_read_request("7");
    assert_eq!(r.method, HttpMethod::Patch);
    assert_eq!(r.url, "https://api.github.com/notifications/threads/7");
    assert_eq!(r.body, None);
}

fn user(login: &str, avatar: Option<&str>) -> GhUser {
    GhUser { login: login.into(), avatar_url: avatar.map(|a| a.to_string()) }
}

fn issue_detail() -> GhIssueDetail {
    GhIssueDetail {
        number: 42,
        title: "a detailed bug".into(),
        body: None,
        html_url: "https://github.com/o/r/issues/42".into(),
        state: "open".into(),
        user: Some(user("alice", Some("https://avatars/alice.png"))),
        repository_url: "https://api.github.com/repos/o/r".into(),
        created_at: "2026-06-10T10:00:00Z".into(),
        updated_at: "2026-06-15T10:00:00Z".into(),
        closed_at: None,
        comments: 4,
        labels: vec![GhDetailLabel { name: "bug".into(), color: "d73a4a".into() }],
        assignees: vec![user("bob", Some("https://avatars/bob.png")), user("carol", None)],
        milestone: Some(GhMilestone { title: Some("v1.0".into()) }),
    }
}

#[test]
fn get_issue_maps_detail() {
    let r = provider().item_request("o", "r", 42, false);
    assert_eq!(r.url, "https://api.github.com/repos/o/r/issues/42");
    let issue = issue_detail().into_remote("o", "r");
    assert_eq!(issue.number, 42);
    assert_eq!(issue.repo_name_with_owner, "o/r");
    assert_eq!(issue.body, None);
    assert_eq!(issue.author_login, "alice");
    assert_eq!(issue.comments_count, 4);
    assert_eq!(issue.labels.len(), 1);
    assert_eq!(issue.labels[0].name, "bug");
    assert_eq!(issue.labels[0].color, "d73a4a");
    assert_eq!(issue.assignees.len(), 2);
    assert_eq!(issue.assignees[0].login, "bob");
    assert_eq!(issue.assignees[0].avatar_url.as_deref(), Some("https://avatars/bob.png"));
    assert_eq!(issue.assignees[1].login, "carol");
    assert_eq!(issue.assignees[1].avatar_url, None);
    assert_eq!(issue.milestone_title.as_deref(), Some("v1.0"));
    assert_eq!(issue.closed_at, None);
}

#[test]
fn get_issue_404_returns_none() {
    assert!(is_absent(404));
}

#[test]
fn get_pull_request_maps_detail() {
    let r = provider().item_request("o", "r", 7, true);
    assert_eq!(r.url, "https://api.github.com/repos/o/r/pulls/7");
    let mut issue = issue_detail();
    issue.number = 7;
    issue.title = "a pr".into();
    issue.body = Some("fixes things".into());
    issue.user = Some(user("carol", None));
    issue.comments = 2;
    issue.labels = vec![GhDetailLabel { name: "feature".into(), color: "a2eeef".into() }];
    issue.assignees = vec![user("dave", None)];
    issue.milestone = None;
    let pr = GhPullDetail {
        issue,
        draft: true,
        merged: false,
        mergeable_state: None,
        base: Some(GhRef { ref_name: "main".into() }),
        head: Some(GhRef { ref_name: "feature-x".into() }),
        additions: Some(120),
        deletions: Some(7),
        changed_files: Some(3),
        commits: Some(5),
        requested_reviewers: vec![user("erin", Some("https://avatars/erin.png"))],
        requested_teams: vec![GhTeam { slug: "core-team".into() }],
    }
    .into_remote("o", "r");
    assert_eq!(pr.number, 7);
    assert_eq!(pr.repo_name_with_owner, "o/r");
    assert!(pr.is_draft);
    assert!(!pr.merged);
    assert_eq!(pr.mergeable_state, None);
    assert_eq!(pr.base_ref, "main");
    assert_eq!(pr.head_ref, "feature-x");
    assert_eq!(pr.additions, Some(120));
    assert_eq!(pr.deletions, Some(7));
    assert_eq!(pr.changed_files, Some(3));
    assert_eq!(pr.commits, Some(5));
    assert_eq!(pr.comments_count, 2);
    assert_eq!(pr.labels[0].name, "feature");
    assert_eq!(pr.assignees.len(), 1);
    assert_eq!(pr.assignees[0].login, "dave");
    assert_eq!(pr.requested_reviewers.len(), 1);
    assert_eq!(pr.requested_reviewers[0].login, "erin");
    assert_eq!(pr.requested_reviewers[0].avatar_url.as_deref(), Some("https://avatars/erin.png"));
    assert_eq!(pr.requested_teams, vec!["core-team".to_string()]);
}

#[test]
fn list_issue_comments_maps_payload() {
    let a = GhIssueComment {
        id: 1001,
        user: Some(user("alice", Some("https://avatars/alice.png"))),
        body: "first comment".into(),
        created_at: "2026-06-13T10:00:00Z".into(),
        updated_at: "2026-06-13T10:05:00Z".into(),
        html_url: "https://github.com/o/r/issues/42#issuecomment-1001".into(),
    }
    .into_remote();
    let b = GhIssueComment {
        id: 1002,
        user: Some(user("bob", None)),
        body: "second comment".into(),
        created_at: "2026-06-14T10:00:00Z".into(),
        updated_at: "2026-06-14T10:00:00Z".into(),
        html_url: "https://github.com/o/r/issues/42#issuecomment-1002".into(),
    }
    .into_remote();
    assert_eq!(a.id, 1001);
    assert_eq!(a.author_login, "alice");
    assert_eq!(a.author_avatar_url.as_deref(), Some("https://avatars/alice.png"));
    assert_eq!(a.body, "first comment");
    assert_eq!(a.html_url, "https://github.com/o/r/issues/42#issuecomment-1001");
    assert_eq!(b.author_login, "bob");
    assert_eq!(b.author_avatar_url, None);
}

#[test]
fn search_issues_forwards_query_and_reuses_issue_mapping() {
    let r = provider().search_request(true, "mentions:@me repo:octo/widgets", 20);
    assert_eq!(r.url, "https://api.github.com/search/issues");
    assert_eq!(query(&r), vec![("q", "mentions:@me repo:octo/widgets"), ("per_page", "20")]);
    let mut item = search_item(false);
    item.number = 99;
    item.repository_url = "https://api.github.com/repos/octo/widgets".into();
    let i = item.into_issue().unwrap();
    assert_eq!(i.number, 99);
    assert_eq!(i.repo_name_with_owner, "octo/widgets");
}

use newt_todo::requests::{body_fields, body_text, BodyValue};

#[test]
fn issue_patch_body_carries_only_changed_fields() {
    let body = JsonBody::IssuePatch { title: None, body: Some("b".into()), state: Some("closed".into()), labels: None };
    assert_eq!(
        body_fields(body.clone()),
        vec![
            ("body".to_string(), BodyValue::Text("b".into())),
            ("state".to_string(), BodyValue::Text("closed".into())),
        ]
    );
    assert_eq!(body_text(body), r#"{"body":"b","state":"closed"}"#);
}

#[test]
fn new_issue_body_has_title_body_and_labels() {
    let body = JsonBody::NewIssue { title: "t".into(), body: "".into(), labels: vec!["bug".into()] };
    assert_eq!(body_text(body), r#"{"body":"","labels":["bug"],"title":"t"}"#);
    assert_eq!(body_text(JsonBody::Labels(vec!["a".into(), "b".into()])), r#"{"labels":["a","b"]}"#);
}
