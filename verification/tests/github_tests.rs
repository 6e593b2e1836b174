use newt_todo::domain::TaskStatus;
use newt_todo::gh_payload::{
    sort_languages, state_of_status, status_of_state, tasks_from_issues, GhIssue, GhLabel, GhRepo,
};
use newt_todo::github::{
    clamp_per_page, encode_label, is_no_traffic_access, repo_name_with_owner, GitHubProvider,
};
use newt_todo::provider::RemoteLanguage;

fn provider() -> GitHubProvider {
    GitHubProvider::new(
        "https://api.github.com".to_string(),
        "gho_x".to_string(),
        "o".to_string(),
        "r".to_string(),
    )
}

#[test]
fn repo_name_with_owner_derives_last_two_segments() {
    assert_eq!(
        repo_name_with_owner("https://api.github.com/repos/o/r"),
        "o/r"
    );
    assert_eq!(
        repo_name_with_owner("https://api.github.com/repos/octo-org/some-repo/"),
        "octo-org/some-repo"
    );
}

#[test]
fn endpoint_urls_follow_the_rest_layout() {
    let p = provider();
    assert_eq!(p.issues_url(), "https://api.github.com/repos/o/r/issues");
    assert_eq!(p.task_url("7"), "https://api.github.com/repos/o/r/issues/7");
    assert_eq!(p.repos_url(), "https://api.github.com/user/repos");
    assert_eq!(p.search_issues_url(), "https://api.github.com/search/issues");
    assert_eq!(p.notifications_url(), "https://api.github.com/notifications");
    assert_eq!(p.notification_thread_url("99"), "https://api.github.com/notifications/threads/99");
    assert_eq!(p.workflow_runs_url("a", "b"), "https://api.github.com/repos/a/b/actions/runs");
    assert_eq!(p.issue_comments_url("a", "b", 12), "https://api.github.com/repos/a/b/issues/12/comments");
    assert_eq!(p.pull_reviews_url("a", "b", 3), "https://api.github.com/repos/a/b/pulls/3/reviews");
    assert_eq!(p.traffic_views_url("a", "b"), "https://api.github.com/repos/a/b/traffic/views");
    assert_eq!(p.bearer(), "Bearer gho_x");
}

#[test]
fn label_urls_percent_encode_the_label() {
    let p = provider();
    assert_eq!(
        p.issue_label_url("a", "b", 5, "good first issue"),
        "https://api.github.com/repos/a/b/issues/5/labels/good%20first%20issue"
    );
}

#[test]
fn encode_label_keeps_unreserved_bytes_only() {
    assert_eq!(encode_label("bug"), "bug");
    assert_eq!(encode_label("a-b_c.d~e"), "a-b_c.d~e");
    assert_eq!(encode_label("a/b"), "a%2Fb");
    assert_eq!(encode_label("ü"), "%C3%BC");
    assert_eq!(encode_label(""), "");
}

#[test]
fn per_page_is_clamped() {
    assert_eq!(clamp_per_page(0, 30), 1);
    assert_eq!(clamp_per_page(10, 30), 10);
    assert_eq!(clamp_per_page(500, 30), 30);
    assert_eq!(clamp_per_page(500, 100), 100);
}

#[test]
fn traffic_needs_push_access() {
    assert!(is_no_traffic_access(403));
    assert!(is_no_traffic_access(404));
    assert!(!is_no_traffic_access(200));
    assert!(!is_no_traffic_access(500));
}

#[test]
fn issue_states_map_to_statuses() {
    assert_eq!(status_of_state("closed"), TaskStatus::Done);
    assert_eq!(status_of_state("open"), TaskStatus::Open);
    assert_eq!(status_of_state("whatever"), TaskStatus::Open);
    assert_eq!(state_of_status(TaskStatus::Done), "closed");
    assert_eq!(state_of_status(TaskStatus::Open), "open");
}

fn issue(number: u64, state: &str, pr: bool) -> GhIssue {
    GhIssue {
        number,
        title: format!("issue {number}"),
        body: None,
        state: state.into(),
        html_url: format!("https://github.com/o/r/issues/{number}"),
        updated_at: "2026-06-15T10:00:00Z".into(),
        labels: vec![GhLabel { name: "bug".into() }],
        pull_request: pr,
    }
}

#[test]
fn list_tasks_filters_pull_requests() {
    let tasks = tasks_from_issues(vec![issue(1, "open", false), issue(2, "open", true), issue(3, "closed", false)]).unwrap();
    assert_eq!(tasks.len(), 2);
    assert_eq!(tasks[0].remote_id, "1");
    assert_eq!(tasks[1].remote_id, "3");
    assert_eq!(tasks[1].status, TaskStatus::Done);
    assert_eq!(tasks[0].body, "");
    assert_eq!(tasks[0].labels, vec!["bug".to_string()]);
    assert_eq!(tasks[0].html_url.as_deref(), Some("https://github.com/o/r/issues/1"));
}

#[test]
fn a_bad_timestamp_fails_the_listing() {
    let mut bad = issue(4, "open", false);
    bad.updated_at = "yesterday".into();
    let err = tasks_from_issues(vec![issue(1, "open", false), bad]).unwrap_err();
    assert!(err.0.starts_with("bad updated_at: "), "{}", err.0);
}

#[test]
fn repos_map_ids_as_decimal() {
    let r = GhRepo {
        id: 100,
        full_name: "o/alpha".into(),
        description: Some("the alpha repo".into()),
        html_url: "https://github.com/o/alpha".into(),
        stargazers_count: 5,
        open_issues_count: 1,
        language: Some("Rust".into()),
        private: false,
        fork: false,
        updated_at: "2026-06-15T10:00:00Z".into(),
    }
    .into_remote()
    .unwrap();
    assert_eq!(r.id, "100");
    assert_eq!(r.full_name, "o/alpha");
    assert_eq!((r.stars, r.open_issues), (5, 1));
}

#[test]
fn languages_sort_by_bytes_then_name() {
    let langs = vec![
        RemoteLanguage { name: "Shell".into(), bytes: 10 },
        RemoteLanguage { name: "Rust".into(), bytes: 900 },
        RemoteLanguage { name: "C".into(), bytes: 10 },
    ];
    let sorted = sort_languages(langs);
    let names: Vec<&str> = sorted.iter().map(|l| l.name.as_str()).collect();
    assert_eq!(names, vec!["Rust", "C", "Shell"]);
}

use newt_todo::provider::{RemoteDraft, RemotePatch};
use newt_todo::requests::{is_absent, HttpMethod, JsonBody};

fn q(r: &newt_todo::requests::ApiRequest) -> Vec<(&str, &str)> {
    r.query.iter().map(|(k, v)| (k.as_str(), v.as_str())).collect()
}

#[test]
fn every_request_carries_auth_and_agent_headers() {
    let h = provider().headers();
    let h: Vec<(&str, &str)> = h.iter().map(|(k, v)| (k.as_str(), v.as_str())).collect();
    assert_eq!(
        h,
        vec![
            ("Authorization", "Bearer gho_x"),
            ("Accept", "application/vnd.github+json"),
            ("User-Agent", "newt-todo")
        ]
    );
}

#[test]
fn list_tasks_asks_for_all_states() {
    let r = provider().list_tasks_request();
    assert_eq!(r.method, HttpMethod::Get);
    assert_eq!(r.url, "https://api.github.com/repos/o/r/issues");
    assert_eq!(q(&r), vec![("state", "all"), ("per_page", "100")]);
    assert_eq!(r.body, None);
}

#[test]
fn update_task_maps_closed_to_done() {
    let r = provider().update_task_request(
        "1",
        RemotePatch {
            title: Some("hi".into()),
            body: None,
            status: Some(TaskStatus::Done),
            labels: Some(vec!["x".into()]),
        },
    );
    assert_eq!(r.method, HttpMethod::Patch);
    assert_eq!(r.url, "https://api.github.com/repos/o/r/issues/1");
    assert_eq!(
        r.body,
        Some(JsonBody::IssuePatch {
            title: Some("hi".into()),
            body: None,
            state: Some("closed".into()),
            labels: Some(vec!["x".into()]),
        })
    );
}

#[test]
fn create_task_posts_the_draft() {
    let r = provider().create_task_request(RemoteDraft { title: "t".into(), body: "b".into(), labels: vec![] });
    assert_eq!(r.method, HttpMethod::Post);
    assert_eq!(
        r.body,
        Some(JsonBody::NewIssue { title: "t".into(), body: "b".into(), labels: vec![] })
    );
}

#[test]
fn search_code_clamps_per_page() {
    let r = provider().search_request(false, "search_code in:file", 500);
    assert_eq!(r.url, "https://api.github.com/search/code");
    assert_eq!(q(&r), vec![("q", "search_code in:file"), ("per_page", "30")]);
    let r = provider().search_request(true, "mentions:@me repo:octo/widgets", 0);
    assert_eq!(r.url, "https://api.github.com/search/issues");
    assert_eq!(q(&r), vec![("q", "mentions:@me repo:octo/widgets"), ("per_page", "1")]);
}

#[test]
fn involved_searches_use_fixed_queries() {
    let r = provider().involved_request(false);
    assert_eq!(q(&r), vec![("q", "is:issue involves:@me"), ("sort", "updated"), ("per_page", "50")]);
    let r = provider().involved_request(true);
    assert_eq!(q(&r)[0], ("q", "is:pr involves:@me"));
}

#[test]
fn list_issue_comments_clamps_per_page() {
    let r = provider().list_issue_comments_request("o", "r", 7, 1000);
    assert_eq!(r.url, "https://api.github.com/repos/o/r/issues/7/comments");
    assert_eq!(q(&r), vec![("per_page", "100")]);
    let r = provider().list_workflow_runs_request("o", "r", 50);
    assert_eq!(q(&r), vec![("per_page", "20")]);
}

#[test]
fn triage_requests_carry_their_bodies() {
    let p = provider();
    let r = p.set_issue_state_request("o", "r", 3, "closed");
    assert_eq!((r.method, r.body), (HttpMethod::Patch, Some(JsonBody::State("closed".into()))));
    let r = p.add_issue_labels_request("o", "r", 3, vec!["bug".into()]);
    assert_eq!(r.url, "https://api.github.com/repos/o/r/issues/3/labels");
    let r = p.remove_issue_label_request("o", "r", 3, "needs triage");
    assert_eq!(r.method, HttpMethod::Delete);
    assert_eq!(r.url, "https://api.github.com/repos/o/r/issues/3/labels/needs%20triage");
    let r = p.create_issue_comment_request("o", "r", 3, "thanks!");
    assert_eq!(r.body, Some(JsonBody::Comment("thanks!".into())));
    let r = p.mark_notification_read_request("42");
    assert_eq!((r.method, r.url.as_str()), (HttpMethod::Patch, "https://api.github.com/notifications/threads/42"));
}

#[test]
fn detail_requests_pick_issue_or_pull() {
    let p = provider();
    assert_eq!(p.item_request("o", "r", 9, false).url, "https://api.github.com/repos/o/r/issues/9");
    assert_eq!(p.item_request("o", "r", 9, true).url, "https://api.github.com/repos/o/r/pulls/9");
    assert_eq!(p.traffic_request("o", "r", true).url, "https://api.github.com/repos/o/r/traffic/clones");
    assert_eq!(p.popular_request("o", "r", true).url, "https://api.github.com/repos/o/r/traffic/popular/paths");
    assert_eq!(q(&p.list_forks_request("o", "r", 5)), vec![("sort", "stargazers"), ("per_page", "5")]);
    assert!(is_absent(404));
    assert!(!is_absent(403));
}

use newt_todo::gh_payload::{
    GhLicense, GhNotification, GhNotificationRepo, GhNotificationSubject, GhOwner, GhRepoDetail,
    GhReview, GhUser,
};

fn repo_detail(license: Option<GhLicense>, owner: Option<GhOwner>) -> GhRepoDetail {
    GhRepoDetail {
        full_name: "o/r".into(),
        description: None,
        html_url: "https://github.com/o/r".into(),
        homepage: Some(String::new()),
        language: None,
        stargazers_count: 3,
        forks_count: 1,
        open_issues_count: 0,
        watchers_count: 3,
        default_branch: "main".into(),
        license,
        topics: vec!["cli".into()],
        owner,
        private: false,
        fork: false,
        archived: true,
        size: 10,
        pushed_at: None,
        created_at: None,
        updated_at: None,
    }
}

#[test]
fn get_repo_detail_maps_license_spdx() {
    let r = repo_detail(
        Some(GhLicense { spdx_id: Some("MIT".into()), name: Some("MIT License".into()) }),
        None,
    )
    .into_remote();
    assert_eq!(r.license.as_deref(), Some("MIT"));
}

#[test]
fn get_repo_detail_license_noassertion_falls_back_to_name() {
    let r = repo_detail(
        Some(GhLicense { spdx_id: Some("NOASSERTION".into()), name: Some("Other".into()) }),
        None,
    )
    .into_remote();
    assert_eq!(r.license.as_deref(), Some("Other"));
}

#[test]
fn get_repo_detail_maps_payload_null_safe() {
    let r = repo_detail(None, None).into_remote();
    assert_eq!(r.license, None);
    assert_eq!(r.owner_login, "");
    assert_eq!(r.owner_avatar_url, None);
    assert_eq!(r.homepage, None, "an empty homepage is no homepage");
    assert!(r.is_archived);
    let r = repo_detail(None, Some(GhOwner { login: "o".into(), avatar_url: Some("a".into()) })).into_remote();
    assert_eq!(r.owner_login, "o");
}

#[test]
fn list_notifications_maps_payload() {
    let n = GhNotification {
        id: "1".into(),
        repository: Some(GhNotificationRepo { full_name: "o/r".into() }),
        subject: GhNotificationSubject {
            title: "Fix it".into(),
            subject_type: "PullRequest".into(),
            url: None,
        },
        reason: "review_requested".into(),
        unread: true,
        updated_at: "2026-06-15T10:00:00Z".into(),
    }
    .into_remote();
    assert_eq!(n.repo_name_with_owner, "o/r");
    assert_eq!(n.subject_type, "PullRequest");
    assert!(n.unread);
}

#[test]
fn list_pull_reviews_maps_states_and_null_body() {
    let r = GhReview {
        id: 5,
        user: Some(GhUser { login: "bob".into(), avatar_url: None }),
        state: "APPROVED".into(),
        body: Some(String::new()),
        submitted_at: None,
        html_url: "u".into(),
    }
    .into_remote();
    assert_eq!(r.reviewer_login, "bob");
    assert_eq!(r.state, "APPROVED");
    assert_eq!(r.body, None);
    let r = GhReview { id: 6, user: None, state: "COMMENTED".into(), body: Some("ok".into()), submitted_at: None, html_url: "u".into() }.into_remote();
    assert_eq!(r.reviewer_login, "");
    assert_eq!(r.body.as_deref(), Some("ok"));
}
