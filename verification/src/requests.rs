//! The HTTP requests the GitHub provider makes: method, URL, query and JSON
//! body of each endpoint, and what a status code means for the answer. The
//! requests are sent outside the library, with the headers of [`GitHubProvider::headers`].

use vstd::prelude::*;
use vstd::string::StringSliceAdditionalSpecFns;

use crate::gh_payload::{spec_state_of_status, state_of_status};
use crate::github::{clamp_per_page, spec_encode_label, GitHubProvider};
use crate::oauth::pairs_view;
use crate::provider::{RemoteDraft, RemotePatch};
use crate::schema::views;
use crate::text::{decimal, owned, spec_decimal};

verus! {

/// The HTTP methods the provider uses.
#[derive(Debug, Clone, Copy, PartialEq, Eq)]
pub enum HttpMethod {
    Get,
    Post,
    Patch,
    Delete,
}

/// The JSON body of a request, field by field.
#[derive(Debug, Clone, PartialEq, Eq)]
pub enum JsonBody {
    /// `{"title", "body", "labels"}` of a new issue.
    NewIssue { title: String, body: String, labels: Vec<String> },
    /// The issue fields to change: each is sent only when present.
    IssuePatch {
        title: Option<String>,
        body: Option<String>,
        state: Option<String>,
        labels: Option<Vec<String>>,
    },
    /// `{"state"}`.
    State(String),
    /// `{"labels"}`.
    Labels(Vec<String>),
    /// `{"assignees"}`.
    Assignees(Vec<String>),
    /// `{"body"}` of a comment.
    Comment(String),
}

/// One request to the GitHub REST API.
#[derive(Debug, Clone, PartialEq, Eq)]
pub struct ApiRequest {
    pub method: HttpMethod,
    pub url: String,
    pub query: Vec<(String, String)>,
    pub body: Option<JsonBody>,
}

fn pair(k: &str, v: &str) -> (r: (String, String))
    ensures
        r.0@ == k@,
        r.1@ == v@,
{
    (owned(k), owned(v))
}

fn request(method: HttpMethod, url: String, query: Vec<(String, String)>, body: Option<JsonBody>) -> (r: ApiRequest)
    ensures
        r == (ApiRequest { method, url, query, body }),
{
    ApiRequest { method, url, query, body }
}

/// A page size clamped into `1..=max`, in decimal.
pub open spec fn spec_page(per_page: u32, max: u32) -> Seq<char> {
    spec_decimal(
        (if per_page < 1 {
            1
        } else if per_page > max {
            max
        } else {
            per_page
        }) as nat,
    )
}

fn page(per_page: u32, max: u32) -> (r: String)
    requires
        1 <= max,
    ensures
        r@ == spec_page(per_page, max),
{
    decimal(clamp_per_page(per_page, max) as u64)
}

/// The one `per_page` pair of a paged listing.
fn page_query(per_page: u32, max: u32) -> (r: Vec<(String, String)>)
    requires
        1 <= max,
    ensures
        pairs_view(r@) == seq![("per_page"@, spec_page(per_page, max))],
{
    let p = page(per_page, max);
    let mut q: Vec<(String, String)> = Vec::new();
    q.push(pair("per_page", p.as_str()));
    assert(pairs_view(q@) =~= seq![("per_page"@, spec_page(per_page, max))]);
    q
}

/// Whether the request is a GET of `url` with no query and no body.
pub open spec fn plain_get(r: ApiRequest, url: Seq<char>) -> bool {
    r.method == HttpMethod::Get && r.url@ == url && r.query@.len() == 0 && r.body is None
}

/// Whether the request is a GET of `url` with the query `q` and no body.
pub open spec fn get_with(r: ApiRequest, url: Seq<char>, q: Seq<(Seq<char>, Seq<char>)>) -> bool {
    r.method == HttpMethod::Get && r.url@ == url && pairs_view(r.query@) == q && r.body is None
}

impl GitHubProvider {
    /// The headers every request carries: the bearer token, GitHub's JSON
    /// media type and the client's name.
    pub fn headers(&self) -> (r: Vec<(String, String)>)
        ensures
            pairs_view(r@) == seq![
                ("Authorization"@, "Bearer "@ + self.token@),
                ("Accept"@, "application/vnd.github+json"@),
                ("User-Agent"@, "newt-todo"@),
            ],
    {
        let mut r: Vec<(String, String)> = Vec::new();
        let b = self.bearer();
        r.push((owned("Authorization"), b));
        r.push(pair("Accept", "application/vnd.github+json"));
        r.push(pair("User-Agent", "newt-todo"));
        assert(pairs_view(r@) =~= seq![
            ("Authorization"@, "Bearer "@ + self.token@),
            ("Accept"@, "application/vnd.github+json"@),
            ("User-Agent"@, "newt-todo"@),
        ]);
        r
    }

    /// All issues of the default repo, open and closed, 100 per page.
    pub fn list_tasks_request(&self) -> (r: ApiRequest)
        ensures
            get_with(
                r,
                self.base_url@ + "/repos/"@ + self.owner@ + "/"@ + self.repo@ + "/issues"@,
                seq![("state"@, "all"@), ("per_page"@, "100"@)],
            ),
    {
        let mut q: Vec<(String, String)> = Vec::new();
        q.push(pair("state", "all"));
        q.push(pair("per_page", "100"));
        assert(pairs_view(q@) =~= seq![("state"@, "all"@), ("per_page"@, "100"@)]);
        request(HttpMethod::Get, self.issues_url(), q, None)
    }

    /// A new issue in the default repo from a task draft.
    pub fn create_task_request(&self, draft: RemoteDraft) -> (r: ApiRequest)
        ensures
            r.method == HttpMethod::Post,
            r.url@ == self.base_url@ + "/repos/"@ + self.owner@ + "/"@ + self.repo@ + "/issues"@,
            r.query@.len() == 0,
            r.body == Some(JsonBody::NewIssue { title: draft.title, body: draft.body, labels: draft.labels }),
    {
        request(
            HttpMethod::Post,
            self.issues_url(),
            Vec::new(),
            Some(JsonBody::NewIssue { title: draft.title, body: draft.body, labels: draft.labels }),
        )
    }

    /// A change of one issue of the default repo: the patch's fields, its
    /// status sent as the issue state (`closed` for done, else `open`).
    pub fn update_task_request(&self, remote_id: &str, patch: RemotePatch) -> (r: ApiRequest)
        ensures
            r.method == HttpMethod::Patch,
            r.url@ == self.base_url@ + "/repos/"@ + self.owner@ + "/"@ + self.repo@ + "/issues"@ + "/"@ + remote_id@,
            r.query@.len() == 0,
            r.body matches Some(JsonBody::IssuePatch { title, body, state, labels }) && title == patch.title
                && body == patch.body && labels == patch.labels && match patch.status {
                Some(s) => state matches Some(t) && t@ == spec_state_of_status(s),
                None => state is None,
            },
    {
        let state = match patch.status {
            Some(s) => Some(owned(state_of_status(s))),
            None => None,
        };
        request(
            HttpMethod::Patch,
            self.task_url(remote_id),
            Vec::new(),
            Some(JsonBody::IssuePatch { title: patch.title, body: patch.body, state, labels: patch.labels }),
        )
    }

    /// The repositories the token can see, most recently updated first.
    pub fn list_repos_request(&self) -> (r: ApiRequest)
        ensures
            get_with(
                r,
                self.base_url@ + "/user/repos"@,
                seq![
                    ("per_page"@, "100"@),
                    ("sort"@, "updated"@),
                    ("affiliation"@, "owner,collaborator,organization_member"@),
                ],
            ),
    {
        let mut q: Vec<(String, String)> = Vec::new();
        q.push(pair("per_page", "100"));
        q.push(pair("sort", "updated"));
        q.push(pair("affiliation", "owner,collaborator,organization_member"));
        assert(pairs_view(q@) =~= seq![
            ("per_page"@, "100"@),
            ("sort"@, "updated"@),
            ("affiliation"@, "owner,collaborator,organization_member"@),
        ]);
        request(HttpMethod::Get, self.repos_url(), q, None)
    }

    /// A search of the issues (or, with `pulls`, the pull requests) that
    /// involve the authenticated user, 50 most recently updated.
    pub fn involved_request(&self, pulls: bool) -> (r: ApiRequest)
        ensures
            get_with(
                r,
                self.base_url@ + "/search/issues"@,
                seq![
                    ("q"@, if pulls { "is:pr involves:@me"@ } else { "is:issue involves:@me"@ }),
                    ("sort"@, "updated"@),
                    ("per_page"@, "50"@),
                ],
            ),
    {
        let mut q: Vec<(String, String)> = Vec::new();
        if pulls {
            q.push(pair("q", "is:pr involves:@me"));
        } else {
            q.push(pair("q", "is:issue involves:@me"));
        }
        q.push(pair("sort", "updated"));
        q.push(pair("per_page", "50"));
        assert(pairs_view(q@) =~= seq![
            ("q"@, if pulls { "is:pr involves:@me"@ } else { "is:issue involves:@me"@ }),
            ("sort"@, "updated"@),
            ("per_page"@, "50"@),
        ]);
        request(HttpMethod::Get, self.search_issues_url(), q, None)
    }

    /// A search of code (or, with `issues`, of issues and pull requests) for
    /// `query`, at most 30 per page.
    pub fn search_request(&self, issues: bool, query: &str, per_page: u32) -> (r: ApiRequest)
        ensures
            get_with(
                r,
                self.base_url@ + (if issues { "/search/issues"@ } else { "/search/code"@ }),
                seq![("q"@, query@), ("per_page"@, spec_page(per_page, 30))],
            ),
    {
        let p = page(per_page, 30);
        let mut q: Vec<(String, String)> = Vec::new();
        q.push(pair("q", query));
        q.push(pair("per_page", p.as_str()));
        assert(pairs_view(q@) =~= seq![("q"@, query@), ("per_page"@, spec_page(per_page, 30))]);
        let url = if issues {
            self.search_issues_url()
        } else {
            self.search_code_url()
        };
        request(HttpMethod::Get, url, q, None)
    }

    /// All notification threads, read ones included, 50 per page.
    pub fn list_notifications_request(&self) -> (r: ApiRequest)
        ensures
            get_with(r, self.base_url@ + "/notifications"@, seq![("all"@, "true"@), ("per_page"@, "50"@)]),
    {
        let mut q: Vec<(String, String)> = Vec::new();
        q.push(pair("all", "true"));
        q.push(pair("per_page", "50"));
        assert(pairs_view(q@) =~= seq![("all"@, "true"@), ("per_page"@, "50"@)]);
        request(HttpMethod::Get, self.notifications_url(), q, None)
    }

    /// Marking one notification thread read.
    pub fn mark_notification_read_request(&self, thread_id: &str) -> (r: ApiRequest)
        ensures
            r.method == HttpMethod::Patch,
            r.url@ == self.base_url@ + "/notifications/threads/"@ + thread_id@,
            r.query@.len() == 0,
            r.body is None,
    {
        request(HttpMethod::Patch, self.notification_thread_url(thread_id), Vec::new(), None)
    }

    /// The recent workflow runs of a repo, at most 20.
    pub fn list_workflow_runs_request(&self, owner: &str, repo: &str, per_page: u32) -> (r: ApiRequest)
        ensures
            get_with(
                r,
                self.base_url@ + "/repos/"@ + owner@ + "/"@ + repo@ + "/actions/runs"@,
                seq![("per_page"@, spec_page(per_page, 20))],
            ),
    {
        request(HttpMethod::Get, self.workflow_runs_url(owner, repo), page_query(per_page, 20), None)
    }

    /// A repo's detail.
    pub fn repo_detail_request(&self, owner: &str, repo: &str) -> (r: ApiRequest)
        ensures
            plain_get(r, self.base_url@ + "/repos/"@ + owner@ + "/"@ + repo@),
    {
        request(HttpMethod::Get, self.repo_url(owner, repo), Vec::new(), None)
    }

    /// A repo's releases, at most 30.
    pub fn list_releases_request(&self, owner: &str, repo: &str, per_page: u32) -> (r: ApiRequest)
        ensures
            get_with(
                r,
                self.base_url@ + "/repos/"@ + owner@ + "/"@ + repo@ + "/releases"@,
                seq![("per_page"@, spec_page(per_page, 30))],
            ),
    {
        request(HttpMethod::Get, self.releases_url(owner, repo), page_query(per_page, 30), None)
    }

    /// A repo's forks, most starred first, at most 30.
    pub fn list_forks_request(&self, owner: &str, repo: &str, per_page: u32) -> (r: ApiRequest)
        ensures
            get_with(
                r,
                self.base_url@ + "/repos/"@ + owner@ + "/"@ + repo@ + "/forks"@,
                seq![("sort"@, "stargazers"@), ("per_page"@, spec_page(per_page, 30))],
            ),
    {
        let p = page(per_page, 30);
        let mut q: Vec<(String, String)> = Vec::new();
        q.push(pair("sort", "stargazers"));
        q.push(pair("per_page", p.as_str()));
        assert(pairs_view(q@) =~= seq![("sort"@, "stargazers"@), ("per_page"@, spec_page(per_page, 30))]);
        request(HttpMethod::Get, self.forks_url(owner, repo), q, None)
    }

    /// A repo's contributors, at most 30.
    pub fn list_contributors_request(&self, owner: &str, repo: &str, per_page: u32) -> (r: ApiRequest)
        ensures
            get_with(
                r,
                self.base_url@ + "/repos/"@ + owner@ + "/"@ + repo@ + "/contributors"@,
                seq![("per_page"@, spec_page(per_page, 30))],
            ),
    {
        request(HttpMethod::Get, self.contributors_url(owner, repo), page_query(per_page, 30), None)
    }

    /// A repo's languages.
    pub fn languages_request(&self, owner: &str, repo: &str) -> (r: ApiRequest)
        ensures
            plain_get(r, self.base_url@ + "/repos/"@ + owner@ + "/"@ + repo@ + "/languages"@),
    {
        request(HttpMethod::Get, self.languages_url(owner, repo), Vec::new(), None)
    }

    /// A repo's daily view (or, with `clones`, clone) traffic.
    pub fn traffic_request(&self, owner: &str, repo: &str, clones: bool) -> (r: ApiRequest)
        ensures
            plain_get(
                r,
                self.base_url@ + "/repos/"@ + owner@ + "/"@ + repo@ + (if clones {
                    "/traffic/clones"@
                } else {
                    "/traffic/views"@
                }),
            ),
    {
        let url = if clones {
            self.traffic_clones_url(owner, repo)
        } else {
            self.traffic_views_url(owner, repo)
        };
        request(HttpMethod::Get, url, Vec::new(), None)
    }

    /// A repo's popular referrers (or, with `paths`, its popular content paths).
    pub fn popular_request(&self, owner: &str, repo: &str, paths: bool) -> (r: ApiRequest)
        ensures
            plain_get(
                r,
                self.base_url@ + "/repos/"@ + owner@ + "/"@ + repo@ + (if paths {
                    "/traffic/popular/paths"@
                } else {
                    "/traffic/popular/referrers"@
                }),
            ),
    {
        let url = if paths {
            self.paths_url(owner, repo)
        } else {
            self.referrers_url(owner, repo)
        };
        request(HttpMethod::Get, url, Vec::new(), None)
    }

    /// Setting an issue's state.
    pub fn set_issue_state_request(&self, owner: &str, repo: &str, number: u64, state: &str) -> (r: ApiRequest)
        ensures
            r.method == HttpMethod::Patch,
            r.url@ == self.base_url@ + "/repos/"@ + owner@ + "/"@ + repo@ + "/"@ + "issues"@ + "/"@ + spec_decimal(number as nat),
            r.query@.len() == 0,
            r.body matches Some(JsonBody::State(s)) && s@ == state@,
    {
        request(HttpMethod::Patch, self.issue_url(owner, repo, number), Vec::new(), Some(JsonBody::State(owned(state))))
    }

    /// Adding labels to an issue.
    pub fn add_issue_labels_request(&self, owner: &str, repo: &str, number: u64, labels: Vec<String>) -> (r: ApiRequest)
        ensures
            r.method == HttpMethod::Post,
            r.url@ == self.base_url@ + "/repos/"@ + owner@ + "/"@ + repo@ + "/"@ + "issues"@ + "/"@ + spec_decimal(number as nat) + "/labels"@,
            r.query@.len() == 0,
            r.body == Some(JsonBody::Labels(labels)),
    {
        request(HttpMethod::Post, self.issue_labels_url(owner, repo, number), Vec::new(), Some(JsonBody::Labels(labels)))
    }

    /// Removing one label from an issue, the label's name escaped in the URL.
    pub fn remove_issue_label_request(&self, owner: &str, repo: &str, number: u64, label: &str) -> (r: ApiRequest)
        ensures
            r.method == HttpMethod::Delete,
            r.url@ == self.base_url@ + "/repos/"@ + owner@ + "/"@ + repo@ + "/"@ + "issues"@ + "/"@ + spec_decimal(number as nat) + "/labels"@ + "/"@ + spec_encode_label(label.spec_bytes()),
            r.query@.len() == 0,
            r.body is None,
    {
        request(HttpMethod::Delete, self.issue_label_url(owner, repo, number, label), Vec::new(), None)
    }

    /// Adding assignees to an issue.
    pub fn add_issue_assignees_request(&self, owner: &str, repo: &str, number: u64, assignees: Vec<String>) -> (r: ApiRequest)
        ensures
            r.method == HttpMethod::Post,
            r.url@ == self.base_url@ + "/repos/"@ + owner@ + "/"@ + repo@ + "/"@ + "issues"@ + "/"@ + spec_decimal(number as nat) + "/assignees"@,
            r.query@.len() == 0,
            r.body == Some(JsonBody::Assignees(assignees)),
    {
        request(HttpMethod::Post, self.issue_assignees_url(owner, repo, number), Vec::new(), Some(JsonBody::Assignees(assignees)))
    }

    /// Commenting on an issue.
    pub fn create_issue_comment_request(&self, owner: &str, repo: &str, number: u64, body: &str) -> (r: ApiRequest)
        ensures
            r.method == HttpMethod::Post,
            r.url@ == self.base_url@ + "/repos/"@ + owner@ + "/"@ + repo@ + "/"@ + "issues"@ + "/"@ + spec_decimal(number as nat) + "/comments"@,
            r.query@.len() == 0,
            r.body matches Some(JsonBody::Comment(b)) && b@ == body@,
    {
        request(HttpMethod::Post, self.issue_comments_url(owner, repo, number), Vec::new(), Some(JsonBody::Comment(owned(body))))
    }

    /// One issue (or, with `pull`, one pull request).
    pub fn item_request(&self, owner: &str, repo: &str, number: u64, pull: bool) -> (r: ApiRequest)
        ensures
            plain_get(
                r,
                self.base_url@ + "/repos/"@ + owner@ + "/"@ + repo@ + "/"@ + (if pull { "pulls"@ } else { "issues"@ }) + "/"@
                    + spec_decimal(number as nat),
            ),
    {
        let url = if pull {
            self.pull_url(owner, repo, number)
        } else {
            self.issue_url(owner, repo, number)
        };
        request(HttpMethod::Get, url, Vec::new(), None)
    }

    /// The comments of an issue or pull request, at most 100.
    pub fn list_issue_comments_request(&self, owner: &str, repo: &str, number: u64, per_page: u32) -> (r: ApiRequest)
        ensures
            get_with(
                r,
                self.base_url@ + "/repos/"@ + owner@ + "/"@ + repo@ + "/"@ + "issues"@ + "/"@ + spec_decimal(number as nat) + "/comments"@,
                seq![("per_page"@, spec_page(per_page, 100))],
            ),
    {
        request(HttpMethod::Get, self.issue_comments_url(owner, repo, number), page_query(per_page, 100), None)
    }

    /// The reviews of a pull request, at most 100.
    pub fn list_pull_reviews_request(&self, owner: &str, repo: &str, number: u64, per_page: u32) -> (r: ApiRequest)
        ensures
            get_with(
                r,
                self.base_url@ + "/repos/"@ + owner@ + "/"@ + repo@ + "/"@ + "pulls"@ + "/"@ + spec_decimal(number as nat) + "/reviews"@,
                seq![("per_page"@, spec_page(per_page, 100))],
            ),
    {
        request(HttpMethod::Get, self.pull_reviews_url(owner, repo, number), page_query(per_page, 100), None)
    }
}

/// A field value of a request body: a string or a list of strings.
#[derive(Debug, Clone, PartialEq, Eq)]
pub enum BodyValue {
    Text(String),
    Texts(Vec<String>),
}

/// The plain form of a body field's value.
pub enum BodyValueView {
    Text(Seq<char>),
    Texts(Seq<Seq<char>>),
}

/// The plain value of a body field's value.
pub open spec fn body_value_view(v: BodyValue) -> BodyValueView {
    match v {
        BodyValue::Text(t) => BodyValueView::Text(t@),
        BodyValue::Texts(ts) => BodyValueView::Texts(views(ts@)),
    }
}

/// The plain values of body fields.
pub open spec fn fields_view(f: Seq<(String, BodyValue)>) -> Seq<(Seq<char>, BodyValueView)> {
    f.map_values(|p: (String, BodyValue)| (p.0@, body_value_view(p.1)))
}

/// The field `key` when `v` is present.
pub open spec fn opt_text(key: Seq<char>, v: Option<String>) -> Seq<(Seq<char>, BodyValueView)> {
    match v {
        Some(t) => seq![(key, BodyValueView::Text(t@))],
        None => Seq::empty(),
    }
}

/// The fields of a request body, in order: an issue patch carries only the
/// fields it changes.
pub open spec fn spec_body_fields(b: JsonBody) -> Seq<(Seq<char>, BodyValueView)> {
    match b {
        JsonBody::NewIssue { title, body, labels } => seq![
            ("title"@, BodyValueView::Text(title@)),
            ("body"@, BodyValueView::Text(body@)),
            ("labels"@, BodyValueView::Texts(views(labels@))),
        ],
        JsonBody::IssuePatch { title, body, state, labels } => opt_text("title"@, title) + opt_text("body"@, body)
            + opt_text("state"@, state) + match labels {
            Some(l) => seq![("labels"@, BodyValueView::Texts(views(l@)))],
            None => Seq::empty(),
        },
        JsonBody::State(st) => seq![("state"@, BodyValueView::Text(st@))],
        JsonBody::Labels(l) => seq![("labels"@, BodyValueView::Texts(views(l@)))],
        JsonBody::Assignees(a) => seq![("assignees"@, BodyValueView::Texts(views(a@)))],
        JsonBody::Comment(c) => seq![("body"@, BodyValueView::Text(c@))],
    }
}

fn text_field(k: &str, v: String) -> (r: (String, BodyValue))
    ensures
        r.0@ == k@,
        r.1 == BodyValue::Text(v),
{
    (owned(k), BodyValue::Text(v))
}

fn texts_field(k: &str, v: Vec<String>) -> (r: (String, BodyValue))
    ensures
        r.0@ == k@,
        r.1 == BodyValue::Texts(v),
{
    (owned(k), BodyValue::Texts(v))
}

/// The value a body gives the field `name`, if it has one (its last pair of
/// that name).
pub open spec fn body_value(f: Seq<(Seq<char>, BodyValueView)>, name: Seq<char>) -> Option<BodyValueView>
    decreases f.len(),
{
    if f.len() == 0 {
        None
    } else if f.last().0 == name {
        Some(f.last().1)
    } else {
        body_value(f.drop_last(), name)
    }
}

/// The text field `name` holds `v`, when `v` is present; absent otherwise.
pub open spec fn carries_text(f: Seq<(Seq<char>, BodyValueView)>, name: Seq<char>, v: Option<String>) -> bool {
    body_value(f, name) == match v {
        Some(x) => Some(BodyValueView::Text(x@)),
        None => None::<BodyValueView>,
    }
}

/// The list field `name` holds `v`, when `v` is present; absent otherwise.
pub open spec fn carries_texts(f: Seq<(Seq<char>, BodyValueView)>, name: Seq<char>, v: Option<Vec<String>>) -> bool {
    body_value(f, name) == match v {
        Some(x) => Some(BodyValueView::Texts(views(x@))),
        None => None::<BodyValueView>,
    }
}

/// A request body carries each value of the request under its own name, and
/// an issue patch exactly the fields it changes.
pub open spec fn body_law(b: JsonBody, f: Seq<(Seq<char>, BodyValueView)>) -> bool {
    match b {
        JsonBody::NewIssue { title, body, labels } => {
            &&& carries_text(f, "title"@, Some(title))
            &&& carries_text(f, "body"@, Some(body))
            &&& carries_texts(f, "labels"@, Some(labels))
            &&& carries_text(f, "state"@, None)
        },
        JsonBody::IssuePatch { title, body, state, labels } => {
            &&& carries_text(f, "title"@, title)
            &&& carries_text(f, "body"@, body)
            &&& carries_text(f, "state"@, state)
            &&& carries_texts(f, "labels"@, labels)
        },
        JsonBody::State(st) => carries_text(f, "state"@, Some(st)) && carries_text(f, "title"@, None),
        JsonBody::Labels(l) => carries_texts(f, "labels"@, Some(l)) && carries_text(f, "title"@, None),
        JsonBody::Assignees(a) => carries_texts(f, "assignees"@, Some(a)) && carries_text(f, "title"@, None),
        JsonBody::Comment(c) => carries_text(f, "body"@, Some(c)) && carries_text(f, "title"@, None),
    }
}

proof fn lemma_body_value_append(a: Seq<(Seq<char>, BodyValueView)>, b: Seq<(Seq<char>, BodyValueView)>, name: Seq<char>)
    ensures
        body_value(a + b, name) == match body_value(b, name) {
            Some(v) => Some(v),
            None => body_value(a, name),
        },
    decreases b.len(),
{
    if b.len() == 0 {
        assert(a + b =~= a);
    } else {
        assert((a + b).drop_last() =~= a + b.drop_last());
        assert((a + b).last() == b.last());
        lemma_body_value_append(a, b.drop_last(), name);
    }
}

proof fn lemma_body_value_one(x: (Seq<char>, BodyValueView), name: Seq<char>)
    ensures
        body_value(seq![x], name) == if x.0 == name { Some(x.1) } else { None::<BodyValueView> },
{
    let e = Seq::<(Seq<char>, BodyValueView)>::empty();
    assert(seq![x].drop_last() =~= e);
    assert(seq![x].last() == x);
    assert(body_value(e, name) is None);
}

/// The fields of [`spec_body_fields`] carry every value of the request under
/// its own name.
pub proof fn lemma_body_fields_carry_values(b: JsonBody)
    ensures
        body_law(b, spec_body_fields(b)),
{
    reveal_strlit("title");
    reveal_strlit("body");
    reveal_strlit("state");
    reveal_strlit("labels");
    reveal_strlit("assignees");
    let names = seq!["title"@, "body"@, "state"@, "labels"@, "assignees"@];
    assert(names[0].len() == 5 && names[1].len() == 4 && names[2].len() == 5);
    assert(names[3].len() == 6 && names[4].len() == 9);
    assert(names[0][0] != names[2][0]);
    let f = spec_body_fields(b);
    match b {
        JsonBody::IssuePatch { title, body, state, labels } => {
            let t = opt_text("title"@, title);
            let bo = opt_text("body"@, body);
            let st = opt_text("state"@, state);
            let l = match labels {
                Some(x) => seq![("labels"@, BodyValueView::Texts(views(x@)))],
                None => Seq::<(Seq<char>, BodyValueView)>::empty(),
            };
            assert forall|k: int| 0 <= k < 4 implies ({
                let n = #[trigger] names[k];
                body_value(f, n) == match body_value(l, n) {
                    Some(v) => Some(v),
                    None => match body_value(st, n) {
                        Some(v) => Some(v),
                        None => match body_value(bo, n) {
                            Some(v) => Some(v),
                            None => body_value(t, n),
                        },
                    },
                }
            }) by {
                let n = names[k];
                lemma_body_value_append(t + bo + st, l, n);
                lemma_body_value_append(t + bo, st, n);
                lemma_body_value_append(t, bo, n);
            }
            assert forall|k: int| 0 <= k < 4 implies ({
                let n = #[trigger] names[k];
                &&& body_value(t, n) == if k == 0 { match title { Some(x) => Some(BodyValueView::Text(x@)), None => None::<BodyValueView> } } else { None::<BodyValueView> }
                &&& body_value(bo, n) == if k == 1 { match body { Some(x) => Some(BodyValueView::Text(x@)), None => None::<BodyValueView> } } else { None::<BodyValueView> }
                &&& body_value(st, n) == if k == 2 { match state { Some(x) => Some(BodyValueView::Text(x@)), None => None::<BodyValueView> } } else { None::<BodyValueView> }
                &&& body_value(l, n) == if k == 3 { match labels { Some(x) => Some(BodyValueView::Texts(views(x@))), None => None::<BodyValueView> } } else { None::<BodyValueView> }
            }) by {
                let n = names[k];
                if let Some(x) = title { lemma_body_value_one(("title"@, BodyValueView::Text(x@)), n); }
                if let Some(x) = body { lemma_body_value_one(("body"@, BodyValueView::Text(x@)), n); }
                if let Some(x) = state { lemma_body_value_one(("state"@, BodyValueView::Text(x@)), n); }
                if let Some(x) = labels { lemma_body_value_one(("labels"@, BodyValueView::Texts(views(x@))), n); }
            }
            assert(names[0] == "title"@ && names[1] == "body"@ && names[2] == "state"@ && names[3] == "labels"@);
        },
        JsonBody::NewIssue { title, body, labels } => {
            let a = ("title"@, BodyValueView::Text(title@));
            let c = ("body"@, BodyValueView::Text(body@));
            let d = ("labels"@, BodyValueView::Texts(views(labels@)));
            assert(f =~= seq![a] + seq![c] + seq![d]);
            assert forall|k: int| 0 <= k < 4 implies #[trigger] body_value(f, names[k]) == if k == 0 {
                Some(a.1)
            } else if k == 1 {
                Some(c.1)
            } else if k == 3 {
                Some(d.1)
            } else {
                None::<BodyValueView>
            } by {
                let n = names[k];
                lemma_body_value_append(seq![a] + seq![c], seq![d], n);
                lemma_body_value_append(seq![a], seq![c], n);
                lemma_body_value_one(a, n);
                lemma_body_value_one(c, n);
                lemma_body_value_one(d, n);
            }
            assert(names[0] == "title"@ && names[1] == "body"@ && names[2] == "state"@ && names[3] == "labels"@);
        },
        JsonBody::State(x) => {
            lemma_body_value_one(("state"@, BodyValueView::Text(x@)), "state"@);
            lemma_body_value_one(("state"@, BodyValueView::Text(x@)), "title"@);
        },
        JsonBody::Labels(x) => {
            lemma_body_value_one(("labels"@, BodyValueView::Texts(views(x@))), "labels"@);
            lemma_body_value_one(("labels"@, BodyValueView::Texts(views(x@))), "title"@);
        },
        JsonBody::Assignees(x) => {
            lemma_body_value_one(("assignees"@, BodyValueView::Texts(views(x@))), "assignees"@);
            lemma_body_value_one(("assignees"@, BodyValueView::Texts(views(x@))), "title"@);
        },
        JsonBody::Comment(x) => {
            lemma_body_value_one(("body"@, BodyValueView::Text(x@)), "body"@);
            lemma_body_value_one(("body"@, BodyValueView::Text(x@)), "title"@);
        },
    }
}

/// The fields a request body carries.
pub fn body_fields(b: JsonBody) -> (r: Vec<(String, BodyValue)>)
    ensures
        fields_view(r@) == spec_body_fields(b),
        body_law(b, fields_view(r@)),
{
    proof {
        lemma_body_fields_carry_values(b);
    }
    let mut r: Vec<(String, BodyValue)> = Vec::new();
    match b {
        JsonBody::NewIssue { title, body, labels } => {
            r.push(text_field("title", title));
            r.push(text_field("body", body));
            r.push(texts_field("labels", labels));
        },
        JsonBody::IssuePatch { title, body, state, labels } => {
            let ghost (t0, b0, s0, l0) = (title, body, state, labels);
            if let Some(t) = title {
                r.push(text_field("title", t));
            }
            assert(fields_view(r@) =~= opt_text("title"@, t0));
            let ghost r1 = r@;
            if let Some(x) = body {
                r.push(text_field("body", x));
            }
            assert(fields_view(r@) =~= fields_view(r1) + opt_text("body"@, b0));
            let ghost r2 = r@;
            if let Some(x) = state {
                r.push(text_field("state", x));
            }
            assert(fields_view(r@) =~= fields_view(r2) + opt_text("state"@, s0));
            let ghost r3 = r@;
            if let Some(x) = labels {
                r.push(texts_field("labels", x));
            }
            assert(fields_view(r@) =~= fields_view(r3) + match l0 {
                Some(l) => seq![("labels"@, BodyValueView::Texts(views(l@)))],
                None => Seq::<(Seq<char>, BodyValueView)>::empty(),
            });
        },
        JsonBody::State(st) => {
            r.push(text_field("state", st));
        },
        JsonBody::Labels(l) => {
            r.push(texts_field("labels", l));
        },
        JsonBody::Assignees(a) => {
            r.push(texts_field("assignees", a));
        },
        JsonBody::Comment(c) => {
            r.push(text_field("body", c));
        },
    }
    assert(fields_view(r@) =~= spec_body_fields(b));
    r
}

/// The text `serde_json` writes for the object with these fields.
pub uninterp spec fn json_body_text(fields: Seq<(Seq<char>, BodyValueView)>) -> Seq<char>;

/// Builds a `serde_json::Map` of the fields (strings, and arrays of strings)
/// and writes it with `to_string`. Claimed: the text is a function of the
/// fields alone, named [`json_body_text`].
#[verifier::external_body]
fn write_body(fields: Vec<(String, BodyValue)>) -> (r: String)
    ensures
        r@ == json_body_text(fields_view(fields@)),
{
    let mut m = serde_json::Map::new();
    for (k, v) in fields {
        let value = match v {
            BodyValue::Text(t) => serde_json::Value::from(t),
            BodyValue::Texts(ts) => serde_json::Value::from(ts),
        };
        m.insert(k, value);
    }
    serde_json::Value::Object(m).to_string()
}

/// The JSON text of a request body.
pub fn body_text(b: JsonBody) -> (r: String)
    ensures
        r@ == json_body_text(spec_body_fields(b)),
{
    write_body(body_fields(b))
}

/// A 404 answer to a single-item read means the item does not exist (no
/// error), and so does a 404 to removing a label that is not on the issue.
pub fn is_absent(status: u16) -> (r: bool)
    ensures
        r == (status == 404),
{
    status == 404
}

} // verus!
