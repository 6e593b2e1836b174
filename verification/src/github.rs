//! The GitHub provider: its REST endpoints and the mapping of GitHub's
//! payloads onto the provider-neutral types.
//!
//! The HTTP exchange itself happens outside the library; it hands the decoded
//! payloads (the `Gh*` structs) to the mappers here.

use vstd::prelude::*;
use vstd::string::StringSliceAdditionalSpecFns;

use crate::text::{
    chars_of, decimal, owned, push_char, push_str, spec_decimal, str_eq, string_of_chars,
};

verus! {

/// The GitHub endpoints of one account: API base, token and default repo.
#[derive(Debug, Clone, PartialEq, Eq)]
pub struct GitHubProvider {
    pub base_url: String,
    pub token: String,
    pub owner: String,
    pub repo: String,
}

/// `a + b` as a fresh string.
fn cat(a: &str, b: &str) -> (r: String)
    ensures
        r@ == a@ + b@,
{
    let mut r = owned(a);
    push_str(&mut r, b);
    r
}

impl GitHubProvider {
    pub fn new(base_url: String, token: String, owner: String, repo: String) -> (p: GitHubProvider)
        ensures
            p.base_url == base_url,
            p.token == token,
            p.owner == owner,
            p.repo == repo,
    {
        GitHubProvider { base_url, token, owner, repo }
    }

    /// `{base}/repos/{owner}/{repo}` for the given repo.
    fn repo_base(&self, owner: &str, repo: &str) -> (r: String)
        ensures
            r@ == self.base_url@ + "/repos/"@ + owner@ + "/"@ + repo@,
    {
        let mut r = owned(self.base_url.as_str());
        push_str(&mut r, "/repos/");
        push_str(&mut r, owner);
        push_str(&mut r, "/");
        push_str(&mut r, repo);
        r
    }

    /// `{base}/repos/{owner}/{repo}/{kind}/{number}` for an issue or pull.
    fn numbered(&self, owner: &str, repo: &str, kind: &str, number: u64) -> (r: String)
        ensures
            r@ == self.base_url@ + "/repos/"@ + owner@ + "/"@ + repo@ + "/"@ + kind@ + "/"@ + spec_decimal(
                number as nat,
            ),
    {
        let mut r = self.repo_base(owner, repo);
        push_str(&mut r, "/");
        push_str(&mut r, kind);
        push_str(&mut r, "/");
        let n = decimal(number);
        push_str(&mut r, n.as_str());
        r
    }

    pub fn issues_url(&self) -> (r: String)
        ensures
            r@ == self.base_url@ + "/repos/"@ + self.owner@ + "/"@ + self.repo@ + "/issues"@,
    {
        let mut r = self.repo_base(self.owner.as_str(), self.repo.as_str());
        push_str(&mut r, "/issues");
        r
    }

    /// The URL of one issue of the default repo, by its remote id.
    pub fn task_url(&self, remote_id: &str) -> (r: String)
        ensures
            r@ == self.base_url@ + "/repos/"@ + self.owner@ + "/"@ + self.repo@ + "/issues"@ + "/"@ + remote_id@,
    {
        let mut r = self.issues_url();
        push_str(&mut r, "/");
        push_str(&mut r, remote_id);
        r
    }

    pub fn repos_url(&self) -> (r: String)
        ensures
            r@ == self.base_url@ + "/user/repos"@,
    {
        cat(self.base_url.as_str(), "/user/repos")
    }

    pub fn search_issues_url(&self) -> (r: String)
        ensures
            r@ == self.base_url@ + "/search/issues"@,
    {
        cat(self.base_url.as_str(), "/search/issues")
    }

    pub fn search_code_url(&self) -> (r: String)
        ensures
            r@ == self.base_url@ + "/search/code"@,
    {
        cat(self.base_url.as_str(), "/search/code")
    }

    pub fn notifications_url(&self) -> (r: String)
        ensures
            r@ == self.base_url@ + "/notifications"@,
    {
        cat(self.base_url.as_str(), "/notifications")
    }

    pub fn notification_thread_url(&self, thread_id: &str) -> (r: String)
        ensures
            r@ == self.base_url@ + "/notifications/threads/"@ + thread_id@,
    {
        let mut r = cat(self.base_url.as_str(), "/notifications/threads/");
        push_str(&mut r, thread_id);
        r
    }

    /// `{base}/repos/{owner}/{repo}{suffix}`.
    pub fn repo_path_url(&self, owner: &str, repo: &str, suffix: &str) -> (r: String)
        ensures
            r@ == self.base_url@ + "/repos/"@ + owner@ + "/"@ + repo@ + suffix@,
    {
        let mut r = self.repo_base(owner, repo);
        push_str(&mut r, suffix);
        r
    }

    pub fn workflow_runs_url(&self, owner: &str, repo: &str) -> (r: String)
        ensures
            r@ == self.base_url@ + "/repos/"@ + owner@ + "/"@ + repo@ + "/actions/runs"@,
    {
        self.repo_path_url(owner, repo, "/actions/runs")
    }

    pub fn repo_url(&self, owner: &str, repo: &str) -> (r: String)
        ensures
            r@ == self.base_url@ + "/repos/"@ + owner@ + "/"@ + repo@,
    {
        self.repo_base(owner, repo)
    }

    pub fn releases_url(&self, owner: &str, repo: &str) -> (r: String)
        ensures
            r@ == self.base_url@ + "/repos/"@ + owner@ + "/"@ + repo@ + "/releases"@,
    {
        self.repo_path_url(owner, repo, "/releases")
    }

    pub fn forks_url(&self, owner: &str, repo: &str) -> (r: String)
        ensures
            r@ == self.base_url@ + "/repos/"@ + owner@ + "/"@ + repo@ + "/forks"@,
    {
        self.repo_path_url(owner, repo, "/forks")
    }

    pub fn contributors_url(&self, owner: &str, repo: &str) -> (r: String)
        ensures
            r@ == self.base_url@ + "/repos/"@ + owner@ + "/"@ + repo@ + "/contributors"@,
    {
        self.repo_path_url(owner, repo, "/contributors")
    }

    pub fn languages_url(&self, owner: &str, repo: &str) -> (r: String)
        ensures
            r@ == self.base_url@ + "/repos/"@ + owner@ + "/"@ + repo@ + "/languages"@,
    {
        self.repo_path_url(owner, repo, "/languages")
    }

    pub fn traffic_views_url(&self, owner: &str, repo: &str) -> (r: String)
        ensures
            r@ == self.base_url@ + "/repos/"@ + owner@ + "/"@ + repo@ + "/traffic/views"@,
    {
        self.repo_path_url(owner, repo, "/traffic/views")
    }

    pub fn traffic_clones_url(&self, owner: &str, repo: &str) -> (r: String)
        ensures
            r@ == self.base_url@ + "/repos/"@ + owner@ + "/"@ + repo@ + "/traffic/clones"@,
    {
        self.repo_path_url(owner, repo, "/traffic/clones")
    }

    pub fn referrers_url(&self, owner: &str, repo: &str) -> (r: String)
        ensures
            r@ == self.base_url@ + "/repos/"@ + owner@ + "/"@ + repo@ + "/traffic/popular/referrers"@,
    {
        self.repo_path_url(owner, repo, "/traffic/popular/referrers")
    }

    pub fn paths_url(&self, owner: &str, repo: &str) -> (r: String)
        ensures
            r@ == self.base_url@ + "/repos/"@ + owner@ + "/"@ + repo@ + "/traffic/popular/paths"@,
    {
        self.repo_path_url(owner, repo, "/traffic/popular/paths")
    }

    pub fn issue_url(&self, owner: &str, repo: &str, number: u64) -> (r: String)
        ensures
            r@ == self.base_url@ + "/repos/"@ + owner@ + "/"@ + repo@ + "/"@ + "issues"@ + "/"@ + spec_decimal(
                number as nat,
            ),
    {
        self.numbered(owner, repo, "issues", number)
    }

    pub fn issue_labels_url(&self, owner: &str, repo: &str, number: u64) -> (r: String)
        ensures
            r@ == self.base_url@ + "/repos/"@ + owner@ + "/"@ + repo@ + "/"@ + "issues"@ + "/"@ + spec_decimal(
                number as nat,
            ) + "/labels"@,
    {
        let mut r = self.numbered(owner, repo, "issues", number);
        push_str(&mut r, "/labels");
        r
    }

    pub fn issue_assignees_url(&self, owner: &str, repo: &str, number: u64) -> (r: String)
        ensures
            r@ == self.base_url@ + "/repos/"@ + owner@ + "/"@ + repo@ + "/"@ + "issues"@ + "/"@ + spec_decimal(
                number as nat,
            ) + "/assignees"@,
    {
        let mut r = self.numbered(owner, repo, "issues", number);
        push_str(&mut r, "/assignees");
        r
    }

    pub fn issue_comments_url(&self, owner: &str, repo: &str, number: u64) -> (r: String)
        ensures
            r@ == self.base_url@ + "/repos/"@ + owner@ + "/"@ + repo@ + "/"@ + "issues"@ + "/"@ + spec_decimal(
                number as nat,
            ) + "/comments"@,
    {
        let mut r = self.numbered(owner, repo, "issues", number);
        push_str(&mut r, "/comments");
        r
    }

    pub fn pull_url(&self, owner: &str, repo: &str, number: u64) -> (r: String)
        ensures
            r@ == self.base_url@ + "/repos/"@ + owner@ + "/"@ + repo@ + "/"@ + "pulls"@ + "/"@ + spec_decimal(
                number as nat,
            ),
    {
        self.numbered(owner, repo, "pulls", number)
    }

    pub fn pull_reviews_url(&self, owner: &str, repo: &str, number: u64) -> (r: String)
        ensures
            r@ == self.base_url@ + "/repos/"@ + owner@ + "/"@ + repo@ + "/"@ + "pulls"@ + "/"@ + spec_decimal(
                number as nat,
            ) + "/reviews"@,
    {
        let mut r = self.numbered(owner, repo, "pulls", number);
        push_str(&mut r, "/reviews");
        r
    }

    /// The label's URL on an issue (for removing it), with the name escaped.
    pub fn issue_label_url(&self, owner: &str, repo: &str, number: u64, label: &str) -> (r: String)
        ensures
            r@ == self.base_url@ + "/repos/"@ + owner@ + "/"@ + repo@ + "/"@ + "issues"@ + "/"@ + spec_decimal(
                number as nat,
            ) + "/labels"@ + "/"@ + spec_encode_label(label.spec_bytes()),
    {
        let mut r = self.issue_labels_url(owner, repo, number);
        push_str(&mut r, "/");
        let e = encode_label(label);
        push_str(&mut r, e.as_str());
        r
    }

    /// The `Authorization` header value for this account's token.
    pub fn bearer(&self) -> (r: String)
        ensures
            r@ == "Bearer "@ + self.token@,
    {
        cat("Bearer ", self.token.as_str())
    }
}

/// A byte is an unreserved URL character (`A-Z a-z 0-9 - _ . ~`).
pub open spec fn unreserved(b: u8) -> bool {
    (65 <= b <= 90) || (97 <= b <= 122) || (48 <= b <= 57) || b == 45 || b == 95 || b == 46 || b == 126
}

/// The upper-case hex digit for `d < 16`.
pub open spec fn spec_hex(d: nat) -> char {
    if d < 10 {
        crate::text::spec_digit(d)
    } else if d == 10 {
        'A'
    } else if d == 11 {
        'B'
    } else if d == 12 {
        'C'
    } else if d == 13 {
        'D'
    } else if d == 14 {
        'E'
    } else {
        'F'
    }
}

/// Percent-encoding of bytes: unreserved bytes stay, every other byte
/// becomes `%XY` in upper-case hex.
pub open spec fn spec_encode_label(bytes: Seq<u8>) -> Seq<char>
    decreases bytes.len(),
{
    if bytes.len() == 0 {
        Seq::empty()
    } else {
        let rest = spec_encode_label(bytes.drop_last());
        let b = bytes.last();
        if unreserved(b) {
            rest.push(b as char)
        } else {
            rest.push('%').push(spec_hex((b / 16) as nat)).push(spec_hex((b % 16) as nat))
        }
    }
}

/// The value of an upper-case hex digit (0 for any other character).
pub open spec fn spec_hex_value(c: char) -> nat {
    if c == '1' { 1 } else if c == '2' { 2 } else if c == '3' { 3 } else if c == '4' { 4 }
    else if c == '5' { 5 } else if c == '6' { 6 } else if c == '7' { 7 } else if c == '8' { 8 }
    else if c == '9' { 9 } else if c == 'A' { 10 } else if c == 'B' { 11 } else if c == 'C' { 12 }
    else if c == 'D' { 13 } else if c == 'E' { 14 } else if c == 'F' { 15 } else { 0 }
}

/// Percent-decoding, read from the end: a `%XY` triple is the byte `0xXY`;
/// any other character stands for its own code.
pub open spec fn spec_decode_label(cs: Seq<char>) -> Seq<u8>
    decreases cs.len(),
{
    if cs.len() == 0 {
        Seq::empty()
    } else if cs.len() >= 3 && cs[cs.len() - 3] == '%' {
        spec_decode_label(cs.take(cs.len() - 3)).push(
            (spec_hex_value(cs[cs.len() - 2]) * 16 + spec_hex_value(cs[cs.len() - 1])) as u8,
        )
    } else {
        spec_decode_label(cs.drop_last()).push(cs.last() as u8)
    }
}

proof fn lemma_hex_roundtrip(d: nat)
    requires
        d < 16,
    ensures
        spec_hex_value(spec_hex(d)) == d,
        spec_hex(d) != '%',
{
}

/// In an encoded label a `%` always starts a complete `%XY` triple.
proof fn lemma_percent_starts_triple(bytes: Seq<u8>)
    ensures
        forall|k: int| 0 <= k < spec_encode_label(bytes).len() && #[trigger] spec_encode_label(bytes)[k] == '%'
            ==> k + 3 <= spec_encode_label(bytes).len(),
    decreases bytes.len(),
{
    if bytes.len() > 0 {
        lemma_percent_starts_triple(bytes.drop_last());
        let b = bytes.last();
        lemma_hex_roundtrip((b / 16) as nat);
        lemma_hex_roundtrip((b % 16) as nat);
        let rest = spec_encode_label(bytes.drop_last());
        let e = spec_encode_label(bytes);
        assert forall|k: int| 0 <= k < e.len() && #[trigger] e[k] == '%' implies k + 3 <= e.len() by {
            if k < rest.len() {
                assert(e[k] == rest[k]);
            } else if unreserved(b) {
                assert(e[k] == b as char);
            }
        }
    }
}

/// Percent-decoding an encoded label gives back its bytes.
pub proof fn lemma_encode_label_roundtrip(bytes: Seq<u8>)
    ensures
        spec_decode_label(spec_encode_label(bytes)) == bytes,
    decreases bytes.len(),
{
    if bytes.len() > 0 {
        let init = bytes.drop_last();
        lemma_encode_label_roundtrip(init);
        lemma_percent_starts_triple(init);
        let b = bytes.last();
        let rest = spec_encode_label(init);
        let e = spec_encode_label(bytes);
        lemma_hex_roundtrip((b / 16) as nat);
        lemma_hex_roundtrip((b % 16) as nat);
        if unreserved(b) {
            assert(e == rest.push(b as char));
            assert(e.drop_last() == rest);
            if e.len() >= 3 {
                let k = e.len() - 3;
                assert(e[k] == rest[k]);
            }
            assert((b as char) as u8 == b);
        } else {
            assert(e.len() >= 3 && e[e.len() - 3] == '%');
            assert(e.take(e.len() - 3) =~= rest);
            assert(((b / 16) as nat) * 16 + ((b % 16) as nat) == b);
        }
        assert(bytes =~= init.push(b));
    }
}

fn hex(d: u8) -> (c: char)
    requires
        d < 16,
    ensures
        c == spec_hex(d as nat),
{
    if d == 0 {
        '0'
    } else if d == 1 {
        '1'
    } else if d == 2 {
        '2'
    } else if d == 3 {
        '3'
    } else if d == 4 {
        '4'
    } else if d == 5 {
        '5'
    } else if d == 6 {
        '6'
    } else if d == 7 {
        '7'
    } else if d == 8 {
        '8'
    } else if d == 9 {
        '9'
    } else if d == 10 {
        'A'
    } else if d == 11 {
        'B'
    } else if d == 12 {
        'C'
    } else if d == 13 {
        'D'
    } else if d == 14 {
        'E'
    } else {
        'F'
    }
}

/// Percent-encode a single label name for use as a URL path segment. GitHub
/// label names may contain spaces and other characters that must be escaped.
pub fn encode_label(label: &str) -> (out: String)
    ensures
        out@ == spec_encode_label(label.spec_bytes()),
{
    let bytes = label.as_bytes();
    let mut out = String::new();
    let mut i: usize = 0;
    while i < bytes.len()
        invariant
            i <= bytes@.len(),
            bytes@ == label.spec_bytes(),
            out@ == spec_encode_label(bytes@.take(i as int)),
        decreases bytes.len() - i,
    {
        let b = bytes[i];
        proof {
            let t = bytes@.take(i + 1);
            assert(t.drop_last() =~= bytes@.take(i as int));
            assert(t.last() == b);
        }
        if (b >= 65 && b <= 90) || (b >= 97 && b <= 122) || (b >= 48 && b <= 57) || b == 45 || b == 95
            || b == 46 || b == 126 {
            push_char(&mut out, b as char);
        } else {
            push_char(&mut out, '%');
            push_char(&mut out, hex(b / 16));
            push_char(&mut out, hex(b % 16));
        }
        i = i + 1;
    }
    assert(bytes@.take(bytes@.len() as int) =~= bytes@);
    out
}

/// `s` with every trailing `/` removed.
pub open spec fn strip_trailing_slashes(s: Seq<char>) -> Seq<char>
    decreases s.len(),
{
    if s.len() > 0 && s.last() == '/' {
        strip_trailing_slashes(s.drop_last())
    } else {
        s
    }
}

/// The characters after the last `/` of `s` (all of `s` when it has none).
pub open spec fn last_segment(s: Seq<char>) -> Seq<char>
    decreases s.len(),
{
    if s.len() == 0 || s.last() == '/' {
        Seq::empty()
    } else {
        last_segment(s.drop_last()).push(s.last())
    }
}

/// `owner/name` from the last two non-empty `/`-separated segments of `url`,
/// or `url` itself when it has fewer than two.
pub open spec fn spec_repo_name_with_owner(url: Seq<char>) -> Seq<char> {
    let t = strip_trailing_slashes(url);
    let name = last_segment(t);
    let u = strip_trailing_slashes(t.take(t.len() - name.len()));
    let owner = last_segment(u);
    if name.len() > 0 && owner.len() > 0 {
        owner + "/"@ + name
    } else {
        url
    }
}

proof fn lemma_last_segment_len(s: Seq<char>)
    ensures
        last_segment(s).len() <= s.len(),
        last_segment(s) == s.subrange(s.len() - last_segment(s).len(), s.len() as int),
        last_segment(s).len() < s.len() ==> s[s.len() - last_segment(s).len() - 1] == '/',
    decreases s.len(),
{
    if s.len() > 0 && s.last() != '/' {
        lemma_last_segment_len(s.drop_last());
        let r = last_segment(s.drop_last());
        assert(last_segment(s) =~= s.subrange(s.len() - last_segment(s).len(), s.len() as int));
    } else if s.len() > 0 {
        assert(s.subrange(s.len() as int, s.len() as int) =~= Seq::<char>::empty());
    } else {
        assert(s.subrange(0, 0) =~= Seq::<char>::empty());
    }
}

proof fn lemma_strip_is_prefix(s: Seq<char>)
    ensures
        strip_trailing_slashes(s).len() <= s.len(),
        strip_trailing_slashes(s) == s.take(strip_trailing_slashes(s).len() as int),
        strip_trailing_slashes(s).len() > 0 ==> strip_trailing_slashes(s).last() != '/',
    decreases s.len(),
{
    if s.len() > 0 && s.last() == '/' {
        lemma_strip_is_prefix(s.drop_last());
        let r = strip_trailing_slashes(s.drop_last());
        assert(s.drop_last().take(r.len() as int) =~= s.take(r.len() as int));
    } else {
        assert(s.take(s.len() as int) =~= s);
    }
}

/// Length of `s.take(n)` with trailing slashes stripped, computed on the chars.
fn strip_len(cs: &Vec<char>, n: usize) -> (r: usize)
    requires
        n <= cs@.len(),
    ensures
        r <= n,
        r == strip_trailing_slashes(cs@.take(n as int)).len(),
{
    let mut m = n;
    while m > 0 && cs[m - 1] == '/'
        invariant
            m <= n <= cs@.len(),
            strip_trailing_slashes(cs@.take(n as int)) == strip_trailing_slashes(cs@.take(m as int)),
        decreases m,
    {
        assert(cs@.take(m as int).drop_last() =~= cs@.take(m - 1));
        m = m - 1;
    }
    assert(cs@.take(m as int).len() == m);
    m
}

/// Start of the last `/`-free run in `cs.take(n)`.
fn segment_start(cs: &Vec<char>, n: usize) -> (r: usize)
    requires
        n <= cs@.len(),
    ensures
        r <= n,
        n - r == last_segment(cs@.take(n as int)).len(),
{
    let mut m = n;
    while m > 0 && cs[m - 1] != '/'
        invariant
            m <= n <= cs@.len(),
            last_segment(cs@.take(n as int)) == last_segment(cs@.take(m as int)) + cs@.subrange(m as int, n as int),
        decreases m,
    {
        let ghost t = cs@.take(m as int);
        assert(t.drop_last() =~= cs@.take(m - 1));
        assert(t.last() == cs@[m - 1]);
        assert(last_segment(t) == last_segment(cs@.take(m - 1)).push(cs@[m - 1]));
        assert(cs@.subrange(m - 1, n as int) =~= seq![cs@[m - 1]] + cs@.subrange(m as int, n as int));
        assert(last_segment(cs@.take(m - 1)).push(cs@[m - 1]) + cs@.subrange(m as int, n as int)
            =~= last_segment(cs@.take(m - 1)) + cs@.subrange(m - 1, n as int));
        m = m - 1;
    }
    assert(last_segment(cs@.take(m as int)) =~= Seq::<char>::empty()) by {
        if m > 0 {
            assert(cs@.take(m as int).last() == cs@[m - 1]);
        }
    }
    assert(cs@.subrange(m as int, n as int).len() == n - m);
    m
}

/// Derive `owner/name` from a GitHub `repository_url`
/// (e.g. `https://api.github.com/repos/owner/name`) by joining the last two
/// path segments. Falls back to the raw input if it can't be parsed.
pub fn repo_name_with_owner(repository_url: &str) -> (r: String)
    ensures
        r@ == spec_repo_name_with_owner(repository_url@),
{
    let cs = chars_of(repository_url);
    let ghost s = repository_url@;
    let tn = strip_len(&cs, cs.len());
    assert(cs@.take(cs@.len() as int) =~= s);
    let ghost t = strip_trailing_slashes(s);
    proof {
        lemma_strip_is_prefix(s);
        assert(t =~= cs@.take(tn as int));
    }
    let ns = segment_start(&cs, tn);
    let ghost name = last_segment(t);
    proof {
        lemma_last_segment_len(t);
        assert(t.take(t.len() - name.len()) =~= cs@.take(ns as int));
    }
    let un = strip_len(&cs, ns);
    let os = segment_start(&cs, un);
    let ghost u = strip_trailing_slashes(t.take(t.len() - name.len()));
    proof {
        lemma_strip_is_prefix(cs@.take(ns as int));
        assert(u =~= cs@.take(un as int));
    }
    if ns < tn && os < un {
        let owner = string_of_chars(&slice_of(&cs, os, un));
        let nm = string_of_chars(&slice_of(&cs, ns, tn));
        proof {
            lemma_last_segment_len(u);
            assert(last_segment(u) =~= cs@.subrange(os as int, un as int));
            assert(name =~= cs@.subrange(ns as int, tn as int));
        }
        let mut r = owner;
        push_str(&mut r, "/");
        push_str(&mut r, nm.as_str());
        r
    } else {
        owned(repository_url)
    }
}

/// The characters `cs[from..to]`.
fn slice_of(cs: &Vec<char>, from: usize, to: usize) -> (r: Vec<char>)
    requires
        from <= to <= cs@.len(),
    ensures
        r@ == cs@.subrange(from as int, to as int),
{
    let mut r: Vec<char> = Vec::new();
    let mut i = from;
    while i < to
        invariant
            from <= i <= to <= cs@.len(),
            r@ == cs@.subrange(from as int, i as int),
        decreases to - i,
    {
        r.push(cs[i]);
        assert(cs@.subrange(from as int, i + 1) =~= cs@.subrange(from as int, i as int).push(cs@[i as int]));
        i = i + 1;
    }
    r
}

/// Traffic endpoints require push access. For repos the user can't push to,
/// GitHub returns 403 (and 404 when missing); both mean "no data".
pub fn is_no_traffic_access(status: u16) -> (r: bool)
    ensures
        r == (status == 403 || status == 404),
{
    status == 403 || status == 404
}

/// Clamp a requested page size into `1..=max`.
pub fn clamp_per_page(per_page: u32, max: u32) -> (r: u32)
    requires
        1 <= max,
    ensures
        r == if per_page < 1 {
            1
        } else if per_page > max {
            max
        } else {
            per_page
        },
{
    if per_page < 1 {
        1
    } else if per_page > max {
        max
    } else {
        per_page
    }
}

} // verus!
