//! Daily repository snapshots and the digest that compares the latest captured
//! day with the one before it.

use vstd::prelude::*;

use crate::text::{seq_le, seq_lt, lemma_seq_lt_asymmetric, lemma_seq_lt_total, lemma_seq_lt_transitive, lemma_seq_lt_irreflexive, str_eq, str_lt};

verus! {

/// A point-in-time capture of a repository's headline metrics for one day.
/// One row per (account, repo, day); re-capturing the same day overwrites it.
#[derive(Debug, Clone, PartialEq, Eq)]
pub struct RepoSnapshot {
    pub id: String,
    pub account_id: String,
    pub repo_full_name: String,
    /// Calendar day in `YYYY-MM-DD` (UTC).
    pub day: String,
    pub stars: i64,
    pub forks: i64,
    pub open_issues: i64,
    /// RFC3339 timestamp of when this row was written.
    pub captured_at: String,
}

/// A per-repo entry in a daily digest: the latest day's absolute numbers plus
/// the delta versus the previous captured day.
#[derive(Debug, Clone, PartialEq, Eq)]
pub struct DigestEntryDto {
    pub repo_full_name: String,
    pub stars_delta: i64,
    pub forks_delta: i64,
    pub open_issues_delta: i64,
    pub stars: i64,
    pub forks: i64,
    pub open_issues: i64,
}

/// A daily digest: the latest captured `day`, the previous captured `day` (if
/// any), and one entry per repo present on the latest day.
#[derive(Debug, Clone, PartialEq, Eq)]
pub struct DigestDto {
    pub day: Option<String>,
    pub previous_day: Option<String>,
    pub entries: Vec<DigestEntryDto>,
}

/// Some snapshot was captured on day `d`.
pub open spec fn has_day(snaps: Seq<RepoSnapshot>, d: Seq<char>) -> bool {
    exists|i: int| 0 <= i < snaps.len() && snaps[i].day@ == d
}

/// `d` is the most recent captured day.
pub open spec fn is_latest_day(snaps: Seq<RepoSnapshot>, d: Seq<char>) -> bool {
    &&& has_day(snaps, d)
    &&& forall|i: int| 0 <= i < snaps.len() ==> seq_le(#[trigger] snaps[i].day@, d)
}

/// `p` is the most recent captured day strictly before `latest`.
pub open spec fn is_previous_day(snaps: Seq<RepoSnapshot>, latest: Seq<char>, p: Seq<char>) -> bool {
    &&& has_day(snaps, p)
    &&& seq_lt(p, latest)
    &&& forall|i: int|
        0 <= i < snaps.len() && #[trigger] snaps[i].day@ != latest ==> seq_le(snaps[i].day@, p)
}

/// Index of the last of the first `n` snapshots captured on `day` for `repo`,
/// or -1 when there is none. Later rows win, as in a map filled in order.
pub open spec fn last_on(snaps: Seq<RepoSnapshot>, n: int, day: Seq<char>, repo: Seq<char>) -> int
    decreases n,
{
    if n <= 0 {
        -1
    } else if snaps[n - 1].day@ == day && snaps[n - 1].repo_full_name@ == repo {
        n - 1
    } else {
        last_on(snaps, n - 1, day, repo)
    }
}

/// `a`'s numbers minus `b`'s fit in a 64-bit integer.
pub open spec fn delta_fits(a: RepoSnapshot, b: RepoSnapshot) -> bool {
    &&& i64::MIN <= a.stars - b.stars <= i64::MAX
    &&& i64::MIN <= a.forks - b.forks <= i64::MAX
    &&& i64::MIN <= a.open_issues - b.open_issues <= i64::MAX
}

/// The deltas the digest computes fit in 64 bits: for each repo, its last
/// capture on the latest day minus its last capture on the previous day.
pub open spec fn digest_deltas_fit(snaps: Seq<RepoSnapshot>) -> bool {
    forall|i: int, j: int|
        #![trigger snaps[i], snaps[j]]
        0 <= i < snaps.len() && 0 <= j < snaps.len()
            && is_latest_day(snaps, snaps[i].day@)
            && is_previous_day(snaps, snaps[i].day@, snaps[j].day@)
            && i == last_on(snaps, snaps.len() as int, snaps[i].day@, snaps[i].repo_full_name@)
            && j == last_on(snaps, snaps.len() as int, snaps[j].day@, snaps[i].repo_full_name@)
            ==> delta_fits(snaps[i], snaps[j])
}

/// The entry for the repo named by `e` is computed from the last capture of
/// that repo on `latest` and, if there is one, the last on `previous`.
pub open spec fn entry_correct(
    snaps: Seq<RepoSnapshot>,
    latest: Seq<char>,
    previous: Option<Seq<char>>,
    e: DigestEntryDto,
) -> bool {
    let c = last_on(snaps, snaps.len() as int, latest, e.repo_full_name@);
    let p = match previous {
        Some(pd) => last_on(snaps, snaps.len() as int, pd, e.repo_full_name@),
        None => -1,
    };
    &&& 0 <= c
    &&& e.stars == snaps[c].stars
    &&& e.forks == snaps[c].forks
    &&& e.open_issues == snaps[c].open_issues
    &&& if 0 <= p {
        &&& e.stars_delta == snaps[c].stars - snaps[p].stars
        &&& e.forks_delta == snaps[c].forks - snaps[p].forks
        &&& e.open_issues_delta == snaps[c].open_issues - snaps[p].open_issues
    } else {
        &&& e.stars_delta == 0
        &&& e.forks_delta == 0
        &&& e.open_issues_delta == 0
    }
}

pub open spec fn opt_view(o: Option<String>) -> Option<Seq<char>> {
    match o {
        Some(s) => Some(s@),
        None => None,
    }
}

/// The digest's entries are exactly the repos captured on `latest`, strictly
/// ordered by name, each computed by [`entry_correct`].
pub open spec fn entries_correct(
    snaps: Seq<RepoSnapshot>,
    latest: Seq<char>,
    previous: Option<Seq<char>>,
    entries: Seq<DigestEntryDto>,
) -> bool {
    &&& forall|k: int| 0 <= k < entries.len() ==> entry_correct(snaps, latest, previous, #[trigger] entries[k])
    &&& forall|k: int, l: int|
        0 <= k < l < entries.len() ==> seq_lt(#[trigger] entries[k].repo_full_name@, #[trigger] entries[l].repo_full_name@)
    &&& forall|i: int|
        0 <= i < snaps.len() && #[trigger] snaps[i].day@ == latest ==> exists|k: int|
            0 <= k < entries.len() && #[trigger] entries[k].repo_full_name@ == snaps[i].repo_full_name@
}

proof fn lemma_last_on_bounds(snaps: Seq<RepoSnapshot>, n: int, day: Seq<char>, repo: Seq<char>)
    requires
        0 <= n,
    ensures
        -1 <= last_on(snaps, n, day, repo) < n,
        0 <= last_on(snaps, n, day, repo) ==> {
            let r = last_on(snaps, n, day, repo);
            snaps[r].day@ == day && snaps[r].repo_full_name@ == repo
        },
    decreases n,
{
    if n > 0 {
        lemma_last_on_bounds(snaps, n - 1, day, repo);
    }
}

proof fn lemma_le_trans(a: Seq<char>, b: Seq<char>, c: Seq<char>)
    requires
        seq_le(a, b),
        seq_le(b, c),
    ensures
        seq_le(a, c),
{
    if seq_lt(a, b) && seq_lt(b, c) {
        lemma_seq_lt_transitive(a, b, c);
    }
}

/// Index of the snapshot with the most recent day.
fn latest_index(snaps: &[RepoSnapshot]) -> (r: usize)
    requires
        snaps@.len() > 0,
    ensures
        r < snaps@.len(),
        is_latest_day(snaps@, snaps@[r as int].day@),
{
    let mut best: usize = 0;
    let mut i: usize = 1;
    while i < snaps.len()
        invariant
            1 <= i <= snaps@.len(),
            best < i,
            forall|j: int| 0 <= j < i ==> seq_le(#[trigger] snaps@[j].day@, snaps@[best as int].day@),
        decreases snaps.len() - i,
    {
        if str_lt(snaps[best].day.as_str(), snaps[i].day.as_str()) {
            let ghost old_best = best;
            assert forall|j: int| 0 <= j < i + 1 implies seq_le(#[trigger] snaps@[j].day@, snaps@[i as int].day@) by {
                if j < i {
                    lemma_le_trans(snaps@[j].day@, snaps@[old_best as int].day@, snaps@[i as int].day@);
                }
            }
            best = i;
        } else {
            proof {
                lemma_seq_lt_total(snaps@[best as int].day@, snaps@[i as int].day@);
            }
        }
        i = i + 1;
    }
    best
}

/// Index of the snapshot with the most recent day strictly before `latest`, if any.
fn previous_index(snaps: &[RepoSnapshot], latest: &str) -> (r: Option<usize>)
    requires
        is_latest_day(snaps@, latest@),
    ensures
        r matches Some(p) ==> p < snaps@.len() && is_previous_day(snaps@, latest@, snaps@[p as int].day@),
        r is None ==> forall|i: int| 0 <= i < snaps@.len() ==> #[trigger] snaps@[i].day@ == latest@,
{
    let mut best: Option<usize> = None;
    let mut i: usize = 0;
    while i < snaps.len()
        invariant
            i <= snaps@.len(),
            is_latest_day(snaps@, latest@),
            best matches Some(p) ==> {
                &&& p < i
                &&& snaps@[p as int].day@ != latest@
                &&& forall|j: int|
                    0 <= j < i && #[trigger] snaps@[j].day@ != latest@ ==> seq_le(snaps@[j].day@, snaps@[p as int].day@)
            },
            best is None ==> forall|j: int| 0 <= j < i ==> #[trigger] snaps@[j].day@ == latest@,
        decreases snaps.len() - i,
    {
        if !str_eq(snaps[i].day.as_str(), latest) {
            match best {
                None => {
                    best = Some(i);
                },
                Some(p) => {
                    if str_lt(snaps[p].day.as_str(), snaps[i].day.as_str()) {
                        assert forall|j: int|
                            0 <= j < i + 1 && #[trigger] snaps@[j].day@ != latest@ implies seq_le(
                            snaps@[j].day@,
                            snaps@[i as int].day@,
                        ) by {
                            if j < i {
                                lemma_le_trans(snaps@[j].day@, snaps@[p as int].day@, snaps@[i as int].day@);
                            }
                        }
                        best = Some(i);
                    } else {
                        proof {
                            lemma_seq_lt_total(snaps@[p as int].day@, snaps@[i as int].day@);
                        }
                    }
                },
            }
        }
        i = i + 1;
    }
    if let Some(p) = best {
        proof {
            let d = snaps@[p as int].day@;
            assert(seq_le(d, latest@));
            assert(has_day(snaps@, d));
        }
    }
    best
}

/// Index of the last snapshot captured on `day` for `repo`, or `None`.
fn find_last_on(snaps: &[RepoSnapshot], day: &str, repo: &str) -> (r: Option<usize>)
    ensures
        r matches Some(p) ==> p as int == last_on(snaps@, snaps@.len() as int, day@, repo@),
        r is None ==> last_on(snaps@, snaps@.len() as int, day@, repo@) == -1,
{
    let mut found: Option<usize> = None;
    let mut i: usize = 0;
    while i < snaps.len()
        invariant
            i <= snaps@.len(),
            found matches Some(p) ==> p as int == last_on(snaps@, i as int, day@, repo@),
            found is None ==> last_on(snaps@, i as int, day@, repo@) == -1,
        decreases snaps.len() - i,
    {
        if str_eq(snaps[i].day.as_str(), day) && str_eq(snaps[i].repo_full_name.as_str(), repo) {
            found = Some(i);
        }
        i = i + 1;
    }
    found
}

/// Invariant of the name-ordered index built over the first `n` snapshots.
spec fn order_ok(snaps: Seq<RepoSnapshot>, latest: Seq<char>, n: int, order: Seq<usize>) -> bool {
    &&& forall|a: int| 0 <= a < order.len() ==> (#[trigger] order[a]) < n
    &&& forall|a: int|
        0 <= a < order.len() ==> order[a] as int == last_on(
            snaps,
            n,
            latest,
            snaps[#[trigger] order[a] as int].repo_full_name@,
        )
    &&& forall|a: int, b: int|
        0 <= a < b < order.len() ==> seq_lt(
            snaps[#[trigger] order[a] as int].repo_full_name@,
            snaps[#[trigger] order[b] as int].repo_full_name@,
        )
    &&& forall|j: int|
        0 <= j < n && #[trigger] snaps[j].day@ == latest ==> exists|a: int|
            0 <= a < order.len() && snaps[#[trigger] order[a] as int].repo_full_name@
                == snaps[j].repo_full_name@
}

proof fn lemma_last_on_step(snaps: Seq<RepoSnapshot>, n: int, day: Seq<char>, repo: Seq<char>)
    requires
        0 <= n < snaps.len(),
        !(snaps[n].day@ == day && snaps[n].repo_full_name@ == repo),
    ensures
        last_on(snaps, n + 1, day, repo) == last_on(snaps, n, day, repo),
{
}

/// Indices of the last capture on `latest` of each repo, ordered by repo name.
fn latest_by_repo(snaps: &[RepoSnapshot], latest: &str) -> (order: Vec<usize>)
    ensures
        order_ok(snaps@, latest@, snaps@.len() as int, order@),
{
    let mut order: Vec<usize> = Vec::new();
    let mut i: usize = 0;
    while i < snaps.len()
        invariant
            i <= snaps@.len(),
            order_ok(snaps@, latest@, i as int, order@),
        decreases snaps.len() - i,
    {
        let ghost old_order = order@;
        let ghost name_i = snaps@[i as int].repo_full_name@;
        if str_eq(snaps[i].day.as_str(), latest) {
            let name = snaps[i].repo_full_name.as_str();
            let mut k: usize = 0;
            while k < order.len() && str_lt(snaps[order[k]].repo_full_name.as_str(), name)
                invariant
                    order@ == old_order,
                    k <= order@.len(),
                    forall|a: int| 0 <= a < order@.len() ==> (#[trigger] order@[a]) < i,
                    i < snaps@.len(),
                    name@ == name_i,
                    forall|a: int| 0 <= a < k ==> seq_lt(snaps@[#[trigger] order@[a] as int].repo_full_name@, name_i),
                decreases order@.len() - k,
            {
                k = k + 1;
            }
            if k < order.len() && str_eq(snaps[order[k]].repo_full_name.as_str(), name) {
                order.set(k, i);
                proof {
                    let o = order@;
                    assert forall|a: int| 0 <= a < o.len() implies o[a] as int == last_on(
                        snaps@,
                        i + 1,
                        latest@,
                        snaps@[#[trigger] o[a] as int].repo_full_name@,
                    ) by {
                        if a != k {
                            let nm = snaps@[o[a] as int].repo_full_name@;
                            if a < k {
                                assert(seq_lt(snaps@[old_order[a] as int].repo_full_name@, snaps@[old_order[k as int] as int].repo_full_name@));
                            } else {
                                assert(seq_lt(snaps@[old_order[k as int] as int].repo_full_name@, snaps@[old_order[a] as int].repo_full_name@));
                            }
                            lemma_seq_lt_irreflexive(nm);
                            assert(nm != name_i);
                            lemma_last_on_step(snaps@, i as int, latest@, nm);
                        }
                    }
                    assert forall|j: int|
                        0 <= j < i + 1 && #[trigger] snaps@[j].day@ == latest@ implies exists|a: int|
                        0 <= a < o.len() && snaps@[#[trigger] o[a] as int].repo_full_name@
                            == snaps@[j].repo_full_name@ by {
                        if j < i {
                            let a = choose|a: int|
                                0 <= a < old_order.len() && snaps@[#[trigger] old_order[a] as int].repo_full_name@
                                    == snaps@[j].repo_full_name@;
                            assert(snaps@[o[a] as int].repo_full_name@ == snaps@[old_order[a] as int].repo_full_name@);
                        } else {
                            assert(snaps@[o[k as int] as int].repo_full_name@ == snaps@[j].repo_full_name@);
                        }
                    }
                }
            } else {
                proof {
                    if k < order@.len() {
                        lemma_seq_lt_total(snaps@[order@[k as int] as int].repo_full_name@, name_i);
                    }
                }
                order.insert(k, i);
                proof {
                    let o = order@;
                    assert(o =~= old_order.insert(k as int, i));
                    // name_i is not yet in the index
                    assert forall|a: int| 0 <= a < old_order.len() implies snaps@[#[trigger] old_order[a] as int].repo_full_name@ != name_i by {
                        if a < k {
                            lemma_seq_lt_irreflexive(name_i);
                        } else {
                            if a > k {
                                assert(seq_lt(snaps@[old_order[k as int] as int].repo_full_name@, snaps@[old_order[a] as int].repo_full_name@));
                                lemma_seq_lt_transitive(name_i, snaps@[old_order[k as int] as int].repo_full_name@, snaps@[old_order[a] as int].repo_full_name@);
                            }
                            lemma_seq_lt_irreflexive(name_i);
                        }
                    }
                    assert forall|a: int| 0 <= a < o.len() implies o[a] as int == last_on(
                        snaps@,
                        i + 1,
                        latest@,
                        snaps@[#[trigger] o[a] as int].repo_full_name@,
                    ) by {
                        if a < k {
                            assert(o[a] == old_order[a]);
                            lemma_last_on_step(snaps@, i as int, latest@, snaps@[old_order[a] as int].repo_full_name@);
                        } else if a > k {
                            assert(o[a] == old_order[a - 1]);
                            lemma_last_on_step(snaps@, i as int, latest@, snaps@[old_order[a - 1] as int].repo_full_name@);
                        }
                    }
                    assert forall|a: int, b: int|
                        0 <= a < b < o.len() implies seq_lt(
                        snaps@[#[trigger] o[a] as int].repo_full_name@,
                        snaps@[#[trigger] o[b] as int].repo_full_name@,
                    ) by {
                        if b < k {
                        } else if b == k {
                        } else if a < k {
                            // a < k < b
                            if b - 1 > k {
                                assert(seq_lt(snaps@[old_order[k as int] as int].repo_full_name@, snaps@[old_order[b - 1] as int].repo_full_name@));
                                lemma_seq_lt_transitive(name_i, snaps@[old_order[k as int] as int].repo_full_name@, snaps@[old_order[b - 1] as int].repo_full_name@);
                            }
                            lemma_seq_lt_transitive(snaps@[old_order[a] as int].repo_full_name@, name_i, snaps@[old_order[b - 1] as int].repo_full_name@);
                        } else if a == k {
                            if b - 1 > k {
                                assert(seq_lt(snaps@[old_order[k as int] as int].repo_full_name@, snaps@[old_order[b - 1] as int].repo_full_name@));
                                lemma_seq_lt_transitive(name_i, snaps@[old_order[k as int] as int].repo_full_name@, snaps@[old_order[b - 1] as int].repo_full_name@);
                            }
                        } else {
                            assert(o[a] == old_order[a - 1]);
                            assert(o[b] == old_order[b - 1]);
                        }
                    }
                    assert forall|j: int|
                        0 <= j < i + 1 && #[trigger] snaps@[j].day@ == latest@ implies exists|a: int|
                        0 <= a < o.len() && snaps@[#[trigger] o[a] as int].repo_full_name@
                            == snaps@[j].repo_full_name@ by {
                        if j < i {
                            let a = choose|a: int|
                                0 <= a < old_order.len() && snaps@[#[trigger] old_order[a] as int].repo_full_name@
                                    == snaps@[j].repo_full_name@;
                            if a < k {
                                assert(o[a] == old_order[a]);
                            } else {
                                assert(o[a + 1] == old_order[a]);
                            }
                        } else {
                            assert(o[k as int] == i);
                        }
                    }
                }
            }
        } else {
            proof {
                let o = order@;
                assert forall|a: int| 0 <= a < o.len() implies o[a] as int == last_on(
                    snaps@,
                    i + 1,
                    latest@,
                    snaps@[#[trigger] o[a] as int].repo_full_name@,
                ) by {
                    lemma_last_on_step(snaps@, i as int, latest@, snaps@[o[a] as int].repo_full_name@);
                }
            }
        }
        i = i + 1;
    }
    order
}

/// `d` is the digest of `snaps`: the latest captured day, the one before it,
/// and one entry per repo captured on the latest day (see [`entries_correct`]).
pub open spec fn is_digest_of(snaps: Seq<RepoSnapshot>, d: DigestDto) -> bool {
    &&& (d.day is None <==> snaps.len() == 0)
    &&& (d.day is None ==> d.previous_day is None && d.entries@.len() == 0)
    &&& (d.day matches Some(day) ==> {
        &&& is_latest_day(snaps, day@)
        &&& (d.previous_day matches Some(p) ==> is_previous_day(snaps, day@, p@))
        &&& (d.previous_day is None ==> forall|i: int|
            0 <= i < snaps.len() ==> #[trigger] snaps[i].day@ == day@)
        &&& entries_correct(snaps, day@, opt_view(d.previous_day), d.entries@)
    })
}

proof fn lemma_seq_le_antisymmetric(a: Seq<char>, b: Seq<char>)
    requires
        seq_le(a, b),
        seq_le(b, a),
    ensures
        a == b,
{
    lemma_seq_lt_asymmetric(a, b);
}

/// The plain values of a digest entry.
pub open spec fn entry_view(e: DigestEntryDto) -> (Seq<char>, i64, i64, i64, i64, i64, i64) {
    (e.repo_full_name@, e.stars_delta, e.forks_delta, e.open_issues_delta, e.stars, e.forks, e.open_issues)
}

/// The plain values of a digest: its day, previous day and entries.
pub open spec fn digest_view(d: DigestDto) -> (Option<Seq<char>>, Option<Seq<char>>, Seq<(Seq<char>, i64, i64, i64, i64, i64, i64)>) {
    (opt_view(d.day), opt_view(d.previous_day), d.entries@.map_values(|e: DigestEntryDto| entry_view(e)))
}

proof fn lemma_last_on_found(snaps: Seq<RepoSnapshot>, n: int, day: Seq<char>, repo: Seq<char>, j: int)
    requires
        0 <= j < n,
        snaps[j].day@ == day,
        snaps[j].repo_full_name@ == repo,
    ensures
        j <= last_on(snaps, n, day, repo),
    decreases n,
{
    if n - 1 != j {
        if !(snaps[n - 1].day@ == day && snaps[n - 1].repo_full_name@ == repo) {
            lemma_last_on_found(snaps, n - 1, day, repo, j);
        }
    }
}

/// Two strictly ordered lists of names holding the same names are equal.
proof fn lemma_sorted_names_equal(a: Seq<Seq<char>>, b: Seq<Seq<char>>)
    requires
        forall|k: int, l: int| 0 <= k < l < a.len() ==> seq_lt(#[trigger] a[k], #[trigger] a[l]),
        forall|k: int, l: int| 0 <= k < l < b.len() ==> seq_lt(#[trigger] b[k], #[trigger] b[l]),
        forall|x: Seq<char>| a.contains(x) <==> b.contains(x),
    ensures
        a == b,
    decreases a.len(),
{
    if a.len() == 0 {
        if b.len() > 0 {
            assert(b.contains(b[0]));
        }
        assert(a =~= b);
    } else {
        assert(a.contains(a[0]));
        assert(b.contains(a[0]));
        assert(b.len() > 0);
        assert(b.contains(b[0]));
        assert(a.contains(b[0]));
        let i = choose|i: int| 0 <= i < a.len() && a[i] == b[0];
        let j = choose|j: int| 0 <= j < b.len() && b[j] == a[0];
        if i > 0 && j > 0 {
            assert(seq_lt(a[0], a[i]));
            assert(seq_lt(b[0], b[j]));
            lemma_seq_lt_asymmetric(a[0], b[0]);
        }
        assert(a[0] == b[0]);
        let ta = a.drop_first();
        let tb = b.drop_first();
        assert forall|x: Seq<char>| ta.contains(x) <==> tb.contains(x) by {
            if ta.contains(x) {
                let k = choose|k: int| 0 <= k < ta.len() && ta[k] == x;
                assert(a[k + 1] == x);
                assert(a.contains(x));
                assert(seq_lt(a[0], a[k + 1]));
                lemma_seq_lt_irreflexive(x);
                let m = choose|m: int| 0 <= m < b.len() && b[m] == x;
                assert(m != 0);
                assert(tb[m - 1] == x);
            }
            if tb.contains(x) {
                let k = choose|k: int| 0 <= k < tb.len() && tb[k] == x;
                assert(b[k + 1] == x);
                assert(b.contains(x));
                assert(seq_lt(b[0], b[k + 1]));
                lemma_seq_lt_irreflexive(x);
                let m = choose|m: int| 0 <= m < a.len() && a[m] == x;
                assert(m != 0);
                assert(ta[m - 1] == x);
            }
        }
        assert forall|k: int, l: int| 0 <= k < l < ta.len() implies seq_lt(#[trigger] ta[k], #[trigger] ta[l]) by {
            assert(ta[k] == a[k + 1] && ta[l] == a[l + 1]);
        }
        assert forall|k: int, l: int| 0 <= k < l < tb.len() implies seq_lt(#[trigger] tb[k], #[trigger] tb[l]) by {
            assert(tb[k] == b[k + 1] && tb[l] == b[l + 1]);
        }
        lemma_sorted_names_equal(ta, tb);
        assert forall|k: int| 0 <= k < a.len() implies a[k] == b[k] by {
            if k > 0 {
                assert(a[k] == ta[k - 1]);
                assert(b[k] == tb[k - 1]);
            }
        }
        assert(a =~= b);
    }
}

/// The names of a digest's entries, in order.
pub open spec fn entry_names(d: DigestDto) -> Seq<Seq<char>> {
    d.entries@.map_values(|e: DigestEntryDto| e.repo_full_name@)
}

/// A list of snapshots has one digest: any two digests of it hold the same
/// values.
pub proof fn lemma_digest_unique(snaps: Seq<RepoSnapshot>, d1: DigestDto, d2: DigestDto)
    requires
        is_digest_of(snaps, d1),
        is_digest_of(snaps, d2),
    ensures
        digest_view(d1) == digest_view(d2),
{
    if snaps.len() == 0 {
        assert(d1.entries@.map_values(|e: DigestEntryDto| entry_view(e)) =~= d2.entries@.map_values(|e: DigestEntryDto| entry_view(e)));
        return;
    }
    let l1 = d1.day.unwrap()@;
    let l2 = d2.day.unwrap()@;
    let i1 = choose|i: int| 0 <= i < snaps.len() && snaps[i].day@ == l1;
    let i2 = choose|i: int| 0 <= i < snaps.len() && snaps[i].day@ == l2;
    assert(seq_le(snaps[i1].day@, l2));
    assert(seq_le(snaps[i2].day@, l1));
    lemma_seq_le_antisymmetric(l1, l2);
    let latest = l1;
    // previous days
    match (d1.previous_day, d2.previous_day) {
        (Some(p1), Some(p2)) => {
            let j1 = choose|i: int| 0 <= i < snaps.len() && snaps[i].day@ == p1@;
            let j2 = choose|i: int| 0 <= i < snaps.len() && snaps[i].day@ == p2@;
            lemma_seq_lt_irreflexive(latest);
            assert(snaps[j1].day@ != latest);
            assert(snaps[j2].day@ != latest);
            assert(seq_le(snaps[j1].day@, p2@));
            assert(seq_le(snaps[j2].day@, p1@));
            lemma_seq_le_antisymmetric(p1@, p2@);
        },
        (Some(p1), None) => {
            let j1 = choose|i: int| 0 <= i < snaps.len() && snaps[i].day@ == p1@;
            assert(snaps[j1].day@ == latest);
            lemma_seq_lt_irreflexive(latest);
        },
        (None, Some(p2)) => {
            let j2 = choose|i: int| 0 <= i < snaps.len() && snaps[i].day@ == p2@;
            assert(snaps[j2].day@ == latest);
            lemma_seq_lt_irreflexive(latest);
        },
        (None, None) => {},
    }
    let pv = opt_view(d1.previous_day);
    assert(pv == opt_view(d2.previous_day));
    let n1 = entry_names(d1);
    let n2 = entry_names(d2);
    assert forall|x: Seq<char>| n1.contains(x) <==> n2.contains(x) by {
        if n1.contains(x) {
            let k = choose|k: int| 0 <= k < n1.len() && n1[k] == x;
            assert(entry_correct(snaps, latest, pv, d1.entries@[k]));
            lemma_last_on_bounds(snaps, snaps.len() as int, latest, x);
            let c = last_on(snaps, snaps.len() as int, latest, x);
            assert(snaps[c].day@ == latest);
            let k2 = choose|k2: int| 0 <= k2 < d2.entries@.len() && #[trigger] d2.entries@[k2].repo_full_name@ == snaps[c].repo_full_name@;
            assert(n2[k2] == x);
        }
        if n2.contains(x) {
            let k = choose|k: int| 0 <= k < n2.len() && n2[k] == x;
            assert(entry_correct(snaps, latest, pv, d2.entries@[k]));
            lemma_last_on_bounds(snaps, snaps.len() as int, latest, x);
            let c = last_on(snaps, snaps.len() as int, latest, x);
            assert(snaps[c].day@ == latest);
            let k1 = choose|k1: int| 0 <= k1 < d1.entries@.len() && #[trigger] d1.entries@[k1].repo_full_name@ == snaps[c].repo_full_name@;
            assert(n1[k1] == x);
        }
    }
    assert forall|k: int, l: int| 0 <= k < l < n1.len() implies seq_lt(#[trigger] n1[k], #[trigger] n1[l]) by {
        assert(seq_lt(d1.entries@[k].repo_full_name@, d1.entries@[l].repo_full_name@));
    }
    assert forall|k: int, l: int| 0 <= k < l < n2.len() implies seq_lt(#[trigger] n2[k], #[trigger] n2[l]) by {
        assert(seq_lt(d2.entries@[k].repo_full_name@, d2.entries@[l].repo_full_name@));
    }
    lemma_sorted_names_equal(n1, n2);
    let v1 = d1.entries@.map_values(|e: DigestEntryDto| entry_view(e));
    let v2 = d2.entries@.map_values(|e: DigestEntryDto| entry_view(e));
    assert(n1.len() == n2.len());
    assert forall|k: int| 0 <= k < v1.len() implies v1[k] == v2[k] by {
        assert(n1[k] == n2[k]);
        assert(entry_correct(snaps, latest, pv, d1.entries@[k]));
        assert(entry_correct(snaps, latest, pv, d2.entries@[k]));
    }
    assert(v1 =~= v2);
}

/// No two snapshots capture the same repo on the same day.
pub open spec fn keys_distinct(snaps: Seq<RepoSnapshot>) -> bool {
    forall|i: int, j: int|
        0 <= i < j < snaps.len() && (#[trigger] snaps[i]).day@ == (#[trigger] snaps[j]).day@
            ==> snaps[i].repo_full_name@ != snaps[j].repo_full_name@
}

/// With distinct keys, the capture of a repo on a day is the one snapshot
/// that has them.
proof fn lemma_last_on_distinct(snaps: Seq<RepoSnapshot>, i: int)
    requires
        keys_distinct(snaps),
        0 <= i < snaps.len(),
    ensures
        last_on(snaps, snaps.len() as int, snaps[i].day@, snaps[i].repo_full_name@) == i,
{
    let n = snaps.len() as int;
    let day = snaps[i].day@;
    let repo = snaps[i].repo_full_name@;
    lemma_last_on_found(snaps, n, day, repo, i);
    lemma_last_on_bounds(snaps, n, day, repo);
    let c = last_on(snaps, n, day, repo);
    if c != i {
        assert(snaps[c].day@ == day && snaps[c].repo_full_name@ == repo);
        assert(i < c);
        assert(snaps[i].day@ == snaps[c].day@);
    }
}

/// The same snapshots, with distinct keys, in another order have the same
/// digest entries: a digest of one list is a digest of the other.
proof fn lemma_digest_transfer(s1: Seq<RepoSnapshot>, s2: Seq<RepoSnapshot>, d: DigestDto)
    requires
        keys_distinct(s1),
        keys_distinct(s2),
        forall|x: RepoSnapshot| s1.contains(x) <==> s2.contains(x),
        is_digest_of(s1, d),
    ensures
        is_digest_of(s2, d),
{
    if s1.len() == 0 {
        if s2.len() > 0 {
            assert(s2.contains(s2[0]));
        }
        return;
    }
    if s2.len() == 0 {
        assert(s1.contains(s1[0]));
    }
    let latest = d.day.unwrap()@;
    let pv = opt_view(d.previous_day);
    let n1 = s1.len() as int;
    let n2 = s2.len() as int;
    // latest day
    let w = choose|i: int| 0 <= i < n1 && s1[i].day@ == latest;
    assert(s1.contains(s1[w]));
    let w2 = choose|j: int| 0 <= j < n2 && #[trigger] s2[j] == s1[w];
    assert(has_day(s2, latest));
    assert forall|i: int| 0 <= i < n2 implies seq_le(#[trigger] s2[i].day@, latest) by {
        assert(s2.contains(s2[i]));
        let j = choose|j: int| 0 <= j < n1 && #[trigger] s1[j] == s2[i];
        assert(seq_le(s1[j].day@, latest));
    }
    // previous day
    match d.previous_day {
        Some(p) => {
            let v = choose|i: int| 0 <= i < n1 && s1[i].day@ == p@;
            assert(s1.contains(s1[v]));
            let v2 = choose|j: int| 0 <= j < n2 && #[trigger] s2[j] == s1[v];
            assert(has_day(s2, p@));
            assert forall|i: int| 0 <= i < n2 && #[trigger] s2[i].day@ != latest implies seq_le(s2[i].day@, p@) by {
                assert(s2.contains(s2[i]));
                let j = choose|j: int| 0 <= j < n1 && #[trigger] s1[j] == s2[i];
                assert(s1[j].day@ != latest);
            }
        },
        None => {
            assert forall|i: int| 0 <= i < n2 implies #[trigger] s2[i].day@ == latest by {
                assert(s2.contains(s2[i]));
                let j = choose|j: int| 0 <= j < n1 && #[trigger] s1[j] == s2[i];
                assert(s1[j].day@ == latest);
            }
        },
    }
    // entries
    let es = d.entries@;
    assert forall|k: int| 0 <= k < es.len() implies entry_correct(s2, latest, pv, #[trigger] es[k]) by {
        let e = es[k];
        let name = e.repo_full_name@;
        assert(entry_correct(s1, latest, pv, e));
        let c1 = last_on(s1, n1, latest, name);
        lemma_last_on_bounds(s1, n1, latest, name);
        assert(s1.contains(s1[c1]));
        let c2 = choose|j: int| 0 <= j < n2 && #[trigger] s2[j] == s1[c1];
        lemma_last_on_distinct(s2, c2);
        assert(last_on(s2, n2, latest, name) == c2);
        match pv {
            Some(pd) => {
                let p1 = last_on(s1, n1, pd, name);
                lemma_last_on_bounds(s1, n1, pd, name);
                lemma_last_on_bounds(s2, n2, pd, name);
                let p2 = last_on(s2, n2, pd, name);
                if 0 <= p1 {
                    assert(s1.contains(s1[p1]));
                    let q = choose|j: int| 0 <= j < n2 && #[trigger] s2[j] == s1[p1];
                    lemma_last_on_distinct(s2, q);
                } else if 0 <= p2 {
                    assert(s2.contains(s2[p2]));
                    let q = choose|j: int| 0 <= j < n1 && #[trigger] s1[j] == s2[p2];
                    lemma_last_on_found(s1, n1, pd, name, q);
                }
            },
            None => {},
        }
    }
    assert forall|i: int| 0 <= i < n2 && #[trigger] s2[i].day@ == latest implies exists|k: int|
        0 <= k < es.len() && #[trigger] es[k].repo_full_name@ == s2[i].repo_full_name@ by {
        assert(s2.contains(s2[i]));
        let j = choose|j: int| 0 <= j < n1 && #[trigger] s1[j] == s2[i];
        assert(s1[j].day@ == latest);
    }
}

/// The digest does not depend on the order of the snapshots: two lists with
/// the same snapshots, no repo captured twice on one day, have digests with
/// the same values.
pub proof fn lemma_digest_order_independent(s1: Seq<RepoSnapshot>, s2: Seq<RepoSnapshot>, d1: DigestDto, d2: DigestDto)
    requires
        keys_distinct(s1),
        keys_distinct(s2),
        forall|x: RepoSnapshot| s1.contains(x) <==> s2.contains(x),
        is_digest_of(s1, d1),
        is_digest_of(s2, d2),
    ensures
        digest_view(d1) == digest_view(d2),
{
    lemma_digest_transfer(s1, s2, d1);
    lemma_digest_unique(s2, d1, d2);
}

/// Latest and previous days depend only on which snapshots there are.
proof fn lemma_days_transfer(s1: Seq<RepoSnapshot>, s2: Seq<RepoSnapshot>, d: Seq<char>, p: Seq<char>)
    requires
        forall|x: RepoSnapshot| s1.contains(x) <==> s2.contains(x),
    ensures
        is_latest_day(s1, d) ==> is_latest_day(s2, d),
        is_previous_day(s1, d, p) ==> is_previous_day(s2, d, p),
{
    if is_latest_day(s1, d) {
        let w = choose|i: int| 0 <= i < s1.len() && s1[i].day@ == d;
        assert(s1.contains(s1[w]));
        assert forall|i: int| 0 <= i < s2.len() implies seq_le(#[trigger] s2[i].day@, d) by {
            assert(s2.contains(s2[i]));
            let j = choose|j: int| 0 <= j < s1.len() && s1[j] == s2[i];
            assert(seq_le(s1[j].day@, d));
        }
    }
    if is_previous_day(s1, d, p) {
        let w = choose|i: int| 0 <= i < s1.len() && s1[i].day@ == p;
        assert(s1.contains(s1[w]));
        assert forall|i: int| 0 <= i < s2.len() && #[trigger] s2[i].day@ != d implies seq_le(s2[i].day@, p) by {
            assert(s2.contains(s2[i]));
            let j = choose|j: int| 0 <= j < s1.len() && s1[j] == s2[i];
            assert(s1[j].day@ != d);
        }
    }
}

/// Whether the digest's deltas fit depends only on which snapshots there are
/// (no repo captured twice on one day), not on their order.
proof fn lemma_fits_transfer(s1: Seq<RepoSnapshot>, s2: Seq<RepoSnapshot>)
    requires
        keys_distinct(s1),
        keys_distinct(s2),
        forall|x: RepoSnapshot| s1.contains(x) <==> s2.contains(x),
        digest_deltas_fit(s1),
    ensures
        digest_deltas_fit(s2),
{
    let n1 = s1.len() as int;
    let n2 = s2.len() as int;
    assert forall|i: int, j: int|
        #![trigger s2[i], s2[j]]
        0 <= i < n2 && 0 <= j < n2
            && is_latest_day(s2, s2[i].day@)
            && is_previous_day(s2, s2[i].day@, s2[j].day@)
            && i == last_on(s2, n2, s2[i].day@, s2[i].repo_full_name@)
            && j == last_on(s2, n2, s2[j].day@, s2[i].repo_full_name@)
            implies delta_fits(s2[i], s2[j]) by {
        lemma_last_on_bounds(s2, n2, s2[j].day@, s2[i].repo_full_name@);
        assert(s2.contains(s2[i]));
        assert(s2.contains(s2[j]));
        let i1 = choose|k: int| 0 <= k < n1 && s1[k] == s2[i];
        let j1 = choose|k: int| 0 <= k < n1 && s1[k] == s2[j];
        lemma_days_transfer(s2, s1, s2[i].day@, s2[j].day@);
        lemma_last_on_distinct(s1, i1);
        lemma_last_on_distinct(s1, j1);
        assert(is_latest_day(s1, s1[i1].day@));
        assert(is_previous_day(s1, s1[i1].day@, s1[j1].day@));
        assert(delta_fits(s1[i1], s1[j1]));
    }
}

/// The outcome of [`try_compute_digest`] on `snaps`: `None` when a delta does
/// not fit, else a digest of `snaps`.
pub open spec fn is_digest_outcome(snaps: Seq<RepoSnapshot>, r: Option<DigestDto>) -> bool {
    &&& (r is None <==> !digest_deltas_fit(snaps))
    &&& (r matches Some(d) ==> is_digest_of(snaps, d))
}

/// The digest does not depend on the order of the snapshots, whatever their
/// numbers: for two lists with the same snapshots (no repo captured twice on
/// one day) either both digests fail on a delta that does not fit, or both
/// succeed with the same values.
pub proof fn lemma_digest_outcome_order_independent(s1: Seq<RepoSnapshot>, s2: Seq<RepoSnapshot>, r1: Option<DigestDto>, r2: Option<DigestDto>)
    requires
        keys_distinct(s1),
        keys_distinct(s2),
        forall|x: RepoSnapshot| s1.contains(x) <==> s2.contains(x),
        is_digest_outcome(s1, r1),
        is_digest_outcome(s2, r2),
    ensures
        r1 is None <==> r2 is None,
        r1 matches Some(d1) ==> (r2 matches Some(d2) && digest_view(d1) == digest_view(d2)),
{
    if digest_deltas_fit(s1) {
        lemma_fits_transfer(s1, s2);
    }
    if digest_deltas_fit(s2) {
        lemma_fits_transfer(s2, s1);
    }
    if let (Some(d1), Some(d2)) = (r1, r2) {
        lemma_digest_order_independent(s1, s2, d1, d2);
    }
}

/// The snapshots of `snaps` captured on `from` or a later day, in order.
pub open spec fn from_day(snaps: Seq<RepoSnapshot>, from: Seq<char>) -> Seq<RepoSnapshot> {
    snaps.filter(|x: RepoSnapshot| seq_le(from, x.day@))
}

proof fn lemma_last_on_push(t: Seq<RepoSnapshot>, x: RepoSnapshot, m: int, day: Seq<char>, repo: Seq<char>)
    requires
        0 <= m <= t.len(),
    ensures
        last_on(t.push(x), m, day, repo) == last_on(t, m, day, repo),
    decreases m,
{
    if m > 0 {
        lemma_last_on_push(t, x, m - 1, day, repo);
        assert(t.push(x)[m - 1] == t[m - 1]);
    }
}

/// Keeping every snapshot of a repo on a day keeps its last capture.
proof fn lemma_last_on_filter(snaps: Seq<RepoSnapshot>, keep: spec_fn(RepoSnapshot) -> bool, day: Seq<char>, repo: Seq<char>)
    requires
        forall|i: int| 0 <= i < snaps.len() && (#[trigger] snaps[i]).day@ == day && snaps[i].repo_full_name@ == repo ==> keep(snaps[i]),
    ensures
        ({
            let f = snaps.filter(keep);
            let a = last_on(snaps, snaps.len() as int, day, repo);
            let b = last_on(f, f.len() as int, day, repo);
            &&& (a < 0 <==> b < 0)
            &&& (0 <= a ==> 0 <= b < f.len() && f[b] == snaps[a])
        }),
    decreases snaps.len(),
{
    reveal(Seq::filter);
    let n = snaps.len() as int;
    if n > 0 {
        let init = snaps.drop_last();
        let x = snaps.last();
        assert forall|i: int| 0 <= i < init.len() && (#[trigger] init[i]).day@ == day && init[i].repo_full_name@ == repo implies keep(init[i]) by {
            assert(init[i] == snaps[i]);
        }
        lemma_last_on_filter(init, keep, day, repo);
        let fi = init.filter(keep);
        let f = snaps.filter(keep);
        assert(snaps =~= init.push(x));
        lemma_last_on_push(init, x, n - 1, day, repo);
        lemma_last_on_bounds(init, n - 1, day, repo);
        lemma_last_on_bounds(fi, fi.len() as int, day, repo);
        if keep(x) {
            assert(f == fi.push(x));
            lemma_last_on_push(fi, x, fi.len() as int, day, repo);
            if !(x.day@ == day && x.repo_full_name@ == repo) {
                let b = last_on(fi, fi.len() as int, day, repo);
                if 0 <= b {
                    assert(f[b] == fi[b]);
                }
            }
        } else {
            assert(f == fi);
            assert(snaps[n - 1] == x);
        }
    }
}

/// Snapshots from before the previous day never change the digest: the rows
/// from the previous day on have a digest with the same values.
pub proof fn lemma_digest_ignores_older_days(snaps: Seq<RepoSnapshot>, d: DigestDto, p: Seq<char>, d2: DigestDto)
    requires
        is_digest_of(snaps, d),
        opt_view(d.previous_day) == Some(p),
        is_digest_of(from_day(snaps, p), d2),
    ensures
        digest_view(d2) == digest_view(d),
{
    let keep = |x: RepoSnapshot| seq_le(p, x.day@);
    let kept = snaps.filter(keep);
    assert(kept == from_day(snaps, p));
    broadcast use Seq::lemma_filter_contains, Seq::lemma_filter_contains_rev, Seq::lemma_filter_pred;
    let latest = d.day.unwrap()@;
    let pv = opt_view(d.previous_day);
    let n = snaps.len() as int;
    let nk = kept.len() as int;
    assert(seq_lt(p, latest));
    // latest day
    let w = choose|i: int| 0 <= i < n && snaps[i].day@ == latest;
    assert(keep(snaps[w]));
    assert(kept.contains(snaps[w]));
    assert(has_day(kept, latest));
    assert forall|i: int| 0 <= i < nk implies seq_le(#[trigger] kept[i].day@, latest) by {
        assert(kept.contains(kept[i]));
        assert(keep(kept[i]));
        assert(snaps.contains(kept[i]));
        let j = choose|j: int| 0 <= j < n && #[trigger] snaps[j] == kept[i];
        assert(seq_le(snaps[j].day@, latest));
    }
    // previous day
    let v = choose|i: int| 0 <= i < n && snaps[i].day@ == p;
    assert(keep(snaps[v]));
    assert(kept.contains(snaps[v]));
    assert(has_day(kept, p));
    assert forall|i: int| 0 <= i < nk && #[trigger] kept[i].day@ != latest implies seq_le(kept[i].day@, p) by {
        assert(kept.contains(kept[i]));
        assert(keep(kept[i]));
        assert(snaps.contains(kept[i]));
        let j = choose|j: int| 0 <= j < n && #[trigger] snaps[j] == kept[i];
        assert(snaps[j].day@ != latest);
    }
    // entries
    let es = d.entries@;
    assert forall|k: int| 0 <= k < es.len() implies entry_correct(kept, latest, pv, #[trigger] es[k]) by {
        let name = es[k].repo_full_name@;
        assert(entry_correct(snaps, latest, pv, es[k]));
        assert forall|i: int| 0 <= i < n && (#[trigger] snaps[i]).day@ == latest && snaps[i].repo_full_name@ == name implies keep(snaps[i]) by {
            assert(seq_le(p, latest));
        }
        lemma_last_on_filter(snaps, keep, latest, name);
        assert forall|i: int| 0 <= i < n && (#[trigger] snaps[i]).day@ == p && snaps[i].repo_full_name@ == name implies keep(snaps[i]) by {
        }
        lemma_last_on_filter(snaps, keep, p, name);
    }
    assert forall|i: int| 0 <= i < nk && #[trigger] kept[i].day@ == latest implies exists|k: int|
        0 <= k < es.len() && #[trigger] es[k].repo_full_name@ == kept[i].repo_full_name@ by {
        assert(kept.contains(kept[i]));
        assert(keep(kept[i]));
        assert(snaps.contains(kept[i]));
        let j = choose|j: int| 0 <= j < n && #[trigger] snaps[j] == kept[i];
        assert(snaps[j].day@ == latest);
    }
    assert(is_digest_of(kept, d));
    lemma_digest_unique(kept, d, d2);
}

/// The rows from the previous day on keep the latest and previous days.
proof fn lemma_kept_days(snaps: Seq<RepoSnapshot>, latest: Seq<char>, p: Seq<char>)
    requires
        is_latest_day(snaps, latest),
        is_previous_day(snaps, latest, p),
    ensures
        is_latest_day(from_day(snaps, p), latest),
        is_previous_day(from_day(snaps, p), latest, p),
{
    let keep = |x: RepoSnapshot| seq_le(p, x.day@);
    let kept = snaps.filter(keep);
    assert(kept == from_day(snaps, p));
    broadcast use Seq::lemma_filter_contains, Seq::lemma_filter_contains_rev, Seq::lemma_filter_pred;
    let n = snaps.len() as int;
    let w = choose|i: int| 0 <= i < n && snaps[i].day@ == latest;
    assert(keep(snaps[w]));
    assert(kept.contains(snaps[w]));
    let v = choose|i: int| 0 <= i < n && snaps[i].day@ == p;
    assert(keep(snaps[v]));
    assert(kept.contains(snaps[v]));
    assert forall|i: int| 0 <= i < kept.len() implies seq_le(#[trigger] kept[i].day@, latest) by {
        assert(kept.contains(kept[i]));
        let j = choose|j: int| 0 <= j < n && snaps[j] == kept[i];
        assert(seq_le(snaps[j].day@, latest));
    }
    assert forall|i: int| 0 <= i < kept.len() && #[trigger] kept[i].day@ != latest implies seq_le(kept[i].day@, p) by {
        assert(kept.contains(kept[i]));
        let j = choose|j: int| 0 <= j < n && snaps[j] == kept[i];
        assert(snaps[j].day@ != latest);
    }
}

proof fn lemma_latest_unique(snaps: Seq<RepoSnapshot>, a: Seq<char>, b: Seq<char>)
    requires
        is_latest_day(snaps, a),
        is_latest_day(snaps, b),
    ensures
        a == b,
{
    let i = choose|i: int| 0 <= i < snaps.len() && snaps[i].day@ == a;
    let j = choose|j: int| 0 <= j < snaps.len() && snaps[j].day@ == b;
    assert(seq_le(snaps[i].day@, b));
    assert(seq_le(snaps[j].day@, a));
    lemma_seq_le_antisymmetric(a, b);
}

proof fn lemma_previous_unique(snaps: Seq<RepoSnapshot>, l: Seq<char>, a: Seq<char>, b: Seq<char>)
    requires
        is_previous_day(snaps, l, a),
        is_previous_day(snaps, l, b),
    ensures
        a == b,
{
    let i = choose|i: int| 0 <= i < snaps.len() && snaps[i].day@ == a;
    let j = choose|j: int| 0 <= j < snaps.len() && snaps[j].day@ == b;
    lemma_seq_lt_irreflexive(l);
    assert(snaps[i].day@ != l);
    assert(snaps[j].day@ != l);
    assert(seq_le(snaps[i].day@, b));
    assert(seq_le(snaps[j].day@, a));
    lemma_seq_le_antisymmetric(a, b);
}

/// The digest's deltas fit for all rows iff they fit for the rows from the
/// previous day on.
proof fn lemma_fits_kept(snaps: Seq<RepoSnapshot>, latest: Seq<char>, p: Seq<char>)
    requires
        is_latest_day(snaps, latest),
        is_previous_day(snaps, latest, p),
    ensures
        digest_deltas_fit(snaps) <==> digest_deltas_fit(from_day(snaps, p)),
{
    let keep = |x: RepoSnapshot| seq_le(p, x.day@);
    let kept = snaps.filter(keep);
    assert(kept == from_day(snaps, p));
    broadcast use Seq::lemma_filter_contains, Seq::lemma_filter_contains_rev, Seq::lemma_filter_pred;
    lemma_kept_days(snaps, latest, p);
    let n = snaps.len() as int;
    let nk = kept.len() as int;
    assert(seq_lt(p, latest));
    lemma_seq_lt_irreflexive(p);
    if digest_deltas_fit(snaps) {
        assert forall|a: int, b: int|
            #![trigger kept[a], kept[b]]
            0 <= a < nk && 0 <= b < nk
                && is_latest_day(kept, kept[a].day@)
                && is_previous_day(kept, kept[a].day@, kept[b].day@)
                && a == last_on(kept, nk, kept[a].day@, kept[a].repo_full_name@)
                && b == last_on(kept, nk, kept[b].day@, kept[a].repo_full_name@)
                implies delta_fits(kept[a], kept[b]) by {
            let name = kept[a].repo_full_name@;
            lemma_latest_unique(kept, kept[a].day@, latest);
            lemma_previous_unique(kept, latest, kept[b].day@, p);
            assert(kept.contains(kept[a]));
            let ia = choose|k: int| 0 <= k < n && snaps[k] == kept[a];
            lemma_last_on_found(snaps, n, latest, name, ia);
            lemma_last_on_bounds(snaps, n, latest, name);
            lemma_last_on_bounds(snaps, n, p, name);
            lemma_last_on_bounds(kept, nk, p, name);
            assert forall|k: int| 0 <= k < n && (#[trigger] snaps[k]).day@ == latest && snaps[k].repo_full_name@ == name implies keep(snaps[k]) by {}
            lemma_last_on_filter(snaps, keep, latest, name);
            assert forall|k: int| 0 <= k < n && (#[trigger] snaps[k]).day@ == p && snaps[k].repo_full_name@ == name implies keep(snaps[k]) by {}
            lemma_last_on_filter(snaps, keep, p, name);
            let i = last_on(snaps, n, latest, name);
            let j = last_on(snaps, n, p, name);
            assert(kept[a] == snaps[i]);
            assert(kept[b] == snaps[j]);
            assert(is_latest_day(snaps, snaps[i].day@));
            assert(is_previous_day(snaps, snaps[i].day@, snaps[j].day@));
            assert(delta_fits(snaps[i], snaps[j]));
        }
    }
    if digest_deltas_fit(kept) {
        assert forall|i: int, j: int|
            #![trigger snaps[i], snaps[j]]
            0 <= i < n && 0 <= j < n
                && is_latest_day(snaps, snaps[i].day@)
                && is_previous_day(snaps, snaps[i].day@, snaps[j].day@)
                && i == last_on(snaps, n, snaps[i].day@, snaps[i].repo_full_name@)
                && j == last_on(snaps, n, snaps[j].day@, snaps[i].repo_full_name@)
                implies delta_fits(snaps[i], snaps[j]) by {
            let name = snaps[i].repo_full_name@;
            lemma_latest_unique(snaps, snaps[i].day@, latest);
            lemma_previous_unique(snaps, latest, snaps[j].day@, p);
            lemma_last_on_bounds(snaps, n, p, name);
            assert forall|k: int| 0 <= k < n && (#[trigger] snaps[k]).day@ == latest && snaps[k].repo_full_name@ == name implies keep(snaps[k]) by {}
            lemma_last_on_filter(snaps, keep, latest, name);
            assert forall|k: int| 0 <= k < n && (#[trigger] snaps[k]).day@ == p && snaps[k].repo_full_name@ == name implies keep(snaps[k]) by {}
            lemma_last_on_filter(snaps, keep, p, name);
            let a = last_on(kept, nk, latest, name);
            let b = last_on(kept, nk, p, name);
            assert(kept[a] == snaps[i]);
            assert(kept[b] == snaps[j]);
            assert(is_latest_day(kept, kept[a].day@));
            assert(is_previous_day(kept, kept[a].day@, kept[b].day@));
            assert(delta_fits(kept[a], kept[b]));
        }
    }
}

/// Snapshots from before the previous day never change the digest, whatever
/// the numbers: the digest of all rows and that of the rows from the previous
/// day on either both fail on a delta that does not fit, or both succeed with
/// the same values.
pub proof fn lemma_digest_outcome_ignores_older_days(
    snaps: Seq<RepoSnapshot>,
    latest: Seq<char>,
    p: Seq<char>,
    r: Option<DigestDto>,
    r2: Option<DigestDto>,
)
    requires
        is_latest_day(snaps, latest),
        is_previous_day(snaps, latest, p),
        is_digest_outcome(snaps, r),
        is_digest_outcome(from_day(snaps, p), r2),
    ensures
        r is None <==> r2 is None,
        r matches Some(d) ==> (r2 matches Some(d2) && digest_view(d2) == digest_view(d)),
{
    lemma_fits_kept(snaps, latest, p);
    if let (Some(d), Some(d2)) = (r, r2) {
        let day = d.day.unwrap()@;
        lemma_latest_unique(snaps, day, latest);
        if d.previous_day is None {
            let v = choose|i: int| 0 <= i < snaps.len() && snaps[i].day@ == p;
            lemma_seq_lt_irreflexive(p);
        }
        lemma_previous_unique(snaps, latest, d.previous_day.unwrap()@, p);
        lemma_digest_ignores_older_days(snaps, d, p, d2);
    }
}

/// The capture `c` minus the same repo's last capture on `previous` (if any)
/// fits in a 64-bit integer.
spec fn delta_to_previous_fits(snaps: Seq<RepoSnapshot>, previous: Option<Seq<char>>, c: int) -> bool {
    match previous {
        Some(pd) => {
            let q = last_on(snaps, snaps.len() as int, pd, snaps[c].repo_full_name@);
            0 <= q ==> delta_fits(snaps[c], snaps[q])
        },
        None => true,
    }
}

/// The digest, or `None` when one of its deltas does not fit in a 64-bit
/// integer (see [`digest_deltas_fit`]).
pub fn try_compute_digest(snapshots: &[RepoSnapshot]) -> (r: Option<DigestDto>)
    ensures
        is_digest_outcome(snapshots@, r),
{
    if snapshots.len() == 0 {
        return Some(DigestDto { day: None, previous_day: None, entries: Vec::new() });
    }
    let li = latest_index(snapshots);
    let latest = snapshots[li].day.as_str();
    let prev = previous_index(snapshots, latest);
    let order = latest_by_repo(snapshots, latest);
    let ghost n = snapshots@.len() as int;
    let ghost prev_view: Option<Seq<char>> = match prev {
        Some(p) => Some(snapshots@[p as int].day@),
        None => None,
    };
    let mut entries: Vec<DigestEntryDto> = Vec::new();
    let mut a: usize = 0;
    while a < order.len()
        invariant
            a <= order@.len(),
            n == snapshots@.len(),
            entries@.len() == a,
            is_latest_day(snapshots@, latest@),
            order_ok(snapshots@, latest@, n, order@),
            prev matches Some(p) ==> p < n && prev_view == Some(snapshots@[p as int].day@)
                && is_previous_day(snapshots@, latest@, snapshots@[p as int].day@),
            prev is None ==> prev_view is None,
            forall|b: int| 0 <= b < a ==> entries@[b].repo_full_name@ == snapshots@[#[trigger] order@[b] as int].repo_full_name@,
            forall|b: int| 0 <= b < a ==> entry_correct(snapshots@, latest@, prev_view, #[trigger] entries@[b]),
            forall|b: int| 0 <= b < a ==> delta_to_previous_fits(snapshots@, prev_view, #[trigger] order@[b] as int),
        decreases order@.len() - a,
    {
        let c = order[a];
        let cur = &snapshots[c];
        proof {
            lemma_last_on_bounds(snapshots@, n, latest@, cur.repo_full_name@);
        }
        let p = match prev {
            Some(pi) => find_last_on(snapshots, snapshots[pi].day.as_str(), cur.repo_full_name.as_str()),
            None => None,
        };
        let (ps, pf, pis) = match p {
            Some(pi) => {
                proof {
                    lemma_last_on_bounds(snapshots@, n, prev_view.unwrap(), cur.repo_full_name@);
                }
                (snapshots[pi].stars, snapshots[pi].forks, snapshots[pi].open_issues)
            },
            None => (cur.stars, cur.forks, cur.open_issues),
        };
        let ds = cur.stars.checked_sub(ps);
        let df = cur.forks.checked_sub(pf);
        let di = cur.open_issues.checked_sub(pis);
        if ds.is_none() || df.is_none() || di.is_none() {
            proof {
                let pi = p.unwrap();
                let pd = prev_view.unwrap();
                assert(snapshots@[c as int].day@ == latest@);
                assert(snapshots@[pi as int].day@ == pd);
                assert(!delta_fits(snapshots@[c as int], snapshots@[pi as int]));
            }
            return None;
        }
        let e = DigestEntryDto {
            repo_full_name: cur.repo_full_name.clone(),
            stars_delta: ds.unwrap(),
            forks_delta: df.unwrap(),
            open_issues_delta: di.unwrap(),
            stars: cur.stars,
            forks: cur.forks,
            open_issues: cur.open_issues,
        };
        entries.push(e);
        a = a + 1;
    }
    proof {
        let o = order@;
        let es = entries@;
        assert forall|k: int, l: int| 0 <= k < l < es.len() implies seq_lt(
            #[trigger] es[k].repo_full_name@,
            #[trigger] es[l].repo_full_name@,
        ) by {
            assert(es[k].repo_full_name@ == snapshots@[o[k] as int].repo_full_name@);
            assert(es[l].repo_full_name@ == snapshots@[o[l] as int].repo_full_name@);
        }
        assert forall|i: int|
            0 <= i < snapshots@.len() && #[trigger] snapshots@[i].day@ == latest@ implies exists|k: int|
            0 <= k < es.len() && #[trigger] es[k].repo_full_name@ == snapshots@[i].repo_full_name@ by {
            let k = choose|k: int|
                0 <= k < o.len() && snapshots@[#[trigger] o[k] as int].repo_full_name@ == snapshots@[i].repo_full_name@;
            assert(es[k].repo_full_name@ == snapshots@[o[k] as int].repo_full_name@);
        }
        let sv = snapshots@;
        assert forall|i: int, j: int|
            #![trigger sv[i], sv[j]]
            0 <= i < sv.len() && 0 <= j < sv.len()
                && is_latest_day(sv, sv[i].day@)
                && is_previous_day(sv, sv[i].day@, sv[j].day@)
                && i == last_on(sv, sv.len() as int, sv[i].day@, sv[i].repo_full_name@)
                && j == last_on(sv, sv.len() as int, sv[j].day@, sv[i].repo_full_name@)
                implies delta_fits(sv[i], sv[j]) by {
            lemma_seq_le_antisymmetric(sv[i].day@, latest@);
            let name = sv[i].repo_full_name@;
            let k = choose|k: int| 0 <= k < o.len() && sv[#[trigger] o[k] as int].repo_full_name@ == name;
            assert(o[k] as int == i);
            lemma_seq_lt_irreflexive(sv[j].day@);
            assert(sv[j].day@ != latest@);
            let pi = prev.unwrap();
            let pd = prev_view.unwrap();
            lemma_seq_lt_irreflexive(pd);
            assert(seq_le(sv[j].day@, pd));
            assert(sv[pi as int].day@ != latest@);
            assert(seq_le(pd, sv[j].day@));
            lemma_seq_le_antisymmetric(sv[j].day@, pd);
            assert(delta_to_previous_fits(sv, prev_view, o[k] as int));
        }
    }
    let previous_day = match prev {
        Some(pi) => Some(snapshots[pi].day.clone()),
        None => None,
    };
    Some(DigestDto { day: Some(snapshots[li].day.clone()), previous_day, entries })
}

/// Pure digest-diff: compute a [`DigestDto`] from a flat list of snapshots for a
/// single account.
///
/// - Picks the two most recent distinct days present in `snapshots`.
/// - `day` = the most recent; `previous_day` = the second-most-recent (or None).
/// - One entry per repo present on `day`, ordered by `repo_full_name`.
/// - Deltas are `latest - previous` per repo; if a repo is absent on
///   `previous_day` (or there is no previous day), its deltas are 0.
pub fn compute_digest(snapshots: &[RepoSnapshot]) -> (d: DigestDto)
    requires
        digest_deltas_fit(snapshots@),
    ensures
        is_digest_of(snapshots@, d),
{
    match try_compute_digest(snapshots) {
        Some(d) => d,
        None => {
            proof {
                assert(false);
            }
            DigestDto { day: None, previous_day: None, entries: Vec::new() }
        },
    }
}

} // verus!
