use newt_todo::snapshot::{compute_digest, try_compute_digest, RepoSnapshot};

fn snap(repo: &str, day: &str, stars: i64, forks: i64, issues: i64) -> RepoSnapshot {
    RepoSnapshot {
        id: format!("{repo}-{day}"),
        account_id: "a".into(),
        repo_full_name: repo.into(),
        day: day.into(),
        stars,
        forks,
        open_issues: issues,
        captured_at: "2026-06-16T00:00:00Z".into(),
    }
}

#[test]
fn empty_yields_no_day() {
    let d = compute_digest(&[]);
    assert_eq!(d.day, None);
    assert_eq!(d.previous_day, None);
    assert!(d.entries.is_empty());
}

#[test]
fn one_day_yields_zero_deltas() {
    let snaps = vec![snap("o/a", "2026-06-16", 10, 2, 4)];
    let d = compute_digest(&snaps);
    assert_eq!(d.day.as_deref(), Some("2026-06-16"));
    assert_eq!(d.previous_day, None);
    assert_eq!(d.entries.len(), 1);
    let e = &d.entries[0];
    assert_eq!((e.stars_delta, e.forks_delta, e.open_issues_delta), (0, 0, 0));
    assert_eq!((e.stars, e.forks, e.open_issues), (10, 2, 4));
}

#[test]
fn two_days_compute_correct_deltas() {
    let snaps = vec![
        snap("o/a", "2026-06-15", 10, 2, 4),
        snap("o/b", "2026-06-15", 5, 0, 1),
        snap("o/a", "2026-06-16", 13, 2, 1), // +3 stars, 0 forks, -3 issues
        snap("o/b", "2026-06-16", 5, 1, 1),  // 0 stars, +1 fork, 0 issues
        snap("o/c", "2026-06-16", 7, 0, 0),  // new repo: no previous → 0 deltas
    ];
    let d = compute_digest(&snaps);
    assert_eq!(d.day.as_deref(), Some("2026-06-16"));
    assert_eq!(d.previous_day.as_deref(), Some("2026-06-15"));
    // Ordered by repo_full_name: a, b, c.
    assert_eq!(
        d.entries.iter().map(|e| e.repo_full_name.as_str()).collect::<Vec<_>>(),
        vec!["o/a", "o/b", "o/c"]
    );
    assert_eq!(
        (d.entries[0].stars_delta, d.entries[0].open_issues_delta),
        (3, -3)
    );
    assert_eq!(d.entries[1].forks_delta, 1);
    // New repo on the latest day with no previous row → zero deltas.
    assert_eq!(
        (
            d.entries[2].stars_delta,
            d.entries[2].forks_delta,
            d.entries[2].open_issues_delta
        ),
        (0, 0, 0)
    );
    assert_eq!(d.entries[2].stars, 7);
}

#[test]
fn digest_only_diffs_the_two_latest_days() {
    let snaps = vec![
        snap("o/a", "2026-06-14", 1, 0, 0),
        snap("o/a", "2026-06-16", 9, 3, 2),
        snap("o/a", "2026-06-15", 4, 1, 5),
    ];
    let d = compute_digest(&snaps);
    assert_eq!(d.day.as_deref(), Some("2026-06-16"));
    assert_eq!(d.previous_day.as_deref(), Some("2026-06-15"));
    assert_eq!(d.entries.len(), 1);
    let e = &d.entries[0];
    assert_eq!((e.stars_delta, e.forks_delta, e.open_issues_delta), (5, 2, -3));
}

#[test]
fn repo_missing_from_latest_day_is_not_listed() {
    let snaps = vec![
        snap("o/gone", "2026-06-15", 3, 0, 0),
        snap("o/a", "2026-06-15", 1, 0, 0),
        snap("o/a", "2026-06-16", 2, 0, 0),
    ];
    let d = compute_digest(&snaps);
    assert_eq!(d.entries.len(), 1);
    assert_eq!(d.entries[0].repo_full_name, "o/a");
    assert_eq!(d.entries[0].stars_delta, 1);
}

#[test]
fn last_capture_of_a_day_wins() {
    let snaps = vec![
        snap("o/a", "2026-06-16", 2, 0, 0),
        snap("o/a", "2026-06-16", 8, 0, 0),
    ];
    let d = compute_digest(&snaps);
    assert_eq!(d.entries.len(), 1);
    assert_eq!(d.entries[0].stars, 8);
}

#[test]
fn only_computed_deltas_must_fit() {
    // Extreme numbers on different repos never meet in a subtraction.
    let snaps = vec![
        snap("o/a", "2026-06-15", i64::MIN, 0, 0),
        snap("o/b", "2026-06-16", i64::MAX, 0, 0),
        snap("o/a", "2026-06-16", 1, 0, 0),
    ];
    let d = try_compute_digest(&snaps);
    assert!(d.is_none(), "1 - i64::MIN overflows");
    let snaps = vec![
        snap("o/b", "2026-06-15", i64::MIN, 0, 0),
        snap("o/a", "2026-06-16", i64::MAX, 0, 0),
        snap("o/a", "2026-06-15", 7, 0, 0),
    ];
    let d = try_compute_digest(&snaps).unwrap();
    assert_eq!(d.entries.len(), 1);
    assert_eq!(d.entries[0].stars_delta, i64::MAX - 7);
    assert_eq!(d, compute_digest(&snaps));
}

#[test]
fn digest_does_not_depend_on_input_order() {
    let snaps = vec![
        snap("o/b", "2026-06-15", 5, 0, 1),
        snap("o/a", "2026-06-16", 12, 3, 2),
        snap("o/a", "2026-06-15", 10, 2, 4),
        snap("o/b", "2026-06-16", 6, 0, 1),
        snap("o/c", "2026-06-14", 1, 1, 1),
    ];
    let mut reversed = snaps.clone();
    reversed.reverse();
    assert_eq!(compute_digest(&snaps), compute_digest(&reversed));
}

#[test]
fn rows_before_the_previous_day_do_not_matter() {
    let snaps = vec![
        snap("o/a", "2026-06-14", 1, 1, 1),
        snap("o/a", "2026-06-15", 10, 2, 4),
        snap("o/a", "2026-06-16", 12, 3, 2),
        snap("o/b", "2026-06-13", 9, 9, 9),
    ];
    let full = compute_digest(&snaps);
    let prev = full.previous_day.clone().unwrap();
    let kept: Vec<RepoSnapshot> = snaps.iter().filter(|s| s.day >= prev).cloned().collect();
    assert_eq!(compute_digest(&kept), full);
}
