//! The decisions the task store makes around its rows: how a mirrored remote
//! task is merged, where a new board/column/card goes, how reordering assigns
//! positions, and when a write that touched nothing is a "not found".
//!
//! The rows themselves live in SQLite; the store reads what a decision needs,
//! asks the functions here, and writes what they answer.

use vstd::prelude::*;

use crate::domain::{SourceRef, Task};
use crate::error::CoreError;
use crate::provider::{RemotePatch, RemoteTask};

verus! {

/// Owner of every row on the offline desktop (its single user).
pub const LOCAL_USER: &'static str = "local";

/// What merging a pulled remote task into the store does.
#[derive(Debug, Clone, PartialEq, Eq)]
pub enum UpsertAction {
    /// No local row for this remote task: insert a new one, recording the
    /// remote's last-update time.
    Insert { remote_updated_at: String },
    /// The local row has unpushed edits: leave it as it is.
    KeepLocal,
    /// The local row is clean: overwrite it with the remote state, recording
    /// the remote's last-update time.
    Overwrite { remote_updated_at: String },
}

/// The task a remote task becomes when first mirrored into the store.
pub open spec fn spec_mirrored(id: String, account_id: String, r: RemoteTask, now: String) -> Task {
    Task {
        id,
        source: Some(SourceRef { account_id, remote_id: r.remote_id, html_url: r.html_url }),
        title: r.title,
        body: r.body,
        status: r.status,
        labels: r.labels,
        due_at: None,
        local_updated_at: now,
        dirty: false,
        deleted: false,
    }
}

/// A clean local row after the remote state is written over it: the remote's
/// content replaces title, body, status, labels and url; the rest is kept.
pub open spec fn spec_overwritten(t: Task, r: RemoteTask, now: String) -> Task {
    Task {
        source: match t.source {
            Some(s) => Some(SourceRef { html_url: r.html_url, ..s }),
            None => None,
        },
        title: r.title,
        body: r.body,
        status: r.status,
        labels: r.labels,
        local_updated_at: now,
        ..t
    }
}

/// What merging a pulled remote task does, field by field: a new or clean
/// row takes the remote's title, body, status, labels and url and is stamped
/// `now`; a new row is clean, not deleted and mirrors the remote issue; a
/// clean row keeps its id, due date and tombstone; a dirty row is untouched.
pub open spec fn upsert_law(existing: Option<Task>, new_id: String, account_id: String, remote: RemoteTask, now: String, r: (UpsertAction, Task)) -> bool {
    let t = r.1;
    &&& (existing is None || !existing.unwrap().dirty) ==> {
        &&& t.title == remote.title
        &&& t.body == remote.body
        &&& t.status == remote.status
        &&& t.labels == remote.labels
        &&& t.local_updated_at == now
        &&& (t.source matches Some(s) ==> s.html_url == remote.html_url)
    }
    &&& existing is None ==> {
        &&& r.0 == (UpsertAction::Insert { remote_updated_at: remote.remote_updated_at })
        &&& t.id == new_id
        &&& t.source == Some(SourceRef { account_id, remote_id: remote.remote_id, html_url: remote.html_url })
        &&& !t.dirty
        &&& !t.deleted
        &&& t.due_at is None
    }
    &&& match existing {
        Some(e) => if e.dirty {
            r.0 == UpsertAction::KeepLocal && t == e
        } else {
            &&& r.0 == (UpsertAction::Overwrite { remote_updated_at: remote.remote_updated_at })
            &&& t.id == e.id
            &&& t.due_at == e.due_at
            &&& t.deleted == e.deleted
            &&& t.dirty == e.dirty
            &&& (e.source is None <==> t.source is None)
            &&& (t.source matches Some(s) ==> (e.source matches Some(es) && s.account_id == es.account_id
                && s.remote_id == es.remote_id))
        },
        None => true,
    }
}

/// A pull brings the remote's content into every row that has no unpushed
/// local edits, and leaves a row with unpushed edits as it is.
pub proof fn lemma_upsert_takes_remote_content(existing: Option<Task>, new_id: String, account_id: String, remote: RemoteTask, now: String)
    ensures
        upsert_law(existing, new_id, account_id, remote, now, match existing {
            None => (UpsertAction::Insert { remote_updated_at: remote.remote_updated_at }, spec_mirrored(new_id, account_id, remote, now)),
            Some(t) => if t.dirty {
                (UpsertAction::KeepLocal, t)
            } else {
                (UpsertAction::Overwrite { remote_updated_at: remote.remote_updated_at }, spec_overwritten(t, remote, now))
            },
        }),
{
}

/// Merge a pulled remote task with the local row keyed by (account, remote id).
///
/// If the local row is dirty (unpushed local edits), the incoming remote state
/// is not applied: local wins until the next push resolves it. Otherwise the
/// remote wins. Returns the action (with the remote's last-update time to
/// record, when the row is written) and the row as it stands afterwards.
pub fn upsert_remote(existing: Option<Task>, new_id: String, account_id: String, remote: RemoteTask, now: String) -> (r: (
    UpsertAction,
    Task,
))
    ensures
        match existing {
            None => r.0 == (UpsertAction::Insert { remote_updated_at: remote.remote_updated_at })
                && r.1 == spec_mirrored(new_id, account_id, remote, now),
            Some(t) => if t.dirty {
                r.0 == UpsertAction::KeepLocal && r.1 == t
            } else {
                r.0 == (UpsertAction::Overwrite { remote_updated_at: remote.remote_updated_at })
                    && r.1 == spec_overwritten(t, remote, now)
            },
        },
        upsert_law(existing, new_id, account_id, remote, now, r),
{
    match existing {
        None => {
            let stamp = remote.remote_updated_at;
            let t = Task {
                id: new_id,
                source: Some(
                    SourceRef {
                        account_id,
                        remote_id: remote.remote_id,
                        html_url: remote.html_url,
                    },
                ),
                title: remote.title,
                body: remote.body,
                status: remote.status,
                labels: remote.labels,
                due_at: None,
                local_updated_at: now,
                dirty: false,
                deleted: false,
            };
            (UpsertAction::Insert { remote_updated_at: stamp }, t)
        },
        Some(t) => {
            if t.dirty {
                (UpsertAction::KeepLocal, t)
            } else {
                let mut t = t;
                t.source = match t.source {
                    Some(s) => Some(SourceRef { html_url: remote.html_url, ..s }),
                    None => None,
                };
                t.title = remote.title;
                t.body = remote.body;
                t.status = remote.status;
                t.labels = remote.labels;
                t.local_updated_at = now;
                (UpsertAction::Overwrite { remote_updated_at: remote.remote_updated_at }, t)
            }
        },
    }
}

/// A pull never clobbers unpushed local edits: a dirty row comes out unchanged.
pub proof fn lemma_dirty_row_survives_pull(t: Task, new_id: String, account_id: String, remote: RemoteTask, now: String)
    requires
        t.dirty,
    ensures
        ({
            let after = if t.dirty { t } else { spec_overwritten(t, remote, now) };
            after == t
        }),
{
}

/// The position after the largest of `positions`, or 0 when there are none
/// (`COALESCE(MAX(position) + 1, 0)`).
pub fn next_position(positions: &[i64]) -> (r: i64)
    requires
        forall|i: int| 0 <= i < positions@.len() ==> #[trigger] positions@[i] < i64::MAX,
    ensures
        positions@.len() == 0 ==> r == 0,
        positions@.len() > 0 ==> {
            &&& exists|i: int| 0 <= i < positions@.len() && r == positions@[i] + 1
            &&& forall|i: int| 0 <= i < positions@.len() ==> #[trigger] positions@[i] < r
        },
{
    if positions.len() == 0 {
        return 0;
    }
    let mut best: usize = 0;
    let mut i: usize = 1;
    while i < positions.len()
        invariant
            1 <= i <= positions@.len(),
            best < i,
            forall|j: int| 0 <= j < i ==> #[trigger] positions@[j] <= positions@[best as int],
        decreases positions.len() - i,
    {
        if positions[i] > positions[best] {
            best = i;
        }
        i = i + 1;
    }
    positions[best] + 1
}

/// Where a manually placed card goes.
#[derive(Debug, Clone, PartialEq, Eq)]
pub enum CardPlacement {
    /// The item is already on the board: move that card to the target column.
    Move { id: String, position: i64 },
    /// A new card for the item.
    Insert { position: i64 },
}

/// Place an item on a board column. Each item is unique per board, so placing
/// an already placed item moves its card (appended after the column's last
/// card) instead of adding a second one. `column_positions` are the positions
/// of the cards currently in the target column.
pub fn card_placement(existing_id: Option<String>, column_positions: &[i64]) -> (r: CardPlacement)
    requires
        forall|i: int| 0 <= i < column_positions@.len() ==> #[trigger] column_positions@[i] < i64::MAX,
    ensures
        match r {
            CardPlacement::Move { id, position } => existing_id == Some(id) && (column_positions@.len() == 0
                ==> position == 0) && (forall|i: int| 0 <= i < column_positions@.len() ==> #[trigger] column_positions@[i] < position),
            CardPlacement::Insert { position } => existing_id is None && (column_positions@.len() == 0
                ==> position == 0) && (forall|i: int| 0 <= i < column_positions@.len() ==> #[trigger] column_positions@[i] < position),
        },
        column_positions@.len() > 0 ==> exists|i: int|
            0 <= i < column_positions@.len() && #[trigger] column_positions@[i] + 1 == match r {
                CardPlacement::Move { position, .. } => position,
                CardPlacement::Insert { position } => position,
            },
{
    let position = next_position(column_positions);
    match existing_id {
        Some(id) => CardPlacement::Move { id, position },
        None => CardPlacement::Insert { position },
    }
}

/// A board's cards as (id, item key, column id) after a placement of `item`
/// in `column`: a move sets the moved card's column, an insert adds a card.
pub open spec fn spec_placed(
    cards: Seq<(Seq<char>, Seq<char>, Seq<char>)>,
    p: CardPlacement,
    new_id: Seq<char>,
    item: Seq<char>,
    column: Seq<char>,
) -> Seq<(Seq<char>, Seq<char>, Seq<char>)> {
    match p {
        CardPlacement::Move { id, .. } => cards.map_values(
            |c: (Seq<char>, Seq<char>, Seq<char>)| if c.0 == id@ { (c.0, c.1, column) } else { c },
        ),
        CardPlacement::Insert { .. } => cards.push((new_id, item, column)),
    }
}

/// No two cards of the board hold the same item.
pub open spec fn items_unique(cards: Seq<(Seq<char>, Seq<char>, Seq<char>)>) -> bool {
    forall|i: int, j: int| 0 <= i < j < cards.len() ==> (#[trigger] cards[i]).1 != (#[trigger] cards[j]).1
}

/// Placing an item keeps each item on one card: placing an item that is
/// already on the board (a move of its card, as [`card_placement`] answers)
/// keeps the number of cards and puts that card in the target column; a new
/// item gets one new card.
pub proof fn lemma_placement_keeps_items_unique(
    cards: Seq<(Seq<char>, Seq<char>, Seq<char>)>,
    p: CardPlacement,
    new_id: Seq<char>,
    item: Seq<char>,
    column: Seq<char>,
)
    requires
        items_unique(cards),
        p matches CardPlacement::Move { id, .. } ==> exists|i: int|
            0 <= i < cards.len() && (#[trigger] cards[i]).1 == item && cards[i].0 == id@,
        p is Insert ==> forall|i: int| 0 <= i < cards.len() ==> (#[trigger] cards[i]).1 != item,
    ensures
        items_unique(spec_placed(cards, p, new_id, item, column)),
        spec_placed(cards, p, new_id, item, column).len() == cards.len() + (if p is Insert { 1int } else { 0int }),
        exists|k: int|
            0 <= k < spec_placed(cards, p, new_id, item, column).len()
                && (#[trigger] spec_placed(cards, p, new_id, item, column)[k]).1 == item
                && spec_placed(cards, p, new_id, item, column)[k].2 == column,
{
    let after = spec_placed(cards, p, new_id, item, column);
    match p {
        CardPlacement::Move { id, .. } => {
            let i = choose|i: int| 0 <= i < cards.len() && (#[trigger] cards[i]).1 == item && cards[i].0 == id@;
            assert(after[i].1 == item && after[i].2 == column);
            assert forall|a: int, b: int| 0 <= a < b < after.len() implies (#[trigger] after[a]).1 != (#[trigger] after[b]).1 by {
                assert(after[a].1 == cards[a].1);
                assert(after[b].1 == cards[b].1);
            }
        },
        CardPlacement::Insert { .. } => {
            let n = cards.len() as int;
            assert(after[n].1 == item && after[n].2 == column);
            assert forall|a: int, b: int| 0 <= a < b < after.len() implies (#[trigger] after[a]).1 != (#[trigger] after[b]).1 by {
                if b == n {
                    assert(after[a] == cards[a]);
                } else {
                    assert(after[a] == cards[a]);
                    assert(after[b] == cards[b]);
                }
            }
        },
    }
}

/// Positions for a reorder: the `k`-th id goes to position `k`.
pub fn positions_for(ordered_ids: &[String]) -> (out: Vec<(String, i64)>)
    requires
        ordered_ids@.len() <= i64::MAX,
    ensures
        out@.len() == ordered_ids@.len(),
        forall|k: int| 0 <= k < out@.len() ==> (#[trigger] out@[k]).0 == ordered_ids@[k] && out@[k].1 == k,
{
    let mut out: Vec<(String, i64)> = Vec::new();
    let mut i: usize = 0;
    while i < ordered_ids.len()
        invariant
            i <= ordered_ids@.len(),
            ordered_ids@.len() <= i64::MAX,
            out@.len() == i,
            forall|k: int| 0 <= k < i ==> (#[trigger] out@[k]).0 == ordered_ids@[k] && out@[k].1 == k,
        decreases ordered_ids.len() - i,
    {
        out.push((ordered_ids[i].clone(), i as i64));
        i = i + 1;
    }
    out
}

/// A write that touched no row means the row was not there.
pub fn require_affected(rows_affected: u64, id: &str) -> (r: Result<(), CoreError>)
    ensures
        rows_affected > 0 ==> r is Ok,
        rows_affected == 0 ==> (r matches Err(CoreError::NotFound(f)) && f@ == id@),
{
    if rows_affected == 0 {
        Err(CoreError::not_found(id))
    } else {
        Ok(())
    }
}

/// The push a dirty task makes: for a task mirrored from a provider, its remote
/// id and a patch carrying its title, body, status and labels.
pub open spec fn spec_push_of(t: Task) -> Option<(String, RemotePatch)> {
    match t.source {
        Some(s) => Some(
            (
                s.remote_id,
                RemotePatch {
                    title: Some(t.title),
                    body: Some(t.body),
                    status: Some(t.status),
                    labels: Some(t.labels),
                },
            ),
        ),
        None => None,
    }
}

/// The pushes for a list of dirty tasks, in order; local-only tasks are skipped.
pub open spec fn spec_push_plan(tasks: Seq<Task>) -> Seq<(String, RemotePatch)>
    decreases tasks.len(),
{
    if tasks.len() == 0 {
        Seq::empty()
    } else {
        let rest = spec_push_plan(tasks.drop_last());
        match spec_push_of(tasks.last()) {
            Some(p) => rest.push(p),
            None => rest,
        }
    }
}

/// Plan the push half of a sync: what to send for each dirty task.
pub fn push_plan(dirty: Vec<Task>) -> (out: Vec<(String, RemotePatch)>)
    ensures
        out@ == spec_push_plan(dirty@),
{
    let ghost all = dirty@;
    let mut rest = dirty;
    let mut out: Vec<(String, RemotePatch)> = Vec::new();
    while rest.len() > 0
        invariant
            rest@.len() <= all.len(),
            rest@ == all.skip(all.len() - rest@.len()),
            out@ == spec_push_plan(all.take(all.len() - rest@.len())),
        decreases rest@.len(),
    {
        let ghost done = all.len() - rest@.len();
        let t = rest.remove(0);
        proof {
            let p = all.take(done + 1);
            assert(p.drop_last() =~= all.take(done));
            assert(p.last() == all[done]);
            assert(all[done] == t);
            assert(rest@ =~= all.skip(all.len() - rest@.len()));
        }
        match t.source {
            Some(s) => {
                let patch = RemotePatch {
                    title: Some(t.title),
                    body: Some(t.body),
                    status: Some(t.status),
                    labels: Some(t.labels),
                };
                out.push((s.remote_id, patch));
            },
            None => {},
        }
    }
    assert(all.take(all.len() as int) =~= all);
    out
}

/// How many tasks a sync pulled in and pushed out.
#[derive(Debug, Clone, Copy, PartialEq, Eq)]
pub struct SyncReport {
    pub pulled: usize,
    pub pushed: usize,
}

impl SyncReport {
    /// The report of a sync that pulled `remotes` tasks and made the pushes of `plan`.
    pub fn of(remotes: usize, plan: &Vec<(String, RemotePatch)>) -> (r: SyncReport)
        ensures
            r.pulled == remotes,
            r.pushed == plan@.len(),
    {
        SyncReport { pulled: remotes, pushed: plan.len() }
    }
}

} // verus!
