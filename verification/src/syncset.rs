//! Cross-device sync set: the last-writer-wins change protocol over the four
//! synced entities (`task`, `board`, `column`, `card`).
//!
//! A [`SyncChange`] is the current state of one synced row. The reconciliation
//! rule is last-writer-wins by `updated_at` (RFC3339 strings, which sort
//! lexicographically in UTC `Z` form).

use vstd::prelude::*;

use crate::error::CoreError;
use crate::text::{
    lemma_seq_lt_asymmetric, lemma_seq_lt_irreflexive, lemma_seq_lt_total,
    lemma_seq_lt_transitive, opt_str, owned, seq_le, seq_lt, str_eq, str_lt,
};

verus! {

/// The kind of synced entity a [`SyncChange`] describes.
pub const KIND_TASK: &'static str = "task";
pub const KIND_BOARD: &'static str = "board";
pub const KIND_COLUMN: &'static str = "column";
pub const KIND_CARD: &'static str = "card";

/// The current state of one synced row, as exchanged over the wire.
#[derive(Debug, Clone, PartialEq, Eq)]
pub struct SyncChange {
    pub kind: String,
    pub id: String,
    /// RFC3339 timestamp used as the LWW clock.
    pub updated_at: String,
    /// Tombstone flag: `true` = the row was deleted.
    pub deleted: bool,
    /// JSON of the entity's remaining fields.
    pub data_json: String,
    /// Parent board for columns and cards; empty otherwise.
    pub board_id: String,
    /// Parent column for cards; empty otherwise.
    pub column_id: String,
}

impl SyncChange {
    /// A field-by-field copy.
    pub fn copied(&self) -> (r: SyncChange)
        ensures
            r == *self,
    {
        SyncChange {
            kind: self.kind.clone(),
            id: self.id.clone(),
            updated_at: self.updated_at.clone(),
            deleted: self.deleted,
            data_json: self.data_json.clone(),
            board_id: self.board_id.clone(),
            column_id: self.column_id.clone(),
        }
    }
}

/// The four synced entity kinds.
#[derive(Debug, Clone, Copy, PartialEq, Eq)]
pub enum SyncKind {
    Task,
    Board,
    Column,
    Card,
}

/// The kind named by `s`, if it is one of the four wire names.
pub open spec fn spec_kind_of(s: Seq<char>) -> Option<SyncKind> {
    if s == KIND_TASK@ {
        Some(SyncKind::Task)
    } else if s == KIND_BOARD@ {
        Some(SyncKind::Board)
    } else if s == KIND_COLUMN@ {
        Some(SyncKind::Column)
    } else if s == KIND_CARD@ {
        Some(SyncKind::Card)
    } else {
        None
    }
}

/// Parse a wire kind name. Unknown names are `None`.
pub fn parse_kind(s: &str) -> (r: Option<SyncKind>)
    ensures
        r == spec_kind_of(s@),
{
    if str_eq(s, KIND_TASK) {
        Some(SyncKind::Task)
    } else if str_eq(s, KIND_BOARD) {
        Some(SyncKind::Board)
    } else if str_eq(s, KIND_COLUMN) {
        Some(SyncKind::Column)
    } else if str_eq(s, KIND_CARD) {
        Some(SyncKind::Card)
    } else {
        None
    }
}

/// Whether an incoming change overwrites the stored copy of its row.
///
/// A change is written iff the row doesn't exist locally or the incoming
/// `updated_at` is strictly greater than the local one; an equal or older
/// change is ignored. (Which rows a user may touch at all is decided before,
/// by [`board_placeholder`] for the boards of columns and cards.)
pub open spec fn spec_lww_applies(existing: Option<SyncChange>, incoming: SyncChange) -> bool {
    match existing {
        None => true,
        Some(row) => seq_lt(row.updated_at@, incoming.updated_at@),
    }
}

/// The stored state of a row after an incoming change is offered to it.
pub open spec fn spec_merged(existing: Option<SyncChange>, incoming: SyncChange) -> Option<SyncChange> {
    if spec_lww_applies(existing, incoming) {
        Some(incoming)
    } else {
        existing
    }
}

/// Decide whether `incoming` is applied over the stored row `existing`
/// (given as the change the stored row would produce).
pub fn lww_applies(existing: Option<&SyncChange>, incoming: &SyncChange) -> (r: bool)
    ensures
        r == spec_lww_applies(
            match existing {
                Some(e) => Some(*e),
                None => None,
            },
            *incoming,
        ),
{
    match existing {
        None => true,
        Some(row) => str_lt(row.updated_at.as_str(), incoming.updated_at.as_str()),
    }
}

/// Offering the same change twice has the effect of offering it once.
pub proof fn lemma_lww_idempotent(existing: Option<SyncChange>, incoming: SyncChange)
    ensures
        spec_merged(spec_merged(existing, incoming), incoming) == spec_merged(existing, incoming),
{
    lemma_seq_lt_irreflexive(incoming.updated_at@);
}

/// Two changes to the same row with different clocks converge: whichever order
/// they arrive in, the stored row ends up the same.
pub proof fn lemma_lww_converges(existing: Option<SyncChange>, c1: SyncChange, c2: SyncChange)
    requires
        c1.updated_at@ != c2.updated_at@,
    ensures
        spec_merged(spec_merged(existing, c1), c2) == spec_merged(spec_merged(existing, c2), c1),
{
    let t1 = c1.updated_at@;
    let t2 = c2.updated_at@;
    lemma_seq_lt_total(t1, t2);
    lemma_seq_lt_asymmetric(t1, t2);
    if let Some(row) = existing {
        let t0 = row.updated_at@;
        if seq_lt(t0, t1) && seq_lt(t1, t2) {
            lemma_seq_lt_transitive(t0, t1, t2);
        }
        if seq_lt(t0, t2) && seq_lt(t2, t1) {
            lemma_seq_lt_transitive(t0, t2, t1);
        }
        if seq_lt(t1, t0) && seq_lt(t0, t2) {
            lemma_seq_lt_transitive(t1, t0, t2);
        }
        if seq_lt(t2, t0) && seq_lt(t0, t1) {
            lemma_seq_lt_transitive(t2, t0, t1);
        }
    }
}

/// A change whose clock is not newer than the stored row's is ignored: the
/// stored row is unchanged.
pub proof fn lemma_lww_older_ignored(row: SyncChange, incoming: SyncChange)
    requires
        seq_le(incoming.updated_at@, row.updated_at@),
    ensures
        spec_merged(Some(row), incoming) == Some(row),
{
    lemma_seq_lt_asymmetric(incoming.updated_at@, row.updated_at@);
    lemma_seq_lt_irreflexive(row.updated_at@);
}

/// What to do about the parent board of an incoming column or card.
#[derive(Debug, Clone, Copy, PartialEq, Eq)]
pub enum BoardPlaceholder {
    /// The board exists and belongs to the user.
    Present,
    /// The board is missing; insert an empty placeholder owned by the user.
    Create,
}

/// Ensure a board row with `board_id` exists owned by `user_id`: an empty id or
/// a board owned by someone else is a scoping error; a missing board gets a
/// placeholder.
pub fn board_placeholder(board_id: &str, existing_owner: Option<&str>, user_id: &str) -> (r: Result<
    BoardPlaceholder,
    CoreError,
>)
    ensures
        board_id@.len() == 0 ==> (r matches Err(CoreError::DataFormat(f)) && f@ == "board_id"@),
        board_id@.len() > 0 ==> match existing_owner {
            Some(o) => if o@ == user_id@ {
                r == Ok::<BoardPlaceholder, CoreError>(BoardPlaceholder::Present)
            } else {
                (r matches Err(CoreError::DataFormat(f)) && f@ == "board_id"@)
            },
            None => r == Ok::<BoardPlaceholder, CoreError>(BoardPlaceholder::Create),
        },
{
    if board_id.unicode_len() == 0 {
        return Err(CoreError::data_format("board_id"));
    }
    match existing_owner {
        Some(o) => {
            if str_eq(o, user_id) {
                Ok(BoardPlaceholder::Present)
            } else {
                Err(CoreError::data_format("board_id"))
            }
        },
        None => Ok(BoardPlaceholder::Create),
    }
}

/// Resolve the handler for an incoming change; unknown kinds are a data error.
pub fn change_kind(change: &SyncChange) -> (r: Result<SyncKind, CoreError>)
    ensures
        match spec_kind_of(change.kind@) {
            Some(k) => r == Ok::<SyncKind, CoreError>(k),
            None => (r matches Err(CoreError::DataFormat(f)) && f@ == "change.kind"@),
        },
{
    match parse_kind(change.kind.as_str()) {
        Some(k) => Ok(k),
        None => Err(CoreError::data_format("change.kind")),
    }
}

/// The changes of `s` whose clock is strictly after `cursor` (all of them when
/// there is no cursor), in their original order.
pub open spec fn since_filter(s: Seq<SyncChange>, cursor: Option<Seq<char>>) -> Seq<SyncChange>
    decreases s.len(),
{
    if s.len() == 0 {
        Seq::empty()
    } else {
        let rest = since_filter(s.drop_last(), cursor);
        let keep = match cursor {
            Some(c) => seq_lt(c, s.last().updated_at@),
            None => true,
        };
        if keep {
            rest.push(s.last())
        } else {
            rest
        }
    }
}

/// Keep the changes after `cursor`, preserving order.
pub fn filter_since(changes: &[SyncChange], cursor: Option<&str>) -> (out: Vec<SyncChange>)
    ensures
        out@ == since_filter(changes@, opt_str(cursor)),
{
    let ghost cur: Option<Seq<char>> = match cursor {
        Some(c) => Some(c@),
        None => None,
    };
    let mut out: Vec<SyncChange> = Vec::new();
    let mut i: usize = 0;
    while i < changes.len()
        invariant
            i <= changes@.len(),
            cur == match cursor {
                Some(c) => Some(c@),
                None => None::<Seq<char>>,
            },
            out@ == since_filter(changes@.take(i as int), cur),
        decreases changes.len() - i,
    {
        let keep = match cursor {
            Some(c) => str_lt(c, changes[i].updated_at.as_str()),
            None => true,
        };
        proof {
            let t = changes@.take(i + 1);
            assert(t.drop_last() =~= changes@.take(i as int));
            assert(t.last() == changes@[i as int]);
        }
        if keep {
            out.push(changes[i].copied());
        }
        i = i + 1;
    }
    assert(changes@.take(changes@.len() as int) =~= changes@);
    out
}

/// `s` is ordered by `updated_at` ascending.
pub open spec fn sorted_by_clock(s: Seq<SyncChange>) -> bool {
    forall|k: int, l: int| 0 <= k < l < s.len() ==> seq_le(#[trigger] s[k].updated_at@, #[trigger] s[l].updated_at@)
}

/// `out` is a stable reordering of `src` by `idx`: position `k` of `out` holds
/// element `idx[k]` of `src`, every element is used once, and elements with
/// equal clocks keep their relative order.
pub open spec fn stable_permutation(src: Seq<SyncChange>, out: Seq<SyncChange>, idx: Seq<int>) -> bool {
    &&& idx.len() == src.len()
    &&& out.len() == src.len()
    &&& forall|k: int| 0 <= k < idx.len() ==> 0 <= #[trigger] idx[k] < src.len()
    &&& forall|k: int, l: int| 0 <= k < l < idx.len() ==> #[trigger] idx[k] != #[trigger] idx[l]
    &&& forall|k: int| 0 <= k < out.len() ==> #[trigger] out[k] == src[idx[k]]
    &&& forall|k: int, l: int|
        0 <= k < l < out.len() && (#[trigger] out[k]).updated_at@ == (#[trigger] out[l]).updated_at@ ==> idx[k] < idx[l]
}

/// Stable sort by `updated_at` ascending (insertion sort).
pub fn sort_by_clock(changes: Vec<SyncChange>) -> (out: Vec<SyncChange>)
    ensures
        sorted_by_clock(out@),
        exists|idx: Seq<int>| #[trigger] stable_permutation(changes@, out@, idx),
{
    let mut out: Vec<SyncChange> = Vec::new();
    let ghost mut idx: Seq<int> = Seq::empty();
    let mut i: usize = 0;
    while i < changes.len()
        invariant
            i <= changes@.len(),
            out@.len() == i,
            idx.len() == i,
            sorted_by_clock(out@),
            forall|k: int| 0 <= k < idx.len() ==> 0 <= #[trigger] idx[k] < i,
            forall|k: int, l: int| 0 <= k < l < idx.len() ==> #[trigger] idx[k] != #[trigger] idx[l],
            forall|k: int| 0 <= k < out@.len() ==> #[trigger] out@[k] == changes@[idx[k]],
            forall|k: int, l: int|
                0 <= k < l < out@.len() && (#[trigger] out@[k]).updated_at@ == (#[trigger] out@[l]).updated_at@ ==> idx[k] < idx[l],
        decreases changes.len() - i,
    {
        let x = changes[i].copied();
        let key = changes[i].updated_at.as_str();
        let mut k: usize = out.len();
        while k > 0 && str_lt(key, out[k - 1].updated_at.as_str())
            invariant
                k <= out@.len(),
                key@ == changes@[i as int].updated_at@,
                forall|m: int| k <= m < out@.len() ==> seq_lt(key@, #[trigger] out@[m].updated_at@),
            decreases k,
        {
            k = k - 1;
        }
        let ghost old_out = out@;
        let ghost old_idx = idx;
        proof {
            if k > 0 {
                lemma_seq_lt_total(key@, old_out[k - 1].updated_at@);
            }
        }
        out.insert(k, x);
        proof {
            idx = old_idx.insert(k as int, i as int);
            let o = out@;
            assert(o =~= old_out.insert(k as int, changes@[i as int]));
            assert forall|a: int, b: int| 0 <= a < b < o.len() implies seq_le(
                #[trigger] o[a].updated_at@,
                #[trigger] o[b].updated_at@,
            ) by {
                if b < k {
                } else if b == k {
                    // o[a] = old_out[a] with a < k, and old_out[a] <= old_out[k-1] <= key
                    if a < k - 1 {
                        let p = old_out[a].updated_at@;
                        let q = old_out[k - 1].updated_at@;
                        assert(seq_le(p, q));
                        if seq_lt(p, q) && seq_lt(q, key@) {
                            lemma_seq_lt_transitive(p, q, key@);
                        }
                    }
                } else if a < k {
                    assert(o[b] == old_out[b - 1]);
                    let kk = key@;
                    let bb = old_out[b - 1].updated_at@;
                    assert(seq_lt(kk, bb));
                    if a < k - 1 || a == k - 1 {
                        let p = old_out[a].updated_at@;
                        if a < k - 1 {
                            let q = old_out[k - 1].updated_at@;
                            if seq_lt(p, q) && seq_lt(q, kk) {
                                lemma_seq_lt_transitive(p, q, kk);
                            }
                        }
                        if seq_lt(p, kk) {
                            lemma_seq_lt_transitive(p, kk, bb);
                        }
                    }
                } else if a == k {
                    assert(o[b] == old_out[b - 1]);
                } else {
                    assert(o[a] == old_out[a - 1]);
                    assert(o[b] == old_out[b - 1]);
                }
            }
            assert forall|a: int, b: int|
                0 <= a < b < o.len() && (#[trigger] o[a]).updated_at@ == (#[trigger] o[b]).updated_at@ implies idx[a] < idx[b] by {
                if a == k {
                    assert(o[b] == old_out[b - 1]);
                    lemma_seq_lt_irreflexive(key@);
                } else if b == k {
                    assert(idx[b] == i);
                } else if a < k && b > k {
                    assert(idx[a] == old_idx[a]);
                    assert(idx[b] == old_idx[b - 1]);
                    assert(o[a] == old_out[a]);
                    assert(o[b] == old_out[b - 1]);
                    assert(old_idx[a] != old_idx[b - 1]);
                    // equal clocks: old invariant orders them
                    assert(a < b - 1);
                } else if a > k {
                    assert(o[a] == old_out[a - 1]);
                    assert(o[b] == old_out[b - 1]);
                }
            }
            assert forall|a: int| 0 <= a < o.len() implies #[trigger] o[a] == changes@[idx[a]] by {
                if a < k {
                } else if a == k {
                } else {
                    assert(o[a] == old_out[a - 1]);
                }
            }
            assert forall|a: int, b: int| 0 <= a < b < idx.len() implies #[trigger] idx[a] != #[trigger] idx[b] by {
                if a == k || b == k {
                } else if a < k && b > k {
                    assert(idx[b] == old_idx[b - 1]);
                } else if a > k {
                    assert(idx[a] == old_idx[a - 1]);
                    assert(idx[b] == old_idx[b - 1]);
                }
            }
        }
        i = i + 1;
    }
    proof {
        assert(stable_permutation(changes@, out@, idx));
    }
    out
}

/// All changes after `cursor`, ordered by `updated_at` ascending. This answers a PULL.
pub fn changes_since(changes: &[SyncChange], cursor: Option<&str>) -> (out: Vec<SyncChange>)
    ensures
        sorted_by_clock(out@),
        exists|idx: Seq<int>|
            #[trigger] stable_permutation(
                since_filter(changes@, opt_str(cursor)),
                out@,
                idx,
            ),
{
    let f = filter_since(changes, cursor);
    sort_by_clock(f)
}

/// The highest `updated_at` across `changes`, or `None` when there are none.
/// This is the sync cursor that lets the next PULL resume.
pub fn max_cursor(changes: &[SyncChange]) -> (r: Option<String>)
    ensures
        r is None <==> changes@.len() == 0,
        r matches Some(m) ==> {
            &&& exists|i: int| 0 <= i < changes@.len() && changes@[i].updated_at@ == m@
            &&& forall|i: int| 0 <= i < changes@.len() ==> seq_le(#[trigger] changes@[i].updated_at@, m@)
        },
{
    if changes.len() == 0 {
        return None;
    }
    let mut best: usize = 0;
    let mut i: usize = 1;
    while i < changes.len()
        invariant
            1 <= i <= changes@.len(),
            best < i,
            forall|j: int| 0 <= j < i ==> seq_le(#[trigger] changes@[j].updated_at@, changes@[best as int].updated_at@),
        decreases changes.len() - i,
    {
        if !str_lt(changes[i].updated_at.as_str(), changes[best].updated_at.as_str()) {
            let ghost ob = best;
            proof {
                lemma_seq_lt_total(changes@[i as int].updated_at@, changes@[ob as int].updated_at@);
            }
            assert forall|j: int| 0 <= j < i + 1 implies seq_le(#[trigger] changes@[j].updated_at@, changes@[i as int].updated_at@) by {
                let p = changes@[j].updated_at@;
                let q = changes@[ob as int].updated_at@;
                let r = changes@[i as int].updated_at@;
                if j < i && seq_lt(p, q) && seq_lt(q, r) {
                    lemma_seq_lt_transitive(p, q, r);
                }
            }
            best = i;
        }
        i = i + 1;
    }
    Some(changes[best].updated_at.clone())
}

/// The cursor a PULL answers with: the highest `updated_at` returned, or the
/// incoming cursor echoed back when nothing new was returned.
pub fn next_cursor(changes: &[SyncChange], since: &str) -> (r: String)
    ensures
        changes@.len() == 0 ==> r@ == since@,
        changes@.len() > 0 ==> {
            &&& exists|i: int| 0 <= i < changes@.len() && changes@[i].updated_at@ == r@
            &&& forall|i: int| 0 <= i < changes@.len() ==> seq_le(#[trigger] changes@[i].updated_at@, r@)
        },
{
    match max_cursor(changes) {
        Some(m) => m,
        None => owned(since),
    }
}

} // verus!
