//! Structural diff between two snapshots.
//!
//! The diff treats both snapshots as key sets: keys only in the new
//! snapshot are `Added`, keys only in the old one are `Removed`, and keys
//! in both whose canonical values differ are `Changed`. Equality is
//! structural, so formatting-only differences in the raw text are never
//! reported.

use vstd::prelude::*;

use crate::snapshot::{distinct_keys, has_key, lemma_value_at, value_of, Snapshot, SnapshotEntryV};
use crate::text::{spec_dec_digits, u64_to_string};

verus! {

#[derive(Clone, Copy, Debug, PartialEq, Eq, Structural)]
pub enum ChangeKind {
    Added,
    Removed,
    Changed,
}

/// One reported change: which key, and how it changed.
pub struct FieldChange {
    pub key: String,
    pub kind: ChangeKind,
}

impl View for FieldChange {
    type V = (Seq<char>, ChangeKind);

    open spec fn view(&self) -> (Seq<char>, ChangeKind) {
        (self.key@, self.kind)
    }
}

/// The outcome of diffing two snapshots.
pub struct DataDiff {
    pub has_changes: bool,
    pub changed_fields: Vec<FieldChange>,
    pub summary: String,
}

impl DataDiff {
    pub open spec fn changes(&self) -> Seq<(Seq<char>, ChangeKind)> {
        self.changed_fields@.map_values(|f: FieldChange| f@)
    }

    /// `has_changes` reflects the change list, and the summary counts it.
    pub open spec fn wf(&self) -> bool {
        &&& self.has_changes == (self.changes().len() != 0)
        &&& self.summary@ == spec_summary(self.changes().len() as nat)
    }
}

/// The summary line for a diff with `n` reported changes.
pub open spec fn spec_summary(n: nat) -> Seq<char> {
    if n == 0 {
        "No changes"@
    } else {
        spec_dec_digits(n) + " fields changed"@
    }
}

/// How key `k` differs between the two snapshots, if at all.
pub open spec fn change_at(
    old: Seq<SnapshotEntryV>,
    new: Seq<SnapshotEntryV>,
    k: Seq<char>,
) -> Option<ChangeKind> {
    if !has_key(old, k) && has_key(new, k) {
        Some(ChangeKind::Added)
    } else if has_key(old, k) && !has_key(new, k) {
        Some(ChangeKind::Removed)
    } else if has_key(old, k) && has_key(new, k) && value_of(old, k) != value_of(new, k) {
        Some(ChangeKind::Changed)
    } else {
        None
    }
}

/// What one row of the new snapshot contributes to the change list.
pub open spec fn entry_change(old: Seq<SnapshotEntryV>, e: SnapshotEntryV) -> Seq<
    (Seq<char>, ChangeKind),
> {
    if !has_key(old, e.key) {
        seq![(e.key, ChangeKind::Added)]
    } else if value_of(old, e.key) != e.canon {
        seq![(e.key, ChangeKind::Changed)]
    } else {
        Seq::empty()
    }
}

/// The `Added` and `Changed` entries, in the new snapshot's row order.
pub open spec fn added_changed(old: Seq<SnapshotEntryV>, news: Seq<SnapshotEntryV>) -> Seq<
    (Seq<char>, ChangeKind),
>
    decreases news.len(),
{
    if news.len() == 0 {
        Seq::empty()
    } else {
        added_changed(old, news.drop_last()) + entry_change(old, news.last())
    }
}

/// What one row of the old snapshot contributes to the removal list.
pub open spec fn entry_removed(new: Seq<SnapshotEntryV>, e: SnapshotEntryV) -> Seq<
    (Seq<char>, ChangeKind),
> {
    if !has_key(new, e.key) {
        seq![(e.key, ChangeKind::Removed)]
    } else {
        Seq::empty()
    }
}

/// The `Removed` entries, in the old snapshot's row order.
pub open spec fn removed_entries(new: Seq<SnapshotEntryV>, olds: Seq<SnapshotEntryV>) -> Seq<
    (Seq<char>, ChangeKind),
>
    decreases olds.len(),
{
    if olds.len() == 0 {
        Seq::empty()
    } else {
        removed_entries(new, olds.drop_last()) + entry_removed(new, olds.last())
    }
}

/// The full change list: added and changed keys in the new snapshot's
/// order, followed by removed keys in the old snapshot's order.
pub open spec fn spec_diff(old: Seq<SnapshotEntryV>, new: Seq<SnapshotEntryV>) -> Seq<
    (Seq<char>, ChangeKind),
> {
    added_changed(old, new) + removed_entries(new, old)
}

/// Packs a change list into a `DataDiff` with consistent flag and summary.
fn diff_from_changes(changed_fields: Vec<FieldChange>) -> (r: DataDiff)
    ensures
        r.changes() == changed_fields@.map_values(|f: FieldChange| f@),
        r.wf(),
{
    let n = changed_fields.len();
    let summary = if n == 0 {
        "No changes".to_owned()
    } else {
        u64_to_string(n as u64).concat(" fields changed")
    };
    DataDiff { has_changes: n != 0, changed_fields, summary }
}

/// Diffs two snapshots.
///
/// The change list is exactly `spec_diff(old@, new@)`: for every key,
/// `Added` when it is new, `Removed` when it vanished, `Changed` when its
/// canonical value differs, and nothing when the values are structurally
/// equal.
pub fn analyze_diff(old: &Snapshot, new: &Snapshot) -> (r: DataDiff)
    requires
        old.wf(),
        new.wf(),
    ensures
        r.changes() == spec_diff(old@, new@),
        r.wf(),
{
    let mut out: Vec<FieldChange> = Vec::new();
    let n_new = new.entries.len();
    let mut i: usize = 0;
    while i < n_new
        invariant
            old.wf(),
            new.wf(),
            n_new == new@.len(),
            i <= n_new,
            out@.map_values(|f: FieldChange| f@) == added_changed(old@, new@.take(i as int)),
        decreases n_new - i,
    {
        let entry = &new.entries[i];
        let ghost prev = out@;
        match old.lookup(&entry.key) {
            None => {
                out.push(FieldChange { key: entry.key.clone(), kind: ChangeKind::Added });
            },
            Some(j) => {
                proof {
                    lemma_value_at(old@, entry.key@, j as int);
                }
                if old.entries[j].canon == entry.canon {
                } else {
                    out.push(FieldChange { key: entry.key.clone(), kind: ChangeKind::Changed });
                }
            },
        }
        proof {
            assert(new@.take(i as int + 1).drop_last() =~= new@.take(i as int));
            assert(new@.take(i as int + 1).last() == new@[i as int]);
            assert(out@.map_values(|f: FieldChange| f@) =~= prev.map_values(|f: FieldChange| f@)
                + entry_change(old@, new@[i as int]));
        }
        i = i + 1;
    }
    proof {
        assert(new@.take(n_new as int) =~= new@);
    }
    let ghost ac = out@.map_values(|f: FieldChange| f@);
    let n_old = old.entries.len();
    let mut k: usize = 0;
    while k < n_old
        invariant
            old.wf(),
            new.wf(),
            n_old == old@.len(),
            k <= n_old,
            out@.map_values(|f: FieldChange| f@) == ac + removed_entries(
                new@,
                old@.take(k as int),
            ),
        decreases n_old - k,
    {
        let entry = &old.entries[k];
        let ghost prev = out@;
        match new.lookup(&entry.key) {
            None => {
                out.push(FieldChange { key: entry.key.clone(), kind: ChangeKind::Removed });
            },
            Some(_) => {
            },
        }
        proof {
            assert(old@.take(k as int + 1).drop_last() =~= old@.take(k as int));
            assert(old@.take(k as int + 1).last() == old@[k as int]);
            assert(out@.map_values(|f: FieldChange| f@) =~= prev.map_values(|f: FieldChange| f@)
                + entry_removed(new@, old@[k as int]));
        }
        k = k + 1;
    }
    proof {
        assert(old@.take(n_old as int) =~= old@);
    }
    diff_from_changes(out)
}

/// The change list `d` reports key `k` with kind `kind`.
pub open spec fn reports(d: Seq<(Seq<char>, ChangeKind)>, k: Seq<char>, kind: ChangeKind) -> bool {
    exists|i: int| 0 <= i < d.len() && d[i] == (k, kind)
}

proof fn lemma_reports_concat(
    a: Seq<(Seq<char>, ChangeKind)>,
    b: Seq<(Seq<char>, ChangeKind)>,
    k: Seq<char>,
    kind: ChangeKind,
)
    ensures
        reports(a + b, k, kind) <==> (reports(a, k, kind) || reports(b, k, kind)),
{
    if reports(a + b, k, kind) {
        let i = choose|i: int| 0 <= i < (a + b).len() && (a + b)[i] == (k, kind);
        if i < a.len() {
            assert(a[i] == (k, kind));
        } else {
            assert(b[i - a.len()] == (k, kind));
        }
    }
    if reports(a, k, kind) {
        let i = choose|i: int| 0 <= i < a.len() && a[i] == (k, kind);
        assert((a + b)[i] == (k, kind));
    }
    if reports(b, k, kind) {
        let i = choose|i: int| 0 <= i < b.len() && b[i] == (k, kind);
        assert((a + b)[a.len() + i] == (k, kind));
    }
}

proof fn lemma_ac_reports(
    old: Seq<SnapshotEntryV>,
    news: Seq<SnapshotEntryV>,
    k: Seq<char>,
    kind: ChangeKind,
)
    requires
        distinct_keys(news),
    ensures
        reports(added_changed(old, news), k, kind) <==> (has_key(news, k) && match kind {
            ChangeKind::Added => !has_key(old, k),
            ChangeKind::Changed => has_key(old, k) && value_of(old, k) != value_of(news, k),
            ChangeKind::Removed => false,
        }),
    decreases news.len(),
{
    if news.len() == 0 {
        assert(!has_key(news, k));
        assert(!reports(added_changed(old, news), k, kind));
    } else {
        let pre = news.drop_last();
        let e = news.last();
        assert(forall|i: int| 0 <= i < pre.len() ==> pre[i] == news[i]);
        assert(distinct_keys(pre));
        lemma_ac_reports(old, pre, k, kind);
        lemma_reports_concat(added_changed(old, pre), entry_change(old, e), k, kind);
        // Membership in `news` splits into membership in the prefix or the
        // last row.
        if has_key(pre, k) {
            let i = choose|i: int| 0 <= i < pre.len() && pre[i].key == k;
            assert(news[i].key == k);
        }
        if has_key(news, k) && !has_key(pre, k) {
            let i = choose|i: int| 0 <= i < news.len() && news[i].key == k;
            if i < pre.len() {
                assert(pre[i].key == k);
            }
            assert(e.key == k);
        }
        if e.key == k {
            assert(news[news.len() - 1].key == k);
            assert(has_key(news, k));
            lemma_value_at(news, k, news.len() - 1);
            assert(!has_key(pre, k)) by {
                if has_key(pre, k) {
                    let i = choose|i: int| 0 <= i < pre.len() && pre[i].key == k;
                    assert(news[i].key == news[news.len() - 1].key);
                }
            }
            // Forward: when the characterisation holds, the last row's
            // contribution reports it.
            if !has_key(old, k) {
                assert(entry_change(old, e)[0] == (e.key, ChangeKind::Added));
                assert(reports(entry_change(old, e), k, ChangeKind::Added));
            } else if value_of(old, k) != e.canon {
                assert(entry_change(old, e)[0] == (e.key, ChangeKind::Changed));
                assert(reports(entry_change(old, e), k, ChangeKind::Changed));
            }
            // Backward: whatever the last row reports is at index 0 and
            // follows its defining case split.
            if reports(entry_change(old, e), k, kind) {
                let i = choose|i: int|
                    0 <= i < entry_change(old, e).len() && entry_change(old, e)[i] == (k, kind);
                assert(i == 0);
            }
        } else {
            if has_key(pre, k) {
                let i = choose|i: int| 0 <= i < pre.len() && pre[i].key == k;
                lemma_value_at(pre, k, i);
                lemma_value_at(news, k, i);
            }
            if reports(entry_change(old, e), k, kind) {
                let i = choose|i: int|
                    0 <= i < entry_change(old, e).len() && entry_change(old, e)[i] == (k, kind);
                assert(entry_change(old, e)[i].0 == e.key);
                assert(false);
            }
        }
    }
}

proof fn lemma_removed_reports(
    new: Seq<SnapshotEntryV>,
    olds: Seq<SnapshotEntryV>,
    k: Seq<char>,
    kind: ChangeKind,
)
    ensures
        reports(removed_entries(new, olds), k, kind) <==> (has_key(olds, k) && !has_key(new, k)
            && kind == ChangeKind::Removed),
    decreases olds.len(),
{
    if olds.len() == 0 {
        assert(!has_key(olds, k));
        assert(!reports(removed_entries(new, olds), k, kind));
    } else {
        let pre = olds.drop_last();
        let e = olds.last();
        assert(forall|i: int| 0 <= i < pre.len() ==> pre[i] == olds[i]);
        lemma_removed_reports(new, pre, k, kind);
        lemma_reports_concat(removed_entries(new, pre), entry_removed(new, e), k, kind);
        if has_key(pre, k) {
            let i = choose|i: int| 0 <= i < pre.len() && pre[i].key == k;
            assert(olds[i].key == k);
        }
        if has_key(olds, k) && !has_key(pre, k) {
            let i = choose|i: int| 0 <= i < olds.len() && olds[i].key == k;
            if i < pre.len() {
                assert(pre[i].key == k);
            }
            assert(e.key == k);
        }
        if reports(entry_removed(new, e), k, kind) {
            let i = choose|i: int|
                0 <= i < entry_removed(new, e).len() && entry_removed(new, e)[i] == (k, kind);
            assert(i == 0);
        }
        if e.key == k {
            assert(olds[olds.len() - 1].key == k);
            assert(has_key(olds, k));
            if !has_key(new, k) {
                assert(entry_removed(new, e)[0] == (k, ChangeKind::Removed));
                assert(reports(entry_removed(new, e), k, ChangeKind::Removed));
            }
        }
    }
}

/// Law: the diff reports key `k` as `added` exactly when `k` is only in
/// the new snapshot, as `removed` exactly when it is only in the old one,
/// and as `changed` exactly when it is in both with structurally unequal
/// values; and it reports nothing else about `k`.
pub proof fn lemma_diff_characterisation(
    old: Seq<SnapshotEntryV>,
    new: Seq<SnapshotEntryV>,
    k: Seq<char>,
    kind: ChangeKind,
)
    requires
        distinct_keys(old),
        distinct_keys(new),
    ensures
        reports(spec_diff(old, new), k, kind) <==> change_at(old, new, k) == Some(kind),
{
    lemma_reports_concat(added_changed(old, new), removed_entries(new, old), k, kind);
    lemma_ac_reports(old, new, k, kind);
    lemma_removed_reports(new, old, k, kind);
}

proof fn lemma_ac_matching(old: Seq<SnapshotEntryV>, news: Seq<SnapshotEntryV>)
    requires
        forall|i: int|
            0 <= i < news.len() ==> has_key(old, #[trigger] news[i].key) && value_of(
                old,
                news[i].key,
            ) == news[i].canon,
    ensures
        added_changed(old, news).len() == 0,
    decreases news.len(),
{
    if news.len() > 0 {
        assert(forall|i: int| 0 <= i < news.drop_last().len() ==> news.drop_last()[i] == news[i]);
        lemma_ac_matching(old, news.drop_last());
    }
}

proof fn lemma_removed_matching(new: Seq<SnapshotEntryV>, olds: Seq<SnapshotEntryV>)
    requires
        forall|i: int| 0 <= i < olds.len() ==> has_key(new, #[trigger] olds[i].key),
    ensures
        removed_entries(new, olds).len() == 0,
    decreases olds.len(),
{
    if olds.len() > 0 {
        assert(forall|i: int| 0 <= i < olds.drop_last().len() ==> olds.drop_last()[i] == olds[i]);
        lemma_removed_matching(new, olds.drop_last());
    }
}

/// Law: diffing a snapshot against itself reports no changes at all.
pub proof fn lemma_diff_self_empty(s: Seq<SnapshotEntryV>)
    requires
        distinct_keys(s),
    ensures
        spec_diff(s, s).len() == 0,
{
    assert forall|i: int| 0 <= i < s.len() implies has_key(s, #[trigger] s[i].key) && value_of(
        s,
        s[i].key,
    ) == s[i].canon by {
        lemma_value_at(s, s[i].key, i);
    }
    lemma_ac_matching(s, s);
    lemma_removed_matching(s, s);
}

/// The label a change gets when the diff direction is reversed.
pub open spec fn swapped_kind(kind: ChangeKind) -> ChangeKind {
    match kind {
        ChangeKind::Added => ChangeKind::Removed,
        ChangeKind::Removed => ChangeKind::Added,
        ChangeKind::Changed => ChangeKind::Changed,
    }
}

/// Law: detection is symmetric in direction and anti-symmetric in labels:
/// reversing the two snapshots reports exactly the same keys, with `added`
/// and `removed` swapped and `changed` kept.
pub proof fn lemma_diff_direction_symmetric(
    old: Seq<SnapshotEntryV>,
    new: Seq<SnapshotEntryV>,
    k: Seq<char>,
    kind: ChangeKind,
)
    requires
        distinct_keys(old),
        distinct_keys(new),
    ensures
        change_at(old, new, k) == Some(kind) <==> change_at(new, old, k) == Some(
            swapped_kind(kind),
        ),
        reports(spec_diff(old, new), k, kind) <==> reports(
            spec_diff(new, old),
            k,
            swapped_kind(kind),
        ),
{
    lemma_diff_characterisation(old, new, k, kind);
    lemma_diff_characterisation(new, old, k, swapped_kind(kind));
}

/// What a monitor tick saw: either no store at all, or a snapshot of it.
pub enum Observation {
    Absent,
    Present(Snapshot),
}

impl View for Observation {
    type V = Option<Seq<SnapshotEntryV>>;

    open spec fn view(&self) -> Option<Seq<SnapshotEntryV>> {
        match self {
            Observation::Absent => None,
            Observation::Present(s) => Some(s@),
        }
    }
}

impl Observation {
    pub open spec fn wf(&self) -> bool {
        match self {
            Observation::Absent => true,
            Observation::Present(s) => s.wf(),
        }
    }
}

/// The change list between two observed states. When a store appears out
/// of nothing or vanishes entirely, a single synthetic `data` entry stands
/// for the whole event instead of one entry per key.
pub open spec fn spec_observed_diff(
    old: Option<Seq<SnapshotEntryV>>,
    new: Option<Seq<SnapshotEntryV>>,
) -> Seq<(Seq<char>, ChangeKind)> {
    match (old, new) {
        (Some(a), Some(b)) => spec_diff(a, b),
        (None, Some(b)) => if b.len() != 0 {
            seq![("data"@, ChangeKind::Added)]
        } else {
            Seq::empty()
        },
        (Some(a), None) => if a.len() != 0 {
            seq![("data"@, ChangeKind::Removed)]
        } else {
            Seq::empty()
        },
        (None, None) => Seq::empty(),
    }
}

/// Diffs two observed states, handling the synthetic appear/vanish cases.
pub fn analyze_observations(old: &Observation, new: &Observation) -> (r: DataDiff)
    requires
        old.wf(),
        new.wf(),
    ensures
        r.changes() == spec_observed_diff(old@, new@),
        r.wf(),
{
    match (old, new) {
        (Observation::Present(a), Observation::Present(b)) => analyze_diff(a, b),
        (Observation::Absent, Observation::Present(b)) => {
            let mut out: Vec<FieldChange> = Vec::new();
            if b.len() != 0 {
                out.push(FieldChange { key: "data".to_owned(), kind: ChangeKind::Added });
            }
            proof {
                assert(out@.map_values(|f: FieldChange| f@) =~= spec_observed_diff(old@, new@));
            }
            diff_from_changes(out)
        },
        (Observation::Present(a), Observation::Absent) => {
            let mut out: Vec<FieldChange> = Vec::new();
            if a.len() != 0 {
                out.push(FieldChange { key: "data".to_owned(), kind: ChangeKind::Removed });
            }
            proof {
                assert(out@.map_values(|f: FieldChange| f@) =~= spec_observed_diff(old@, new@));
            }
            diff_from_changes(out)
        },
        (Observation::Absent, Observation::Absent) => {
            let out: Vec<FieldChange> = Vec::new();
            proof {
                assert(out@.map_values(|f: FieldChange| f@) =~= spec_observed_diff(old@, new@));
            }
            diff_from_changes(out)
        },
    }
}

} // verus!
