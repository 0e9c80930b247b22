//! Typed snapshots of the key-value store.
//!
//! A snapshot is an immutable point-in-time copy of the store's rows. Each
//! row keeps the raw stored text and a canonical form of its parsed value,
//! so that two rows compare equal exactly when their parsed values are
//! structurally equal, regardless of formatting differences in the raw text.

use vstd::prelude::*;

verus! {

/// The canonical text of the value stored as `raw`: the result of parsing
/// `raw` as a structured document (falling back to a plain string when the
/// parse fails) and reserialising it in canonical form. Two raw texts have
/// the same canonical text exactly when they denote structurally equal
/// values.
pub uninterp spec fn canon_of(raw: Seq<char>) -> Seq<char>;

/// Relies on serde_json::from_str and serde_json::to_string: with sorted
/// object keys (the default map representation) and deterministic number
/// formatting, parse-then-print is a function of the input text alone, and
/// two inputs print equally exactly when they parse to equal values. A text
/// that does not parse is treated as a plain string value, as the store
/// reader does.
#[verifier::external_body]
fn canonical_value(raw: &str) -> (r: String)
    ensures
        r@ == canon_of(raw@),
{
    let v: serde_json::Value = match serde_json::from_str(raw) {
        Ok(v) => v,
        Err(_) => serde_json::Value::String(raw.to_owned()),
    };
    match serde_json::to_string(&v) {
        Ok(s) => s,
        Err(_) => String::new(),
    }
}

/// Mathematical model of one snapshot row.
pub struct SnapshotEntryV {
    pub key: Seq<char>,
    pub raw: Seq<char>,
    pub canon: Seq<char>,
}

/// One row of a snapshot: the key, the raw stored text, and the canonical
/// form of its parsed value.
pub struct SnapshotEntry {
    pub key: String,
    pub raw: String,
    pub canon: String,
}

impl View for SnapshotEntry {
    type V = SnapshotEntryV;

    open spec fn view(&self) -> SnapshotEntryV {
        SnapshotEntryV { key: self.key@, raw: self.raw@, canon: self.canon@ }
    }
}

/// A point-in-time copy of the key-value store, in the row order the store
/// handed back. Keys are unique.
pub struct Snapshot {
    pub entries: Vec<SnapshotEntry>,
}

impl View for Snapshot {
    type V = Seq<SnapshotEntryV>;

    open spec fn view(&self) -> Seq<SnapshotEntryV> {
        self.entries@.map_values(|e: SnapshotEntry| e@)
    }
}

/// Some row of `s` has key `k`.
pub open spec fn has_key(s: Seq<SnapshotEntryV>, k: Seq<char>) -> bool {
    exists|i: int| 0 <= i < s.len() && s[i].key == k
}

/// The canonical value of the row of `s` with key `k` (meaningful when the
/// keys of `s` are distinct and `has_key(s, k)` holds).
pub open spec fn value_of(s: Seq<SnapshotEntryV>, k: Seq<char>) -> Seq<char> {
    let i = choose|i: int| 0 <= i < s.len() && s[i].key == k;
    s[i].canon
}

/// All keys of `s` are distinct.
pub open spec fn distinct_keys(s: Seq<SnapshotEntryV>) -> bool {
    forall|i: int, j: int| 0 <= i < j < s.len() ==> s[i].key != s[j].key
}

/// With distinct keys, any row whose key is `k` carries `value_of(s, k)`.
pub proof fn lemma_value_at(s: Seq<SnapshotEntryV>, k: Seq<char>, i: int)
    requires
        distinct_keys(s),
        0 <= i < s.len(),
        s[i].key == k,
    ensures
        has_key(s, k),
        value_of(s, k) == s[i].canon,
{
    assert(has_key(s, k));
    let j = choose|j: int| 0 <= j < s.len() && s[j].key == k;
    if i < j {
        assert(s[i].key != s[j].key);
    } else if j < i {
        assert(s[j].key != s[i].key);
    }
}

impl Snapshot {
    /// Keys are unique within a snapshot.
    pub open spec fn wf(&self) -> bool {
        distinct_keys(self@)
    }

    /// An empty snapshot: what a store without a backing file looks like.
    pub fn new() -> (r: Snapshot)
        ensures
            r@ == Seq::<SnapshotEntryV>::empty(),
            r.wf(),
    {
        let r = Snapshot { entries: Vec::new() };
        proof {
            assert(r@ =~= Seq::<SnapshotEntryV>::empty());
        }
        r
    }

    pub fn len(&self) -> (n: usize)
        ensures
            n == self@.len(),
    {
        self.entries.len()
    }

    /// Finds the first row whose key is `key`.
    pub fn lookup(&self, key: &String) -> (r: Option<usize>)
        ensures
            match r {
                Some(i) => i < self@.len() && self@[i as int].key == key@ && forall|j: int|
                    0 <= j < i ==> self@[j].key != key@,
                None => !has_key(self@, key@),
            },
    {
        let n = self.entries.len();
        let mut i: usize = 0;
        while i < n
            invariant
                n == self@.len(),
                i <= n,
                forall|j: int| 0 <= j < i ==> self@[j].key != key@,
            decreases n - i,
        {
            if self.entries[i].key == *key {
                return Some(i);
            }
            i = i + 1;
        }
        None
    }
}

/// The snapshot built from store rows, in row order: the first row with a
/// given key wins, and each kept row's value is its canonical form.
pub open spec fn spec_build(rows: Seq<(Seq<char>, Seq<char>)>) -> Seq<SnapshotEntryV>
    decreases rows.len(),
{
    if rows.len() == 0 {
        Seq::empty()
    } else {
        let prev = spec_build(rows.drop_last());
        let row = rows.last();
        if has_key(prev, row.0) {
            prev
        } else {
            prev.push(SnapshotEntryV { key: row.0, raw: row.1, canon: canon_of(row.1) })
        }
    }
}

/// Builds a snapshot from the `(key, value)` rows read out of the store.
pub fn build_snapshot(rows: &Vec<(String, String)>) -> (r: Snapshot)
    ensures
        r@ == spec_build(rows.deep_view()),
        r.wf(),
{
    let mut snap = Snapshot::new();
    let n = rows.len();
    let mut idx: usize = 0;
    while idx < n
        invariant
            n == rows@.len(),
            idx <= n,
            rows.deep_view().len() == rows@.len(),
            snap@ == spec_build(rows.deep_view().take(idx as int)),
            distinct_keys(snap@),
        decreases n - idx,
    {
        let key = &rows[idx].0;
        let value = &rows[idx].1;
        match snap.lookup(key) {
            Some(_) => {
            },
            None => {
                let canon = canonical_value(value.as_str());
                let ghost prev = snap@;
                snap.entries.push(SnapshotEntry { key: key.clone(), raw: value.clone(), canon });
                proof {
                    assert(snap@ =~= prev.push(
                        SnapshotEntryV {
                            key: key@,
                            raw: value@,
                            canon: canon_of(value@),
                        },
                    ));
                }
            },
        }
        proof {
            let rv = rows.deep_view();
            assert(rv.take(idx as int + 1).drop_last() =~= rv.take(idx as int));
            assert(rv.take(idx as int + 1).last() == rv[idx as int]);
            assert(rv[idx as int].0 == rows@[idx as int].0@);
            assert(rv[idx as int].1 == rows@[idx as int].1@);
        }
        idx = idx + 1;
    }
    proof {
        assert(rows.deep_view().take(n as int) =~= rows.deep_view());
    }
    snap
}

} // verus!
