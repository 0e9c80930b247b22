//! The snapshot store: typed access to the host application's key-value
//! table.
//!
//! Every row-store access goes through a small set of trusted wrappers
//! around the embedded database; everything around them — snapshot
//! construction, the store-operation model, and the contracts of the
//! store-level operations — is verified.

use vstd::prelude::*;

use crate::snapshot::{build_snapshot, Snapshot};

verus! {

#[verifier::external_type_specification]
#[verifier::external_body]
pub struct ExConnection(rusqlite::Connection);

/// Relies on rusqlite prepare/query_map: reads every `(key, value)` row of
/// the store's table, in its key order.
#[verifier::external_body]
pub(crate) fn query_all_rows(conn: &rusqlite::Connection) -> (r: Result<
    Vec<(String, String)>,
    String,
>) {
    let mut stmt = match conn.prepare("SELECT key, value FROM ItemTable ORDER BY key") {
        Ok(s) => s,
        Err(e) => return Err(e.to_string()),
    };
    let rows = match stmt.query_map([], |row| Ok((row.get(0)?, row.get(1)?))) {
        Ok(r) => r,
        Err(e) => return Err(e.to_string()),
    };
    let mut out = Vec::new();
    for row in rows {
        out.push(row.map_err(|e| e.to_string())?);
    }
    Ok(out)
}

/// Relies on rusqlite::Connection::query_row: reads the value stored under
/// one exact key; an absent key is `None`, not an error.
#[verifier::external_body]
pub(crate) fn query_value(conn: &rusqlite::Connection, key: &str) -> (r: Result<
    Option<String>,
    String,
>) {
    let res: rusqlite::Result<String> = conn.query_row(
        "SELECT value FROM ItemTable WHERE key = ?1",
        [key],
        |row| row.get(0),
    );
    match res {
        Ok(v) => Ok(Some(v)),
        Err(rusqlite::Error::QueryReturnedNoRows) => Ok(None),
        Err(e) => Err(e.to_string()),
    }
}

/// Relies on rusqlite::Connection::execute with INSERT OR REPLACE: replaces
/// the value when the key exists, inserts it otherwise, atomically per row.
#[verifier::external_body]
pub(crate) fn upsert_row(conn: &rusqlite::Connection, key: &str, value: &str) -> (r: Result<
    (),
    String,
>) {
    match conn.execute("INSERT OR REPLACE INTO ItemTable (key, value) VALUES (?1, ?2)", [
        key,
        value,
    ]) {
        Ok(_) => Ok(()),
        Err(e) => Err(e.to_string()),
    }
}

/// Relies on rusqlite::Connection::execute with DELETE: removes the row
/// with the given key; deleting an absent key succeeds with zero rows
/// affected.
#[verifier::external_body]
pub(crate) fn delete_row(conn: &rusqlite::Connection, key: &str) -> (r: Result<(), String>) {
    match conn.execute("DELETE FROM ItemTable WHERE key = ?1", [key]) {
        Ok(_) => Ok(()),
        Err(e) => Err(e.to_string()),
    }
}

/// Relies on rusqlite::Connection::execute with DELETE: removes every row
/// of the table and reports how many there were; a no-op on an empty store.
#[verifier::external_body]
pub(crate) fn delete_all_rows(conn: &rusqlite::Connection) -> (r: Result<usize, String>) {
    match conn.execute("DELETE FROM ItemTable", []) {
        Ok(n) => Ok(n),
        Err(e) => Err(e.to_string()),
    }
}

/// Reads the whole store into a snapshot.
///
/// `None` stands for a store whose file does not exist yet: that is a
/// valid observable state and yields an empty snapshot, never an error.
pub fn read_full_snapshot(conn: Option<&rusqlite::Connection>) -> (r: Result<Snapshot, String>)
    ensures
        conn is None ==> (r matches Ok(s) && s@.len() == 0),
        r matches Ok(s) ==> s.wf(),
{
    match conn {
        None => Ok(Snapshot::new()),
        Some(c) => match query_all_rows(c) {
            Ok(rows) => Ok(build_snapshot(&rows)),
            Err(e) => Err(e),
        },
    }
}

/// Every element of `s` occurs exactly once.
pub open spec fn all_distinct<T>(s: Seq<T>) -> bool {
    forall|i: int, j: int| 0 <= i < j < s.len() ==> s[i] != s[j]
}

/// Reads the named keys out of the store; keys absent from the store are
/// silently omitted. Every returned key is one of the names, and distinct
/// names yield distinct returned keys.
pub fn read_fields(conn: &rusqlite::Connection, names: &Vec<String>) -> (r: Result<
    Vec<(String, String)>,
    String,
>)
    ensures
        r matches Ok(fields) ==> forall|p: int|
            0 <= p < fields.deep_view().len() ==> names.deep_view().contains(
                #[trigger] fields.deep_view()[p].0,
            ),
        r matches Ok(fields) ==> (all_distinct(names.deep_view()) ==> all_distinct(
            fields.deep_view().map_values(|f: (Seq<char>, Seq<char>)| f.0),
        )),
{
    let mut out: Vec<(String, String)> = Vec::new();
    let ghost mut srcs: Seq<int> = Seq::empty();
    let n = names.len();
    let mut i: usize = 0;
    while i < n
        invariant
            n == names@.len(),
            i <= n,
            names.deep_view().len() == n,
            out.deep_view().len() == out@.len(),
            srcs.len() == out@.len(),
            forall|p: int| 0 <= p < srcs.len() ==> 0 <= #[trigger] srcs[p] < i,
            forall|p: int, q: int| 0 <= p < q < srcs.len() ==> srcs[p] < srcs[q],
            forall|p: int|
                0 <= p < srcs.len() ==> #[trigger] out.deep_view()[p].0 == names.deep_view()[srcs[p]],
        decreases n - i,
    {
        let name = &names[i];
        match query_value(conn, name.as_str()) {
            Ok(Some(v)) => {
                let ghost prev = out.deep_view();
                out.push((name.clone(), v));
                proof {
                    assert(out.deep_view() =~= prev.push((name@, v@)));
                    srcs = srcs.push(i as int);
                }
            },
            Ok(None) => {
            },
            Err(e) => {
                return Err(e);
            },
        }
        i = i + 1;
    }
    proof {
        assert forall|p: int| 0 <= p < out.deep_view().len() implies names.deep_view().contains(
            #[trigger] out.deep_view()[p].0,
        ) by {
            assert(names.deep_view()[srcs[p]] == out.deep_view()[p].0);
        }
        if all_distinct(names.deep_view()) {
            let keys = out.deep_view().map_values(|f: (Seq<char>, Seq<char>)| f.0);
            assert forall|p: int, q: int| 0 <= p < q < keys.len() implies keys[p] != keys[q] by {
                assert(names.deep_view()[srcs[p]] != names.deep_view()[srcs[q]]);
            }
        }
    }
    Ok(out)
}

/// Writes each `(key, value)` entry into the store with upsert semantics,
/// in order; reports how many entries were written.
pub fn write_fields(conn: &rusqlite::Connection, entries: &Vec<(String, String)>) -> (r: Result<
    usize,
    String,
>)
    ensures
        r matches Ok(n) ==> n == entries@.len(),
{
    let total = entries.len();
    let mut i: usize = 0;
    while i < total
        invariant
            total == entries@.len(),
            i <= total,
        decreases total - i,
    {
        let entry = &entries[i];
        match upsert_row(conn, entry.0.as_str(), entry.1.as_str()) {
            Ok(()) => {
            },
            Err(e) => {
                return Err(e);
            },
        }
        i = i + 1;
    }
    Ok(total)
}

/// Deletes one key from the store; deleting an absent key is a success.
pub fn delete_field(conn: &rusqlite::Connection, name: &str) -> (r: Result<(), String>) {
    delete_row(conn, name)
}

/// Deletes every row of the store; a no-op success on an empty store.
/// Reports how many rows were removed.
pub fn clear_all_fields(conn: &rusqlite::Connection) -> (r: Result<usize, String>) {
    delete_all_rows(conn)
}

/// The outcome reported for a read of the auth status row: the stored
/// value when one is there, and the distinguishable "nothing to do" error
/// text when the row is absent — absence is an expected state, never a
/// store failure.
pub fn auth_outcome(auth_value: Option<String>) -> (r: Result<String, String>)
    ensures
        match auth_value {
            Some(v) => r matches Ok(s) && s@ == v@,
            None => r matches Err(e) && e@ == "no auth info found in the store"@,
        },
{
    match auth_value {
        Some(v) => Ok(v),
        None => Err("no auth info found in the store".to_owned()),
    }
}

/// Reads the current auth status value — the store's record of who is
/// logged in. Whatever the store hands back is folded into the outcome by
/// `auth_outcome`, which carries the exact contract.
pub fn get_current_antigravity_info(conn: &rusqlite::Connection) -> (r: Result<String, String>) {
    match query_value(conn, crate::keys::auth_status_key()) {
        Ok(v) => auth_outcome(v),
        Err(e) => Err(e),
    }
}

/// Mathematical model of one store mutation.
pub enum StoreOpV {
    Upsert(Seq<char>, Seq<char>),
    Delete(Seq<char>),
}

/// One store mutation: upsert a row or delete one.
pub enum StoreOp {
    Upsert(String, String),
    Delete(String),
}

impl View for StoreOp {
    type V = StoreOpV;

    open spec fn view(&self) -> StoreOpV {
        match self {
            StoreOp::Upsert(k, v) => StoreOpV::Upsert(k@, v@),
            StoreOp::Delete(k) => StoreOpV::Delete(k@),
        }
    }
}

/// The store contents after one mutation.
pub open spec fn apply_op(m: Map<Seq<char>, Seq<char>>, op: StoreOpV) -> Map<Seq<char>, Seq<char>> {
    match op {
        StoreOpV::Upsert(k, v) => m.insert(k, v),
        StoreOpV::Delete(k) => m.remove(k),
    }
}

/// The store contents after a list of mutations, applied in order.
pub open spec fn apply_ops(m: Map<Seq<char>, Seq<char>>, ops: Seq<StoreOpV>) -> Map<
    Seq<char>,
    Seq<char>,
>
    decreases ops.len(),
{
    if ops.len() == 0 {
        m
    } else {
        apply_op(apply_ops(m, ops.drop_last()), ops.last())
    }
}

/// How many of the mutations are upserts.
pub open spec fn count_upserts(ops: Seq<StoreOpV>) -> nat
    decreases ops.len(),
{
    if ops.len() == 0 {
        0
    } else {
        count_upserts(ops.drop_last()) + (if ops.last() is Upsert {
            1nat
        } else {
            0nat
        })
    }
}

/// Applies the mutations to the live store, in order, stopping at the
/// first failure. On success the number of upserts applied is reported.
pub fn apply_store_ops(conn: &rusqlite::Connection, ops: &Vec<StoreOp>) -> (r: Result<
    usize,
    String,
>)
    ensures
        r matches Ok(n) ==> n == count_upserts(ops@.map_values(|op: StoreOp| op@)),
{
    let total = ops.len();
    let mut written: usize = 0;
    let mut i: usize = 0;
    while i < total
        invariant
            total == ops@.len(),
            i <= total,
            written == count_upserts(ops@.map_values(|op: StoreOp| op@).take(i as int)),
            written <= i,
        decreases total - i,
    {
        let ghost opsv = ops@.map_values(|op: StoreOp| op@);
        match &ops[i] {
            StoreOp::Upsert(k, v) => {
                match upsert_row(conn, k.as_str(), v.as_str()) {
                    Ok(()) => {
                        written = written + 1;
                    },
                    Err(e) => {
                        return Err(e);
                    },
                }
            },
            StoreOp::Delete(k) => {
                match delete_row(conn, k.as_str()) {
                    Ok(()) => {
                    },
                    Err(e) => {
                        return Err(e);
                    },
                }
            },
        }
        proof {
            assert(opsv.take(i as int + 1).drop_last() =~= opsv.take(i as int));
            assert(opsv.take(i as int + 1).last() == opsv[i as int]);
        }
        i = i + 1;
    }
    proof {
        assert(ops@.map_values(|op: StoreOp| op@).take(total as int) =~= ops@.map_values(
            |op: StoreOp| op@,
        ));
    }
    Ok(written)
}

} // verus!
