//! Backup records and the restore plan.
//!
//! A backup record captures the allow-listed fields of the store, the
//! opaque storage marker (verbatim, never reinterpreted), the account
//! identifier, and a creation timestamp. Records are keyed by identifier:
//! one file per identifier, later backups overwrite earlier ones. The
//! restore side turns a backup document back into store mutations and
//! unconditionally drops the cached auth flag.

use vstd::prelude::*;

use crate::keys::{
    allow_listed_keys, auth_status_key, spec_agent_state_key, spec_allow_listed_keys,
    spec_auth_status_key, spec_storage_marker_key, storage_marker_key,
};
use crate::store::{
    all_distinct, apply_ops, apply_store_ops, count_upserts, query_value, read_fields, StoreOp,
    StoreOpV,
};
use crate::text::{
    expect_lit, lemma_escape_first_plain, lemma_scan_escaped, render_string_literal,
    scan_string_body, spec_dec_digits, spec_escape, spec_expect, spec_string_literal,
    spec_unescape_at, u64_to_string,
};

verus! {

/// The string value of member `key` in JSON document `doc`, when `doc`
/// parses, has that member, and the member is a string.
pub uninterp spec fn json_str_member(doc: Seq<char>, key: Seq<char>) -> Option<Seq<char>>;

/// Relies on serde_json::from_str, Value::get and Value::as_str: whether
/// the document parses, whether it has the member, and that member's
/// string value depend on the two texts alone.
#[verifier::external_body]
pub(crate) fn extract_string_member(doc: &str, key: &str) -> (r: Option<String>)
    ensures
        match r {
            Some(v) => json_str_member(doc@, key@) == Some(v@),
            None => json_str_member(doc@, key@) is None,
        },
{
    let parsed: serde_json::Value = match serde_json::from_str(doc) {
        Ok(v) => v,
        Err(_) => return None,
    };
    match parsed.get(key) {
        Some(serde_json::Value::String(s)) => Some(s.clone()),
        _ => None,
    }
}

/// Whether a text is a well-formed JSON document.
pub uninterp spec fn json_wf(text: Seq<char>) -> bool;

/// Relies on serde_json::from_str: whether a text parses as JSON depends
/// on the text alone.
#[verifier::external_body]
pub(crate) fn is_valid_json(text: &str) -> (r: bool)
    ensures
        r == json_wf(text@),
{
    serde_json::from_str::<serde_json::Value>(text).is_ok()
}

/// Relies on chrono::Local::now / to_rfc3339: yields the current local
/// time as an ISO-8601 text; nothing is assumed of the value.
#[verifier::external_body]
pub(crate) fn now_rfc3339() -> (r: String) {
    chrono::Local::now().to_rfc3339()
}

/// Mathematical model of a backup record.
pub struct BackupRecordV {
    pub fields: Seq<(Seq<char>, Seq<char>)>,
    pub marker: Option<Seq<char>>,
    pub email: Seq<char>,
    pub time: Seq<char>,
}

/// One backup record: the allow-listed fields found in the store, the
/// opaque storage marker text (kept verbatim), the account identifier,
/// and the creation timestamp.
pub struct BackupRecord {
    pub fields: Vec<(String, String)>,
    pub marker: Option<String>,
    pub email: String,
    pub time: String,
}

impl View for BackupRecord {
    type V = BackupRecordV;

    open spec fn view(&self) -> BackupRecordV {
        BackupRecordV {
            fields: self.fields.deep_view(),
            marker: match self.marker {
                Some(ref m) => Some(m@),
                None => None,
            },
            email: self.email@,
            time: self.time@,
        }
    }
}

/// Field keys are distinct and allow-listed; a kept marker is valid
/// JSON, so it can be embedded verbatim as a nested value.
pub open spec fn backup_record_wf(r: BackupRecordV) -> bool {
    &&& all_distinct(r.fields.map_values(|f: (Seq<char>, Seq<char>)| f.0))
    &&& forall|i: int|
        0 <= i < r.fields.len() ==> spec_allow_listed_keys().contains(#[trigger] r.fields[i].0)
    &&& match r.marker {
        Some(m) => json_wf(m),
        None => true,
    }
}

impl BackupRecord {
    /// Field keys are distinct and allow-listed; a kept marker is valid
    /// JSON, so it can be embedded verbatim as a nested value.
    pub open spec fn wf(&self) -> bool {
        backup_record_wf(self@)
    }
}

/// One rendered member of a backup document, with its trailing comma.
pub open spec fn spec_field_member(k: Seq<char>, v: Seq<char>) -> Seq<char> {
    spec_string_literal(k) + seq![':'] + spec_string_literal(v) + seq![',']
}

/// The rendered allow-listed fields, in record order.
pub open spec fn spec_fields_part(fields: Seq<(Seq<char>, Seq<char>)>) -> Seq<char>
    decreases fields.len(),
{
    if fields.len() == 0 {
        Seq::empty()
    } else {
        spec_fields_part(fields.drop_last()) + spec_field_member(
            fields.last().0,
            fields.last().1,
        )
    }
}

/// The rendered storage marker member: the marker text stands verbatim as
/// a nested value.
pub open spec fn spec_marker_part(marker: Option<Seq<char>>) -> Seq<char> {
    match marker {
        Some(m) => spec_string_literal(spec_storage_marker_key()) + seq![':'] + m + seq![','],
        None => Seq::empty(),
    }
}

/// The full backup document for a record.
pub open spec fn spec_backup_doc(r: BackupRecordV) -> Seq<char> {
    seq!['{'] + spec_fields_part(r.fields) + spec_marker_part(r.marker) + spec_string_literal(
        "account_email"@,
    ) + seq![':'] + spec_string_literal(r.email) + seq![','] + spec_string_literal("backup_time"@)
        + seq![':'] + spec_string_literal(r.time) + seq!['}']
}

/// Renders a backup record as its document text.
pub fn render_backup_record(rec: &BackupRecord) -> (r: String)
    ensures
        r@ == spec_backup_doc(rec@),
{
    let mut out = String::new();
    out.push('{');
    let n = rec.fields.len();
    let mut i: usize = 0;
    while i < n
        invariant
            n == rec.fields@.len(),
            i <= n,
            out@ == seq!['{'] + spec_fields_part(rec@.fields.take(i as int)),
        decreases n - i,
    {
        let k = &rec.fields[i].0;
        let v = &rec.fields[i].1;
        let klit = render_string_literal(k.as_str());
        out.append(klit.as_str());
        out.push(':');
        let vlit = render_string_literal(v.as_str());
        out.append(vlit.as_str());
        out.push(',');
        proof {
            assert(rec@.fields.take(i as int + 1).drop_last() =~= rec@.fields.take(i as int));
            assert(rec@.fields.take(i as int + 1).last() == rec@.fields[i as int]);
            assert(out@ =~= seq!['{'] + spec_fields_part(rec@.fields.take(i as int + 1)));
        }
        i = i + 1;
    }
    proof {
        assert(rec@.fields.take(n as int) =~= rec@.fields);
    }
    match &rec.marker {
        Some(m) => {
            let klit = render_string_literal(storage_marker_key());
            out.append(klit.as_str());
            out.push(':');
            out.append(m.as_str());
            out.push(',');
        },
        None => {
        },
    }
    let email_key = render_string_literal("account_email");
    out.append(email_key.as_str());
    out.push(':');
    let email_lit = render_string_literal(rec.email.as_str());
    out.append(email_lit.as_str());
    out.push(',');
    let time_key = render_string_literal("backup_time");
    out.append(time_key.as_str());
    out.push(':');
    let time_lit = render_string_literal(rec.time.as_str());
    out.append(time_lit.as_str());
    out.push('}');
    proof {
        assert(out@ =~= spec_backup_doc(rec@));
    }
    out
}

/// The file name a backup for this identifier is stored under. Backing up
/// the same identifier always yields the same name, so a later backup
/// overwrites the earlier record.
pub fn backup_file_name(email: &str) -> (r: String)
    ensures
        r@ == email@ + ".json"@,
{
    let mut out = email.to_owned();
    out.append(".json");
    out
}

/// A backup ready to be written: the per-identifier file name and the
/// document content.
pub struct BackupPlan {
    pub file_name: String,
    pub content: String,
}

/// Collects a backup of the store for the given account identifier.
///
/// Reads the allow-listed fields (absent keys are skipped), keeps the
/// storage marker verbatim when it is present and valid, and stamps the
/// record with the identifier and the current time. The resulting plan's
/// file name is determined by the identifier alone, and its content is
/// the rendered document of a well-formed record carrying that
/// identifier: distinct allow-listed fields, and a marker only when it is
/// valid JSON. Which fields and marker the record holds depends on the
/// store's contents at the moment of the call.
pub fn smart_backup_antigravity_account(conn: &rusqlite::Connection, email: &str) -> (r: Result<
    BackupPlan,
    String,
>)
    ensures
        r matches Ok(p) ==> {
            &&& p.file_name@ == email@ + ".json"@
            &&& exists|rv: BackupRecordV|
                {
                    &&& #[trigger] spec_backup_doc(rv) == p.content@
                    &&& rv.email == email@
                    &&& backup_record_wf(rv)
                }
        },
{
    let keys = allow_listed_keys();
    let fields = match read_fields(conn, &keys) {
        Ok(f) => f,
        Err(e) => {
            return Err(e);
        },
    };
    let marker = match query_value(conn, storage_marker_key()) {
        Ok(Some(m)) => {
            if is_valid_json(m.as_str()) {
                Some(m)
            } else {
                None
            }
        },
        Ok(None) => None,
        Err(e) => {
            return Err(e);
        },
    };
    let time = now_rfc3339();
    let rec = BackupRecord { fields, marker, email: email.to_owned(), time };
    proof {
        assert(rec.wf());
    }
    let content = render_backup_record(&rec);
    proof {
        assert(exists|rv: BackupRecordV|
            {
                &&& #[trigger] spec_backup_doc(rv) == content@
                &&& rv.email == email@
                &&& backup_record_wf(rv)
            }) by {
            assert(spec_backup_doc(rec@) == content@ && rec@.email == email@ && backup_record_wf(
                rec@,
            ));
        }
    }
    Ok(BackupPlan { file_name: backup_file_name(email), content })
}

/// The restore mutations for the allow-listed members found in a backup
/// document: an upsert for each member present, in allow-list order.
pub open spec fn spec_member_ops(doc: Seq<char>, keys: Seq<Seq<char>>) -> Seq<StoreOpV>
    decreases keys.len(),
{
    if keys.len() == 0 {
        Seq::empty()
    } else {
        spec_member_ops(doc, keys.drop_last()) + match json_str_member(doc, keys.last()) {
            Some(v) => seq![StoreOpV::Upsert(keys.last(), v)],
            None => Seq::empty(),
        }
    }
}

/// The full restore plan for a backup document: write back the
/// allow-listed members it holds, then delete the cached auth flag.
pub open spec fn spec_restore_ops_doc(doc: Seq<char>) -> Seq<StoreOpV> {
    spec_member_ops(doc, spec_allow_listed_keys()) + seq![
        StoreOpV::Delete(spec_auth_status_key()),
    ]
}

/// Turns a backup document into the store mutations of a restore.
pub fn restore_plan_from_document(doc: &str) -> (r: Vec<StoreOp>)
    ensures
        r@.map_values(|op: StoreOp| op@) == spec_restore_ops_doc(doc@),
{
    let mut ops: Vec<StoreOp> = Vec::new();
    let keys = allow_listed_keys();
    let n = keys.len();
    let mut i: usize = 0;
    while i < n
        invariant
            n == keys@.len(),
            keys.deep_view() == spec_allow_listed_keys(),
            i <= n,
            ops@.map_values(|op: StoreOp| op@) == spec_member_ops(
                doc@,
                spec_allow_listed_keys().take(i as int),
            ),
        decreases n - i,
    {
        let key = &keys[i];
        match extract_string_member(doc, key.as_str()) {
            Some(v) => {
                ops.push(StoreOp::Upsert(key.clone(), v));
            },
            None => {
            },
        }
        proof {
            let ks = spec_allow_listed_keys();
            assert(ks.take(i as int + 1).drop_last() =~= ks.take(i as int));
            assert(ks.take(i as int + 1).last() == ks[i as int]);
            assert(key@ == keys.deep_view()[i as int]);
            assert(ops@.map_values(|op: StoreOp| op@) =~= spec_member_ops(
                doc@,
                ks.take(i as int + 1),
            ));
        }
        i = i + 1;
    }
    proof {
        assert(spec_allow_listed_keys().take(n as int) =~= spec_allow_listed_keys());
    }
    ops.push(StoreOp::Delete(auth_status_key().to_owned()));
    proof {
        assert(ops@.map_values(|op: StoreOp| op@) =~= spec_restore_ops_doc(doc@));
    }
    ops
}

/// The allow-listed fields found at position `p` of one of this
/// library's own backup documents, read strictly: for each allow-listed
/// key in order, the member is taken exactly when the text carries its
/// rendered form — the key as a string literal, a colon, the value as a
/// string literal, and the trailing comma.
pub open spec fn spec_parse_fields(text: Seq<char>, p: int, keys: Seq<Seq<char>>) -> Option<
    (Seq<(Seq<char>, Seq<char>)>, int),
>
    decreases keys.len(),
{
    if keys.len() == 0 {
        Some((Seq::empty(), p))
    } else {
        let k = keys.first();
        match spec_expect(text, p, spec_string_literal(k) + seq![':']) {
            Some(q) => if q < text.len() && text[q] == '"' {
                match spec_unescape_at(text, q + 1) {
                    Some(st) => match spec_expect(text, st.1, seq![',']) {
                        Some(q2) => match spec_parse_fields(text, q2, keys.drop_first()) {
                            Some(rest) => Some((seq![(k, st.0)] + rest.0, rest.1)),
                            None => None,
                        },
                        None => None,
                    },
                    None => None,
                }
            } else {
                None
            },
            None => spec_parse_fields(text, p, keys.drop_first()),
        }
    }
}

/// The allow-listed fields of one of this library's own backup
/// documents.
pub open spec fn spec_parse_backup_fields(text: Seq<char>) -> Option<Seq<(Seq<char>, Seq<char>)>> {
    if text.len() > 0 && text[0] == '{' {
        match spec_parse_fields(text, 1, spec_allow_listed_keys()) {
            Some(v) => Some(v.0),
            None => None,
        }
    } else {
        None
    }
}

/// Reads the allow-listed fields back out of one of this library's own
/// backup documents, strictly as `spec_parse_backup_fields` says. The
/// tolerant reader for documents of any origin is the trusted member
/// extraction that `restore_plan_from_document` uses.
pub fn parse_backup_fields(doc: &str) -> (r: Option<Vec<(String, String)>>)
    ensures
        match r {
            Some(fields) => spec_parse_backup_fields(doc@) == Some(fields.deep_view()),
            None => spec_parse_backup_fields(doc@) is None,
        },
{
    let n = doc.unicode_len();
    if n == 0 {
        return None;
    }
    if doc.get_char(0) != '{' {
        return None;
    }
    let keys = allow_listed_keys();
    let mut fields: Vec<(String, String)> = Vec::new();
    let mut pos: usize = 1;
    let m = keys.len();
    let mut i: usize = 0;
    proof {
        assert(spec_allow_listed_keys().skip(0) =~= spec_allow_listed_keys());
        if spec_parse_fields(doc@, 1, spec_allow_listed_keys()) is Some {
            let rest = spec_parse_fields(doc@, 1, spec_allow_listed_keys()).unwrap();
            assert(fields.deep_view() + rest.0 =~= rest.0);
        }
    }
    while i < m
        invariant
            n == doc@.len(),
            m == keys@.len(),
            keys.deep_view() == spec_allow_listed_keys(),
            i <= m,
            1 <= pos,
            pos <= n,
            doc@[0] == '{',
            spec_parse_fields(doc@, 1, spec_allow_listed_keys()) == (match spec_parse_fields(
                doc@,
                pos as int,
                spec_allow_listed_keys().skip(i as int),
            ) {
                Some(rest) => Some((fields.deep_view() + rest.0, rest.1)),
                None => None::<(Seq<(Seq<char>, Seq<char>)>, int)>,
            }),
        decreases m - i,
    {
        let ghost ks = spec_allow_listed_keys();
        proof {
            assert(ks.skip(i as int).len() == ks.len() - i);
            assert(ks.skip(i as int).first() == ks[i as int]);
            assert(ks.skip(i as int).drop_first() =~= ks.skip(i as int + 1));
            reveal_strlit(",");
            assert(","@ =~= seq![',']);
        }
        let key = &keys[i];
        let mut memberlit = render_string_literal(key.as_str());
        memberlit.push(':');
        proof {
            assert(memberlit@ =~= spec_string_literal(key@) + seq![':']);
            assert(key@ == ks[i as int]);
        }
        match expect_lit(doc, pos, memberlit.as_str()) {
            Some(q) => {
                let quote_ok = q < n && doc.get_char(q) == '"';
                if !quote_ok {
                    proof {
                        assert(spec_parse_fields(doc@, pos as int, ks.skip(i as int)) is None);
                    }
                    return None;
                }
                match scan_string_body(doc, q + 1) {
                    Some(pair) => {
                        match expect_lit(doc, pair.1, ",") {
                            Some(q2) => {
                                let ghost prev = fields.deep_view();
                                fields.push((key.clone(), pair.0));
                                proof {
                                    assert(fields.deep_view() =~= prev.push((key@, pair.0@)));
                                    if spec_parse_fields(doc@, q2 as int, ks.skip(i as int + 1))
                                        is Some {
                                        let rest = spec_parse_fields(
                                            doc@,
                                            q2 as int,
                                            ks.skip(i as int + 1),
                                        ).unwrap();
                                        assert(fields.deep_view() + rest.0 =~= prev + (seq![
                                            (key@, pair.0@),
                                        ] + rest.0));
                                    }
                                }
                                pos = q2;
                            },
                            None => {
                                proof {
                                    assert(spec_parse_fields(doc@, pos as int, ks.skip(i as int))
                                        is None);
                                }
                                return None;
                            },
                        }
                    },
                    None => {
                        proof {
                            assert(spec_parse_fields(doc@, pos as int, ks.skip(i as int))
                                is None);
                        }
                        return None;
                    },
                }
            },
            None => {
            },
        }
        i = i + 1;
    }
    proof {
        assert(spec_allow_listed_keys().skip(m as int) =~= Seq::<Seq<char>>::empty());
        assert(spec_parse_fields(doc@, pos as int, Seq::<Seq<char>>::empty()) == Some(
            (Seq::<(Seq<char>, Seq<char>)>::empty(), pos as int),
        ));
        assert(fields.deep_view() + Seq::<(Seq<char>, Seq<char>)>::empty() =~= fields.deep_view());
    }
    Some(fields)
}

/// What follows the fields part of a rendered backup document: the
/// marker member when one is kept, then the identifier and timestamp
/// members and the closing brace.
spec fn spec_doc_after_fields(rv: BackupRecordV) -> Seq<char> {
    spec_marker_part(rv.marker) + spec_string_literal("account_email"@) + seq![':']
        + spec_string_literal(rv.email) + seq![','] + spec_string_literal("backup_time"@)
        + seq![':'] + spec_string_literal(rv.time) + seq!['}']
}

/// The text after the fields part opens with a string literal whose
/// first character is not the allow-listed key's first character, so the
/// strict reader never mistakes the marker or identifier member for a
/// field.
#[verifier::rlimit(60)]
proof fn lemma_doc_after_head(rv: BackupRecordV)
    ensures
        spec_backup_doc(rv) =~= seq!['{'] + spec_fields_part(rv.fields) + spec_doc_after_fields(
            rv,
        ),
        spec_doc_after_fields(rv).len() >= 2,
        spec_doc_after_fields(rv)[0] == '"',
        spec_doc_after_fields(rv)[1] != 'j',
{
    let after = spec_doc_after_fields(rv);
    reveal_strlit("__$__targetStorageMarker");
    reveal_strlit("account_email");
    match rv.marker {
        Some(m) => {
            let headkey = spec_storage_marker_key();
            lemma_escape_first_plain(headkey);
            assert(after =~= spec_string_literal(headkey) + (seq![':'] + m + seq![',']
                + spec_string_literal("account_email"@) + seq![':'] + spec_string_literal(
                rv.email,
            ) + seq![','] + spec_string_literal("backup_time"@) + seq![':']
                + spec_string_literal(rv.time) + seq!['}']));
            assert(spec_string_literal(headkey)[0] == '"');
            assert(spec_string_literal(headkey)[1] == spec_escape(headkey)[0]);
            assert(headkey[0] == '_');
        },
        None => {
            let headkey = "account_email"@;
            lemma_escape_first_plain(headkey);
            assert(after =~= spec_string_literal(headkey) + (seq![':'] + spec_string_literal(
                rv.email,
            ) + seq![','] + spec_string_literal("backup_time"@) + seq![':']
                + spec_string_literal(rv.time) + seq!['}']));
            assert(spec_string_literal(headkey)[0] == '"');
            assert(spec_string_literal(headkey)[1] == spec_escape(headkey)[0]);
            assert(headkey[0] == 'a');
        },
    }
}

#[verifier::rlimit(60)]
proof fn lemma_fields_round_trip_empty(rv: BackupRecordV)
    requires
        backup_record_wf(rv),
        rv.fields.len() == 0,
    ensures
        spec_parse_fields(spec_backup_doc(rv), 1, spec_allow_listed_keys()) == Some(
            (rv.fields, 1int),
        ),
{
    let doc = spec_backup_doc(rv);
    let agent = spec_agent_state_key();
    assert(spec_allow_listed_keys() =~= seq![agent]);
    reveal_strlit("jetskiStateSync.agentManagerInitState");
    let after = spec_doc_after_fields(rv);
    lemma_doc_after_head(rv);
    lemma_escape_first_plain(agent);
    let memberlit = spec_string_literal(agent) + seq![':'];
    assert(memberlit[1] == spec_escape(agent)[0]);
    assert(memberlit[1] == 'j');
    assert(spec_fields_part(rv.fields) =~= Seq::<char>::empty());
    assert(doc =~= seq!['{'] + after);
    // The expected member literal cannot match: position 2 of the
    // document carries the next member's first key character, which is
    // not the allow-listed key's.
    assert(doc[2] == after[1]);
    if 1 + memberlit.len() <= doc.len() && doc.subrange(1, 1 + memberlit.len() as int)
        == memberlit {
        assert(doc.subrange(1, 1 + memberlit.len() as int)[1] == doc[2]);
        assert(memberlit[1] == doc[2]);
        assert(false);
    }
    assert(spec_expect(doc, 1, memberlit) is None);
    assert(spec_parse_fields(doc, 1, seq![agent].drop_first()) == Some(
        (Seq::<(Seq<char>, Seq<char>)>::empty(), 1int),
    ));
    assert(rv.fields =~= Seq::<(Seq<char>, Seq<char>)>::empty());
}

#[verifier::rlimit(60)]
proof fn lemma_fields_round_trip_single(rv: BackupRecordV)
    requires
        backup_record_wf(rv),
        rv.fields.len() == 1,
    ensures
        spec_parse_fields(spec_backup_doc(rv), 1, spec_allow_listed_keys()) matches Some(p)
            && p.0 == rv.fields,
{
    let doc = spec_backup_doc(rv);
    let agent = spec_agent_state_key();
    assert(spec_allow_listed_keys() =~= seq![agent]);
    let after = spec_doc_after_fields(rv);
    lemma_doc_after_head(rv);
    let memberlit = spec_string_literal(agent) + seq![':'];
    let k = rv.fields[0].0;
    let v = rv.fields[0].1;
    assert(spec_allow_listed_keys().contains(k));
    assert(k == agent);
    assert(rv.fields =~= seq![(k, v)]);
    assert(spec_fields_part(rv.fields) =~= spec_string_literal(k) + seq![':']
        + spec_string_literal(v) + seq![',']) by {
        assert(rv.fields.drop_last() =~= Seq::<(Seq<char>, Seq<char>)>::empty());
        assert(spec_fields_part(rv.fields.drop_last()) =~= Seq::<char>::empty());
        assert(rv.fields.last() == (k, v));
    }
    let q = 1 + memberlit.len() as int;
    assert(doc.subrange(1, q) =~= memberlit);
    assert(spec_expect(doc, 1, memberlit) == Some(q));
    let base2 = seq!['{'] + memberlit + seq!['"'];
    let tail = seq![','] + after;
    assert(doc =~= base2 + spec_escape(v) + seq!['"'] + tail);
    assert(doc[q] == '"');
    lemma_scan_escaped(v, base2, tail);
    let vend = base2.len() as int + spec_escape(v).len() + 1;
    assert(spec_unescape_at(doc, q + 1) == Some((v, vend)));
    assert(doc[vend] == ',');
    assert(doc.subrange(vend, vend + 1) =~= seq![',']);
    assert(spec_expect(doc, vend, seq![',']) == Some(vend + 1));
    assert(spec_parse_fields(doc, vend + 1, seq![agent].drop_first()) == Some(
        (Seq::<(Seq<char>, Seq<char>)>::empty(), vend + 1),
    ));
    assert(seq![(k, v)] + Seq::<(Seq<char>, Seq<char>)>::empty() =~= rv.fields);
}

/// Law: the strict reader recovers exactly the fields of a rendered
/// backup document.
pub proof fn lemma_backup_fields_round_trip(rv: BackupRecordV)
    requires
        backup_record_wf(rv),
    ensures
        spec_parse_backup_fields(spec_backup_doc(rv)) == Some(rv.fields),
{
    let doc = spec_backup_doc(rv);
    let agent = spec_agent_state_key();
    assert(spec_allow_listed_keys() =~= seq![agent]);
    assert(doc[0] == '{' && doc.len() > 0);
    // The allow list holds one key, so a well-formed record has at most
    // one field, and a present field carries that key.
    if rv.fields.len() >= 2 {
        let keys0 = rv.fields.map_values(|f: (Seq<char>, Seq<char>)| f.0);
        assert(keys0[0] == rv.fields[0].0 && keys0[1] == rv.fields[1].0);
        assert(spec_allow_listed_keys().contains(rv.fields[0].0));
        assert(spec_allow_listed_keys().contains(rv.fields[1].0));
        let i0 = choose|i: int|
            0 <= i < spec_allow_listed_keys().len() && spec_allow_listed_keys()[i]
                == rv.fields[0].0;
        let i1 = choose|i: int|
            0 <= i < spec_allow_listed_keys().len() && spec_allow_listed_keys()[i]
                == rv.fields[1].0;
        assert(i0 == 0 && i1 == 0);
        assert(rv.fields[0].0 == agent && rv.fields[1].0 == agent);
        assert(keys0[0] != keys0[1]);
        assert(false);
    }
    if rv.fields.len() == 0 {
        lemma_fields_round_trip_empty(rv);
    } else {
        lemma_fields_round_trip_single(rv);
    }
}

/// Law (the backup/restore round trip, end to end): render a backup of
/// `store`, read the rendered document back with the strict reader, and
/// restore the fields it holds: the store's rows are exactly as they
/// were at backup time, except that the auth status key is absent
/// afterwards regardless of its prior value.
pub proof fn lemma_backup_document_round_trip(
    store: Map<Seq<char>, Seq<char>>,
    rv: BackupRecordV,
)
    requires
        backup_record_wf(rv),
        forall|i: int|
            0 <= i < rv.fields.len() ==> store.dom().contains(#[trigger] rv.fields[i].0)
                && rv.fields[i].1 == store[rv.fields[i].0],
    ensures
        spec_parse_backup_fields(spec_backup_doc(rv)) == Some(rv.fields),
        ({
            let restored = apply_ops(
                store,
                spec_upsert_ops(rv.fields) + seq![StoreOpV::Delete(spec_auth_status_key())],
            );
            &&& !restored.dom().contains(spec_auth_status_key())
            &&& forall|k: Seq<char>|
                k != spec_auth_status_key() ==> ((restored.dom().contains(k)
                    <==> store.dom().contains(k)) && (store.dom().contains(k) ==> restored[k]
                    == store[k]))
        }),
{
    lemma_backup_fields_round_trip(rv);
    lemma_matching_upserts(store, rv.fields);
    let ops = spec_upsert_ops(rv.fields) + seq![StoreOpV::Delete(spec_auth_status_key())];
    assert(ops.drop_last() =~= spec_upsert_ops(rv.fields));
    assert(ops.last() == StoreOpV::Delete(spec_auth_status_key()));
    assert(apply_ops(store, ops) == store.remove(spec_auth_status_key()));
}

/// The upsert mutations that write a record's fields back into the store.
pub open spec fn spec_upsert_ops(fields: Seq<(Seq<char>, Seq<char>)>) -> Seq<StoreOpV> {
    fields.map_values(|f: (Seq<char>, Seq<char>)| StoreOpV::Upsert(f.0, f.1))
}

proof fn lemma_matching_upserts(store: Map<Seq<char>, Seq<char>>, fields: Seq<(Seq<char>, Seq<char>)>)
    requires
        forall|i: int|
            0 <= i < fields.len() ==> store.dom().contains(#[trigger] fields[i].0) && fields[i].1
                == store[fields[i].0],
    ensures
        apply_ops(store, spec_upsert_ops(fields)) == store,
    decreases fields.len(),
{
    if fields.len() == 0 {
    } else {
        let pre = fields.drop_last();
        assert(forall|i: int| 0 <= i < pre.len() ==> pre[i] == fields[i]);
        lemma_matching_upserts(store, pre);
        assert(spec_upsert_ops(fields).drop_last() =~= spec_upsert_ops(pre));
        assert(spec_upsert_ops(fields).last() == StoreOpV::Upsert(
            fields.last().0,
            fields.last().1,
        ));
        assert(store.insert(fields.last().0, fields.last().1) =~= store);
    }
}

/// Law: backing up an identifier and then restoring that backup leaves
/// the store's rows exactly as they were at backup time, except that the
/// auth status key is absent afterwards regardless of its prior value.
///
/// `fields` is what the backup captured: keys present in the store at
/// backup time, each paired with its stored value; the restore writes
/// those fields back and then deletes the auth status key.
pub proof fn lemma_backup_restore_round_trip(
    store: Map<Seq<char>, Seq<char>>,
    fields: Seq<(Seq<char>, Seq<char>)>,
)
    requires
        forall|i: int|
            0 <= i < fields.len() ==> store.dom().contains(#[trigger] fields[i].0) && fields[i].1
                == store[fields[i].0],
    ensures
        ({
            let after = apply_ops(
                store,
                spec_upsert_ops(fields) + seq![StoreOpV::Delete(spec_auth_status_key())],
            );
            &&& !after.dom().contains(spec_auth_status_key())
            &&& forall|k: Seq<char>|
                k != spec_auth_status_key() ==> ((after.dom().contains(k)
                    <==> store.dom().contains(k)) && (store.dom().contains(k) ==> after[k]
                    == store[k]))
        }),
{
    let ops = spec_upsert_ops(fields) + seq![StoreOpV::Delete(spec_auth_status_key())];
    assert(ops.drop_last() =~= spec_upsert_ops(fields));
    assert(ops.last() == StoreOpV::Delete(spec_auth_status_key()));
    lemma_matching_upserts(store, fields);
    assert(apply_ops(store, ops) == store.remove(spec_auth_status_key()));
}

/// Law: backing up the same identifier twice leaves exactly one record
/// for that identifier, holding the second backup's content. Records are
/// stored under the file name determined by the identifier alone, so the
/// second write replaces the first.
pub proof fn lemma_backup_overwrite(
    dir: Map<Seq<char>, Seq<char>>,
    name: Seq<char>,
    first: Seq<char>,
    second: Seq<char>,
)
    ensures
        dir.insert(name, first).insert(name, second).dom() =~= dir.dom().insert(name),
        dir.insert(name, first).insert(name, second)[name] == second,
{
}

/// The message a successful restore reports, counting written fields.
pub open spec fn spec_restore_message(n: nat) -> Seq<char> {
    "Restored "@ + spec_dec_digits(n) + " entries, auth status cleared"@
}

/// Restores a backup document into the store: writes the allow-listed
/// members it holds and deletes the cached auth flag, in that order.
///
/// A malformed document is a hard failure for this record: nothing is
/// written, and the error names the problem.
pub fn save_antigravity_account_to_file(conn: &rusqlite::Connection, doc: &str) -> (r: Result<
    String,
    String,
>)
    ensures
        !json_wf(doc@) ==> (r matches Err(e) && e@ == "backup document is not valid JSON"@),
        r matches Ok(msg) ==> json_wf(doc@) && msg@ == spec_restore_message(
            count_upserts(spec_restore_ops_doc(doc@)),
        ),
{
    if !is_valid_json(doc) {
        return Err("backup document is not valid JSON".to_owned());
    }
    let ops = restore_plan_from_document(doc);
    match apply_store_ops(conn, &ops) {
        Ok(n) => {
            let mut msg = "Restored ".to_owned();
            let num = u64_to_string(n as u64);
            msg.append(num.as_str());
            msg.append(" entries, auth status cleared");
            Ok(msg)
        },
        Err(e) => Err(e),
    }
}

} // verus!
