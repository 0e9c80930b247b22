//! Snapshot-store behaviour against a real in-memory row store, and the
//! backup / restore round trip.

use antigravity_agent::backup::{
    parse_backup_fields, restore_plan_from_document, save_antigravity_account_to_file,
    smart_backup_antigravity_account,
};
use antigravity_agent::store::{
    auth_outcome, clear_all_fields, delete_field, get_current_antigravity_info, read_fields,
    read_full_snapshot, write_fields, StoreOp,
};

fn fresh_store() -> rusqlite::Connection {
    let conn = rusqlite::Connection::open_in_memory().expect("open in-memory store");
    conn.execute("CREATE TABLE ItemTable (key TEXT PRIMARY KEY, value TEXT)", [])
        .expect("create table");
    conn
}

const AGENT_KEY: &str = "jetskiStateSync.agentManagerInitState";
const AUTH_KEY: &str = "antigravityAuthStatus";
const MARKER_KEY: &str = "__$__targetStorageMarker";

fn rows(pairs: &[(&str, &str)]) -> Vec<(String, String)> {
    pairs
        .iter()
        .map(|(k, v)| (k.to_string(), v.to_string()))
        .collect()
}

#[test]
fn a_missing_store_reads_as_an_empty_snapshot() {
    let snapshot = read_full_snapshot(None).expect("absence is not an error");
    assert_eq!(snapshot.len(), 0);
}

#[test]
fn written_fields_come_back_in_the_snapshot() {
    let conn = fresh_store();
    let written = write_fields(&conn, &rows(&[("A", "1"), ("B", "2")])).unwrap();
    assert_eq!(written, 2);
    let snapshot = read_full_snapshot(Some(&conn)).unwrap();
    assert_eq!(snapshot.len(), 2);
    // The store hands rows back in key order.
    assert_eq!(snapshot.entries[0].key, "A");
    assert_eq!(snapshot.entries[0].raw, "1");
    assert_eq!(snapshot.entries[1].key, "B");
    assert_eq!(snapshot.entries[1].raw, "2");
}

#[test]
fn write_fields_has_upsert_semantics() {
    let conn = fresh_store();
    write_fields(&conn, &rows(&[("A", "1")])).unwrap();
    write_fields(&conn, &rows(&[("A", "2"), ("B", "3")])).unwrap();
    let snapshot = read_full_snapshot(Some(&conn)).unwrap();
    assert_eq!(snapshot.len(), 2);
    assert_eq!(snapshot.entries[0].raw, "2");
}

#[test]
fn read_fields_silently_omits_absent_keys() {
    let conn = fresh_store();
    write_fields(&conn, &rows(&[("present", "x")])).unwrap();
    let names = vec!["present".to_string(), "absent".to_string()];
    let fields = read_fields(&conn, &names).unwrap();
    assert_eq!(fields.len(), 1);
    assert_eq!(fields[0].0, "present");
    assert_eq!(fields[0].1, "x");
}

#[test]
fn deleting_an_absent_key_is_a_success() {
    let conn = fresh_store();
    delete_field(&conn, "never_there").expect("idempotent delete");
    write_fields(&conn, &rows(&[("K", "1")])).unwrap();
    delete_field(&conn, "K").unwrap();
    delete_field(&conn, "K").expect("second delete still succeeds");
    assert_eq!(read_full_snapshot(Some(&conn)).unwrap().len(), 0);
}

#[test]
fn clearing_an_empty_store_is_a_success() {
    let conn = fresh_store();
    assert_eq!(clear_all_fields(&conn).unwrap(), 0);
    write_fields(&conn, &rows(&[("A", "1"), ("B", "2")])).unwrap();
    assert_eq!(clear_all_fields(&conn).unwrap(), 2);
    assert_eq!(clear_all_fields(&conn).unwrap(), 0);
}

#[test]
fn backup_then_restore_round_trips_the_allow_listed_fields() {
    let conn = fresh_store();
    write_fields(
        &conn,
        &rows(&[
            (AGENT_KEY, "opaque-session-blob"),
            (AUTH_KEY, "{\"email\":\"a@b.example\"}"),
            (MARKER_KEY, "{\"m\":true}"),
            ("unrelated", "stays"),
        ]),
    )
    .unwrap();

    let plan = smart_backup_antigravity_account(&conn, "a@b.example").unwrap();
    assert_eq!(plan.file_name, "a@b.example.json");
    // The storage marker is embedded verbatim, byte for byte.
    assert!(plan.content.contains("{\"m\":true}"));
    assert!(plan.content.contains("\"account_email\":\"a@b.example\""));
    assert!(plan.content.contains("backup_time"));

    let msg = save_antigravity_account_to_file(&conn, &plan.content).unwrap();
    assert_eq!(msg, "Restored 1 entries, auth status cleared");

    let snapshot = read_full_snapshot(Some(&conn)).unwrap();
    let agent = snapshot
        .entries
        .iter()
        .find(|e| e.key == AGENT_KEY)
        .expect("allow-listed field restored");
    assert_eq!(agent.raw, "opaque-session-blob");
    assert!(
        snapshot.entries.iter().all(|e| e.key != AUTH_KEY),
        "the auth status key must be absent after a restore"
    );
    let unrelated = snapshot.entries.iter().find(|e| e.key == "unrelated").unwrap();
    assert_eq!(unrelated.raw, "stays");
}

#[test]
fn backing_up_twice_keeps_one_record_with_the_second_content() {
    let conn = fresh_store();
    write_fields(&conn, &rows(&[(AGENT_KEY, "first-state")])).unwrap();
    let first = smart_backup_antigravity_account(&conn, "same@id").unwrap();
    write_fields(&conn, &rows(&[(AGENT_KEY, "second-state")])).unwrap();
    let second = smart_backup_antigravity_account(&conn, "same@id").unwrap();

    // Same identifier, same file name: the second record replaces the
    // first wherever records are stored by file name.
    assert_eq!(first.file_name, second.file_name);
    assert!(second.content.contains("second-state"));
    assert!(!second.content.contains("first-state"));

    let parsed: serde_json::Value = serde_json::from_str(&second.content).unwrap();
    assert_eq!(parsed[AGENT_KEY], serde_json::Value::String("second-state".to_string()));
}

#[test]
fn an_invalid_storage_marker_is_left_out_of_the_backup() {
    let conn = fresh_store();
    write_fields(&conn, &rows(&[(AGENT_KEY, "s"), (MARKER_KEY, "oops{not json")])).unwrap();
    let plan = smart_backup_antigravity_account(&conn, "x@y").unwrap();
    assert!(!plan.content.contains(MARKER_KEY));
    // The document still parses.
    assert!(serde_json::from_str::<serde_json::Value>(&plan.content).is_ok());
}

#[test]
fn a_backup_document_is_valid_json_even_with_awkward_values() {
    let conn = fresh_store();
    write_fields(
        &conn,
        &rows(&[(AGENT_KEY, "quote \" backslash \\ newline \n tab \t end")]),
    )
    .unwrap();
    let plan = smart_backup_antigravity_account(&conn, "q@e").unwrap();
    let parsed: serde_json::Value = serde_json::from_str(&plan.content).unwrap();
    assert_eq!(
        parsed[AGENT_KEY],
        serde_json::Value::String("quote \" backslash \\ newline \n tab \t end".to_string())
    );
}

#[test]
fn the_restore_plan_extracts_the_member_value_and_drops_the_auth_key() {
    let doc = "{\"jetskiStateSync.agentManagerInitState\":\"hello\",\"other\":\"ignored\"}";
    let ops = restore_plan_from_document(doc);
    assert_eq!(ops.len(), 2);
    match &ops[0] {
        StoreOp::Upsert(k, v) => {
            assert_eq!(k, AGENT_KEY);
            assert_eq!(v, "hello");
        }
        StoreOp::Delete(_) => panic!("first op must write the allow-listed field"),
    }
    match &ops[1] {
        StoreOp::Delete(k) => assert_eq!(k, AUTH_KEY),
        StoreOp::Upsert(_, _) => panic!("last op must delete the auth status key"),
    }
}

#[test]
fn a_malformed_backup_document_is_a_hard_failure_and_writes_nothing() {
    let conn = fresh_store();
    write_fields(&conn, &rows(&[(AGENT_KEY, "before"), (AUTH_KEY, "stale")])).unwrap();
    let err = save_antigravity_account_to_file(&conn, "{not json at all").unwrap_err();
    assert_eq!(err, "backup document is not valid JSON");
    // The store is untouched: the field kept its value and the auth key
    // is still there.
    let snapshot = read_full_snapshot(Some(&conn)).unwrap();
    assert_eq!(snapshot.len(), 2);
    assert!(snapshot.entries.iter().any(|e| e.key == AUTH_KEY));
    let agent = snapshot.entries.iter().find(|e| e.key == AGENT_KEY).unwrap();
    assert_eq!(agent.raw, "before");
}

#[test]
fn the_strict_reader_recovers_the_fields_of_a_rendered_backup() {
    let conn = fresh_store();
    write_fields(&conn, &rows(&[
        (AGENT_KEY, "state with \"quotes\" and \\slashes\\"),
        (MARKER_KEY, "{\"nested\":[1,2,3]}"),
    ]))
    .unwrap();
    let plan = smart_backup_antigravity_account(&conn, "reader@test").unwrap();
    let fields = parse_backup_fields(&plan.content).expect("our own documents parse");
    assert_eq!(fields.len(), 1);
    assert_eq!(fields[0].0, AGENT_KEY);
    assert_eq!(fields[0].1, "state with \"quotes\" and \\slashes\\");

    // A record without the field still parses, to an empty field list.
    clear_all_fields(&conn).unwrap();
    write_fields(&conn, &rows(&[(MARKER_KEY, "{\"m\":1}")])).unwrap();
    let plan2 = smart_backup_antigravity_account(&conn, "reader@test").unwrap();
    let fields2 = parse_backup_fields(&plan2.content).expect("field-free documents parse");
    assert!(fields2.is_empty());

    // Foreign shapes are not accepted by the strict reader.
    assert!(parse_backup_fields("").is_none());
    assert!(parse_backup_fields("[1,2]").is_none());
}

#[test]
fn the_auth_outcome_distinguishes_absence_from_a_value() {
    assert_eq!(auth_outcome(Some("{\"email\":\"x@y\"}".to_string())).unwrap(), "{\"email\":\"x@y\"}");
    assert_eq!(auth_outcome(None).unwrap_err(), "no auth info found in the store");
}

#[test]
fn restoring_a_document_without_the_field_still_clears_the_auth_key() {
    let conn = fresh_store();
    write_fields(&conn, &rows(&[(AUTH_KEY, "stale")])).unwrap();
    let msg = save_antigravity_account_to_file(&conn, "{}").unwrap();
    assert_eq!(msg, "Restored 0 entries, auth status cleared");
    assert_eq!(read_full_snapshot(Some(&conn)).unwrap().len(), 0);
}

#[test]
fn the_current_info_is_the_stored_auth_value_or_a_named_absence() {
    let conn = fresh_store();
    assert!(get_current_antigravity_info(&conn)
        .unwrap_err()
        .contains("no auth info"));
    write_fields(&conn, &rows(&[(AUTH_KEY, "{\"email\":\"e@f\"}")])).unwrap();
    assert_eq!(get_current_antigravity_info(&conn).unwrap(), "{\"email\":\"e@f\"}");
}
