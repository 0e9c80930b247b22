//! Diff behaviour: reflexivity, the per-key characterisation, direction
//! symmetry, structural equality, and the monitor tick scenario.

use antigravity_agent::diff::{analyze_diff, analyze_observations, ChangeKind, Observation};
use antigravity_agent::monitor::DatabaseMonitor;
use antigravity_agent::snapshot::{build_snapshot, Snapshot};

fn snap(rows: &[(&str, &str)]) -> Snapshot {
    let owned: Vec<(String, String)> = rows
        .iter()
        .map(|(k, v)| (k.to_string(), v.to_string()))
        .collect();
    build_snapshot(&owned)
}

#[test]
fn diff_of_a_snapshot_with_itself_reports_nothing() {
    let a = snap(&[("A", "1"), ("B", "{\"x\": [1, 2]}"), ("C", "plain text")]);
    let d = analyze_diff(&a, &a);
    assert!(!d.has_changes);
    assert_eq!(d.changed_fields.len(), 0);
    assert_eq!(d.summary, "No changes");
}

#[test]
fn added_removed_and_changed_are_reported_per_key() {
    let old = snap(&[("stay", "1"), ("gone", "2"), ("edited", "3")]);
    let new = snap(&[("stay", "1"), ("edited", "4"), ("fresh", "5")]);
    let d = analyze_diff(&old, &new);
    assert!(d.has_changes);
    assert_eq!(d.changed_fields.len(), 3);
    // New snapshot's order first (added / changed), then removals.
    assert_eq!(d.changed_fields[0].key, "edited");
    assert!(matches!(d.changed_fields[0].kind, ChangeKind::Changed));
    assert_eq!(d.changed_fields[1].key, "fresh");
    assert!(matches!(d.changed_fields[1].kind, ChangeKind::Added));
    assert_eq!(d.changed_fields[2].key, "gone");
    assert!(matches!(d.changed_fields[2].kind, ChangeKind::Removed));
    assert_eq!(d.summary, "3 fields changed");
}

#[test]
fn reversing_direction_swaps_added_and_removed_only() {
    let a = snap(&[("only_a", "1"), ("both", "2")]);
    let b = snap(&[("only_b", "3"), ("both", "9")]);
    let ab = analyze_diff(&a, &b);
    let ba = analyze_diff(&b, &a);
    let mut ab_keys: Vec<String> = ab.changed_fields.iter().map(|f| f.key.clone()).collect();
    let mut ba_keys: Vec<String> = ba.changed_fields.iter().map(|f| f.key.clone()).collect();
    ab_keys.sort();
    ba_keys.sort();
    assert_eq!(ab_keys, ba_keys);
    for f in &ab.changed_fields {
        let mirrored = ba
            .changed_fields
            .iter()
            .find(|g| g.key == f.key)
            .expect("same key set in both directions");
        match f.kind {
            ChangeKind::Added => assert!(matches!(mirrored.kind, ChangeKind::Removed)),
            ChangeKind::Removed => assert!(matches!(mirrored.kind, ChangeKind::Added)),
            ChangeKind::Changed => assert!(matches!(mirrored.kind, ChangeKind::Changed)),
        }
    }
}

#[test]
fn formatting_only_differences_are_not_changes() {
    let old = snap(&[("K", "{\"a\":1}")]);
    let new = snap(&[("K", "{ \"a\" : 1 }")]);
    let d = analyze_diff(&old, &new);
    assert!(!d.has_changes);
}

#[test]
fn a_raw_string_equals_its_quoted_form() {
    // "not json" fails to parse and falls back to a plain string value,
    // which is structurally equal to the parsed string literal.
    let old = snap(&[("K", "not json")]);
    let new = snap(&[("K", "\"not json\"")]);
    let d = analyze_diff(&old, &new);
    assert!(!d.has_changes);
}

#[test]
fn structurally_different_values_are_changes() {
    let old = snap(&[("K", "{\"a\":1}")]);
    let new = snap(&[("K", "{\"a\":2}")]);
    let d = analyze_diff(&old, &new);
    assert!(d.has_changes);
    assert_eq!(d.changed_fields.len(), 1);
    assert_eq!(d.changed_fields[0].key, "K");
    assert!(matches!(d.changed_fields[0].kind, ChangeKind::Changed));
}

#[test]
fn an_appearing_store_is_one_synthetic_added_entry() {
    let b = snap(&[("A", "1"), ("B", "2")]);
    let d = analyze_observations(&Observation::Absent, &Observation::Present(b));
    assert!(d.has_changes);
    assert_eq!(d.changed_fields.len(), 1);
    assert_eq!(d.changed_fields[0].key, "data");
    assert!(matches!(d.changed_fields[0].kind, ChangeKind::Added));
}

#[test]
fn a_vanishing_store_is_one_synthetic_removed_entry() {
    let a = snap(&[("A", "1")]);
    let d = analyze_observations(&Observation::Present(a), &Observation::Absent);
    assert_eq!(d.changed_fields.len(), 1);
    assert_eq!(d.changed_fields[0].key, "data");
    assert!(matches!(d.changed_fields[0].kind, ChangeKind::Removed));
}

#[test]
fn absent_to_empty_store_reports_nothing() {
    let d = analyze_observations(&Observation::Absent, &Observation::Present(snap(&[])));
    assert!(!d.has_changes);
    let d2 = analyze_observations(&Observation::Absent, &Observation::Absent);
    assert!(!d2.has_changes);
}

#[test]
fn monitor_ticks_report_b_removed_c_added_and_nothing_for_a() {
    let mut monitor = DatabaseMonitor::new();
    monitor.start_monitoring();
    assert!(monitor.is_running());

    let first = monitor.tick(Ok(snap(&[("A", "1"), ("B", "2")])));
    assert!(first.is_none(), "the first observation has nothing to diff against");

    let second = monitor.tick(Ok(snap(&[("A", "1"), ("C", "3")])));
    let event = second.expect("the second tick must emit a change event");
    let keys_kinds: Vec<(String, bool)> = event
        .diff
        .changed_fields
        .iter()
        .map(|f| (f.key.clone(), matches!(f.kind, ChangeKind::Added)))
        .collect();
    assert_eq!(event.diff.changed_fields.len(), 2);
    assert!(keys_kinds.contains(&("C".to_string(), true)));
    assert!(keys_kinds.contains(&("B".to_string(), false)));
    assert!(matches!(
        event.diff.changed_fields.iter().find(|f| f.key == "B").unwrap().kind,
        ChangeKind::Removed
    ));
    assert!(event.diff.changed_fields.iter().all(|f| f.key != "A"));
}

#[test]
fn a_failed_read_keeps_the_previous_snapshot() {
    let mut monitor = DatabaseMonitor::new();
    monitor.start_monitoring();
    assert!(monitor.tick(Ok(snap(&[("A", "1")]))).is_none());
    assert!(monitor.tick(Err("disk hiccup".to_string())).is_none());
    // The remembered snapshot survived the failed tick: removing A is
    // still detected against it.
    let event = monitor.tick(Ok(snap(&[]))).expect("change against kept snapshot");
    assert_eq!(event.diff.changed_fields.len(), 1);
    assert_eq!(event.diff.changed_fields[0].key, "A");
}

#[test]
fn stopping_and_restarting_the_monitor_is_observable_and_idempotent() {
    let mut monitor = DatabaseMonitor::new();
    assert!(!monitor.is_running());
    monitor.start_monitoring();
    monitor.start_monitoring();
    assert!(monitor.is_running());
    monitor.stop_monitoring();
    assert!(!monitor.is_running());
}

#[test]
fn duplicate_rows_keep_the_first_value() {
    let s = snap(&[("K", "1"), ("K", "2")]);
    assert_eq!(s.len(), 1);
    let d = analyze_diff(&s, &snap(&[("K", "1")]));
    assert!(!d.has_changes);
}
