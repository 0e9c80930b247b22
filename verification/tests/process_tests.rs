//! Process selection and the termination outcome.

use antigravity_agent::process::{
    any_process_named, select_matching_pids, terminate_outcome, ProcessInfo, TerminateOutcome,
};

fn procs(list: &[(u32, &str)]) -> Vec<ProcessInfo> {
    list.iter()
        .map(|(pid, name)| ProcessInfo { pid: *pid, name: name.to_string() })
        .collect()
}

#[test]
fn matching_is_by_exact_name() {
    let ps = procs(&[
        (1, "antigravity"),
        (2, "Antigravity"),
        (3, "Antigravity Helper"),
        (4, "Antigravity"),
    ]);
    let pids = select_matching_pids(&ps, "Antigravity");
    assert_eq!(pids, vec![2, 4]);
    assert!(any_process_named(&ps, "Antigravity"));
    assert!(!any_process_named(&ps, "Gravity"));
}

#[test]
fn no_match_yields_the_not_found_outcome() {
    let ps = procs(&[(1, "systemd"), (2, "bash")]);
    let targets = select_matching_pids(&ps, "Antigravity");
    assert!(targets.is_empty());
    let outcome = terminate_outcome(&targets, &Vec::new());
    assert!(
        matches!(outcome, TerminateOutcome::NotFound),
        "zero matches is the not-found outcome, never another error"
    );
}

#[test]
fn a_successful_sweep_lists_the_killed_ids() {
    let targets = vec![10, 20, 30];
    let killed = vec![10, 30];
    match terminate_outcome(&targets, &killed) {
        TerminateOutcome::Terminated(msg) => {
            assert_eq!(msg, "Terminated host process ids: 10, 30");
        }
        TerminateOutcome::NotFound => panic!("matches existed"),
    }
}

#[test]
fn a_single_killed_id_has_no_separator() {
    match terminate_outcome(&vec![7], &vec![7]) {
        TerminateOutcome::Terminated(msg) => {
            assert_eq!(msg, "Terminated host process ids: 7");
        }
        TerminateOutcome::NotFound => panic!("a match existed"),
    }
}
