//! The two orchestrator workflows, driven step by step.

use antigravity_agent::process::TerminateOutcome;
use antigravity_agent::workflow::{
    reset_delay_after_clear_ms, reset_delay_after_terminate_ms, ResetWorkflow, RestoreOutcome,
    SwitchWorkflow, switch_step_delay_ms,
};

#[test]
fn switch_with_missing_backup_fails_hard_after_terminating() {
    let mut w = SwitchWorkflow::start("ghost@nowhere".to_string());
    // Step 1 always executes first: the transition that can report the
    // missing backup is reachable only after the terminate outcome is in.
    let backup_file = w.on_terminate(&TerminateOutcome::NotFound);
    assert_eq!(backup_file, "ghost@nowhere.json");
    let hard = w.on_restore(RestoreOutcome::BackupMissing);
    let err = hard.expect("a missing backup record is a hard failure");
    assert_eq!(err, "no backup record found for ghost@nowhere");
    assert!(err.contains("ghost@nowhere"), "the failure names the missing backup");
}

#[test]
fn switch_success_concatenates_each_steps_outcome() {
    let mut w = SwitchWorkflow::start("alice@corp".to_string());
    let backup_file = w.on_terminate(&TerminateOutcome::Terminated(
        "Terminated host process ids: 41".to_string(),
    ));
    assert_eq!(backup_file, "alice@corp.json");
    let hard = w.on_restore(RestoreOutcome::Restored(
        "Restored 1 entries, auth status cleared".to_string(),
    ));
    assert!(hard.is_none());
    let msg = w.on_launch(&Ok("started /usr/bin/antigravity".to_string()));
    assert_eq!(
        msg,
        "Terminated host process ids: 41 -> Restored 1 entries, auth status cleared -> \
         started /usr/bin/antigravity"
    );
}

#[test]
fn switch_folds_a_launch_failure_into_the_success_message() {
    let mut w = SwitchWorkflow::start("bob@corp".to_string());
    w.on_terminate(&TerminateOutcome::NotFound);
    assert!(w.on_restore(RestoreOutcome::Restored("restored".to_string())).is_none());
    let msg = w.on_launch(&Err("no executable found".to_string()));
    assert_eq!(
        msg,
        "host process was not running -> restored -> launch failed: no executable found"
    );
}

#[test]
fn switch_aborts_on_a_failed_restore() {
    let mut w = SwitchWorkflow::start("carol@corp".to_string());
    w.on_terminate(&TerminateOutcome::NotFound);
    let hard = w.on_restore(RestoreOutcome::Failed("store is locked".to_string()));
    assert_eq!(hard.unwrap(), "store is locked");
}

#[test]
fn reset_without_auth_info_skips_the_backup_and_still_clears() {
    let mut w = ResetWorkflow::start();
    w.on_terminate(&TerminateOutcome::NotFound);
    // No auth row in the store: no identifier, so no backup step.
    let email = w.on_auth_status(None);
    assert!(email.is_none());
    // The machine is now waiting for the clear outcome: the clear step
    // still executes.
    w.on_clear(&Ok(3));
    let msg = w.on_launch(&Ok("started".to_string()));
    assert_eq!(
        msg,
        "host process was not running -> no logged-in user detected, backup skipped -> \
         cleared account data (3 rows) -> started"
    );
    assert!(msg.contains("backup skipped"), "the message states no backup was taken");
}

#[test]
fn reset_with_auth_info_lacking_an_identifier_also_skips_the_backup() {
    let mut w = ResetWorkflow::start();
    w.on_terminate(&TerminateOutcome::NotFound);
    let auth = "{\"plan\":\"free\"}".to_string();
    let email = w.on_auth_status(Some(&auth));
    assert!(email.is_none());
    w.on_clear(&Ok(0));
    let msg = w.on_launch(&Err("nothing to launch".to_string()));
    assert!(msg.contains("no logged-in user detected, backup skipped"));
    assert!(msg.contains("launch failed: nothing to launch"));
}

#[test]
fn reset_with_a_logged_in_user_backs_up_under_the_extracted_identifier() {
    let mut w = ResetWorkflow::start();
    w.on_terminate(&TerminateOutcome::Terminated("Terminated host process ids: 7".to_string()));
    let auth = "{\"email\":\"found@user\",\"plan\":\"pro\"}".to_string();
    let email = w.on_auth_status(Some(&auth));
    assert_eq!(email.unwrap(), "found@user");
    w.on_backup(&Ok(("found@user".to_string(), true)));
    w.on_clear(&Ok(2));
    let msg = w.on_launch(&Ok("started".to_string()));
    assert_eq!(
        msg,
        "Terminated host process ids: 7 -> updated backup: found@user -> \
         cleared account data (2 rows) -> started"
    );
}

#[test]
fn reset_treats_a_failed_backup_as_soft() {
    let mut w = ResetWorkflow::start();
    w.on_terminate(&TerminateOutcome::NotFound);
    let auth = "{\"email\":\"x@y\"}".to_string();
    assert!(w.on_auth_status(Some(&auth)).is_some());
    w.on_backup(&Err("disk full".to_string()));
    w.on_clear(&Err("store gone".to_string()));
    let msg = w.on_launch(&Ok("started".to_string()));
    assert_eq!(
        msg,
        "host process was not running -> backup failed: disk full -> \
         clear failed (store may already be empty): store gone -> started"
    );
}

#[test]
fn the_fixed_delays_are_short() {
    assert_eq!(switch_step_delay_ms(), 1000);
    assert_eq!(reset_delay_after_terminate_ms(), 500);
    assert_eq!(reset_delay_after_clear_ms(), 300);
}
