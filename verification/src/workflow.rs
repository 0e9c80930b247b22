//! The lifecycle orchestrator's two workflows, as explicit state machines.
//!
//! Each workflow is a fixed sequence of steps; the runner performs each
//! step's outside action (terminate, sleep, file and store access, launch)
//! and feeds the outcome back in. Every decision — which failures are
//! tolerated as soft outcomes, which abort the workflow, and how the final
//! message is assembled — is made here, under contract. Step order is
//! enforced by the phase each transition requires.

use vstd::prelude::*;

use crate::backup::{backup_file_name, extract_string_member, json_str_member};
use crate::process::TerminateOutcome;
use crate::text::spec_dec_digits;

verus! {

/// The note a terminate step leaves in the final message: the sweep's own
/// summary, or the soft "was not running" note for the not-found outcome.
pub open spec fn spec_kill_note(outcome: &TerminateOutcome) -> Seq<char> {
    match outcome {
        TerminateOutcome::Terminated(m) => m@,
        TerminateOutcome::NotFound => "host process was not running"@,
    }
}

fn kill_note_of(outcome: &TerminateOutcome) -> (r: String)
    ensures
        r@ == spec_kill_note(outcome),
{
    match outcome {
        TerminateOutcome::Terminated(m) => m.clone(),
        TerminateOutcome::NotFound => "host process was not running".to_owned(),
    }
}

/// The hard error of a switch whose backup record is missing, naming it.
pub open spec fn spec_missing_backup_message(account: Seq<char>) -> Seq<char> {
    "no backup record found for "@ + account
}

/// The milliseconds the switch workflow waits after terminating and after
/// restoring, so the store's file locks settle.
pub fn switch_step_delay_ms() -> (r: u64)
    ensures
        r == 1000,
{
    1000
}

#[derive(Clone, Copy, Debug, PartialEq, Eq, Structural)]
pub enum SwitchPhase {
    AwaitTerminate,
    AwaitRestore,
    AwaitLaunch,
    Finished,
}

/// What a restore step reported back: the backup record was missing (a
/// hard failure), the store work failed (hard), or it succeeded.
pub enum RestoreOutcome {
    BackupMissing,
    Failed(String),
    Restored(String),
}

/// The switch workflow: terminate, wait, restore the named backup, wait,
/// relaunch. Only a restore failure is hard; everything else is folded
/// into the success message.
pub struct SwitchWorkflow {
    pub phase: SwitchPhase,
    pub account: String,
    pub kill_note: String,
    pub restore_note: String,
}

impl SwitchWorkflow {
    /// Begins a switch to the given account; the first step is to
    /// terminate the host process.
    pub fn start(account: String) -> (w: SwitchWorkflow)
        ensures
            w.phase == SwitchPhase::AwaitTerminate,
            w.account@ == account@,
    {
        SwitchWorkflow {
            phase: SwitchPhase::AwaitTerminate,
            account,
            kill_note: String::new(),
            restore_note: String::new(),
        }
    }

    /// Step 1 done: any terminate outcome is soft. The next step is to
    /// read the backup record under the returned file name (after the
    /// fixed delay).
    pub fn on_terminate(&mut self, outcome: &TerminateOutcome) -> (backup_file: String)
        requires
            old(self).phase == SwitchPhase::AwaitTerminate,
        ensures
            final(self).phase == SwitchPhase::AwaitRestore,
            final(self).account == old(self).account,
            final(self).kill_note@ == spec_kill_note(outcome),
            backup_file@ == old(self).account@ + ".json"@,
    {
        self.kill_note = kill_note_of(outcome);
        self.phase = SwitchPhase::AwaitRestore;
        backup_file_name(self.account.as_str())
    }

    /// Step 3 done: a missing backup record or a failed restore aborts the
    /// workflow with a hard error — the process was already terminated in
    /// step 1 and stays terminated. A successful restore moves on to the
    /// relaunch.
    pub fn on_restore(&mut self, outcome: RestoreOutcome) -> (r: Option<String>)
        requires
            old(self).phase == SwitchPhase::AwaitRestore,
        ensures
            final(self).account == old(self).account,
            final(self).kill_note == old(self).kill_note,
            match outcome {
                RestoreOutcome::BackupMissing => {
                    &&& final(self).phase == SwitchPhase::Finished
                    &&& r matches Some(e) && e@ == spec_missing_backup_message(old(self).account@)
                },
                RestoreOutcome::Failed(e) => {
                    &&& final(self).phase == SwitchPhase::Finished
                    &&& r matches Some(msg) && msg@ == e@
                },
                RestoreOutcome::Restored(m) => {
                    &&& final(self).phase == SwitchPhase::AwaitLaunch
                    &&& final(self).restore_note@ == m@
                    &&& r is None
                },
            },
    {
        match outcome {
            RestoreOutcome::BackupMissing => {
                self.phase = SwitchPhase::Finished;
                let mut e = "no backup record found for ".to_owned();
                e.append(self.account.as_str());
                Some(e)
            },
            RestoreOutcome::Failed(e) => {
                self.phase = SwitchPhase::Finished;
                Some(e)
            },
            RestoreOutcome::Restored(m) => {
                self.restore_note = m;
                self.phase = SwitchPhase::AwaitLaunch;
                None
            },
        }
    }

    /// Step 5 done: a launch failure is soft. The workflow finishes with
    /// the concatenated step notes.
    pub fn on_launch(&mut self, outcome: &Result<String, String>) -> (r: String)
        requires
            old(self).phase == SwitchPhase::AwaitLaunch,
        ensures
            final(self).phase == SwitchPhase::Finished,
            r@ == old(self).kill_note@ + " -> "@ + old(self).restore_note@ + " -> "@
                + spec_launch_note(outcome),
    {
        self.phase = SwitchPhase::Finished;
        let mut msg = self.kill_note.clone();
        msg.append(" -> ");
        msg.append(self.restore_note.as_str());
        msg.append(" -> ");
        let note = launch_note_of(outcome);
        msg.append(note.as_str());
        msg
    }
}

/// The note a launch step leaves: its own message, or the soft failure
/// note carrying the aggregated error.
pub open spec fn spec_launch_note(outcome: &Result<String, String>) -> Seq<char> {
    match outcome {
        Ok(m) => m@,
        Err(e) => "launch failed: "@ + e@,
    }
}

fn launch_note_of(outcome: &Result<String, String>) -> (r: String)
    ensures
        r@ == spec_launch_note(outcome),
{
    match outcome {
        Ok(m) => m.clone(),
        Err(e) => {
            let mut n = "launch failed: ".to_owned();
            n.append(e.as_str());
            n
        },
    }
}

/// The milliseconds the reset workflow waits after terminating.
pub fn reset_delay_after_terminate_ms() -> (r: u64)
    ensures
        r == 500,
{
    500
}

/// The milliseconds the reset workflow waits after clearing the store.
pub fn reset_delay_after_clear_ms() -> (r: u64)
    ensures
        r == 300,
{
    300
}

#[derive(Clone, Copy, Debug, PartialEq, Eq, Structural)]
pub enum ResetPhase {
    AwaitTerminate,
    AwaitAuth,
    AwaitBackup,
    AwaitClear,
    AwaitLaunch,
    Finished,
}

/// The reset-and-relaunch workflow: terminate, read the current auth info
/// and back the account up when one is logged in (best effort), clear the
/// whole store, relaunch. Every step is soft: the workflow always runs to
/// completion and reports what each step did.
pub struct ResetWorkflow {
    pub phase: ResetPhase,
    pub kill_note: String,
    pub backup_note: String,
    pub clear_note: String,
}

/// The note the backup step leaves when no account identifier was found.
pub open spec fn spec_backup_skipped_note() -> Seq<char> {
    "no logged-in user detected, backup skipped"@
}

impl ResetWorkflow {
    /// Begins a reset; the first step is to terminate the host process.
    pub fn start() -> (w: ResetWorkflow)
        ensures
            w.phase == ResetPhase::AwaitTerminate,
    {
        ResetWorkflow {
            phase: ResetPhase::AwaitTerminate,
            kill_note: String::new(),
            backup_note: String::new(),
            clear_note: String::new(),
        }
    }

    /// Step 1 done: any terminate outcome is soft. The next step reads the
    /// auth status value out of the store (after the fixed delay).
    pub fn on_terminate(&mut self, outcome: &TerminateOutcome)
        requires
            old(self).phase == ResetPhase::AwaitTerminate,
        ensures
            final(self).phase == ResetPhase::AwaitAuth,
            final(self).kill_note@ == spec_kill_note(outcome),
    {
        self.kill_note = kill_note_of(outcome);
        self.phase = ResetPhase::AwaitAuth;
    }

    /// Step 2, first half: extracts the account identifier from the auth
    /// status value, when the store held one and it carries an identifier.
    ///
    /// With an identifier the next step is the backup; without one the
    /// backup is skipped — the message will say so — and the workflow
    /// proceeds straight to clearing the store.
    pub fn on_auth_status(&mut self, auth_value: Option<&String>) -> (r: Option<String>)
        requires
            old(self).phase == ResetPhase::AwaitAuth,
        ensures
            final(self).kill_note == old(self).kill_note,
            match auth_value {
                Some(v) => match r {
                    Some(email) => json_str_member(v@, "email"@) == Some(email@) && final(
                        self).phase == ResetPhase::AwaitBackup,
                    None => json_str_member(v@, "email"@) is None && final(self).phase
                        == ResetPhase::AwaitClear && final(self).backup_note@
                        == spec_backup_skipped_note(),
                },
                None => r is None && final(self).phase == ResetPhase::AwaitClear && final(
                    self).backup_note@ == spec_backup_skipped_note(),
            },
    {
        let email = match auth_value {
            Some(v) => extract_string_member(v.as_str(), "email"),
            None => None,
        };
        match email {
            Some(e) => {
                self.phase = ResetPhase::AwaitBackup;
                Some(e)
            },
            None => {
                self.backup_note = "no logged-in user detected, backup skipped".to_owned();
                self.phase = ResetPhase::AwaitClear;
                None
            },
        }
    }

    /// Step 2, second half: folds the backup attempt's outcome in. Any
    /// failure is soft — the reset proceeds without a backup.
    pub fn on_backup(&mut self, outcome: &Result<(String, bool), String>)
        requires
            old(self).phase == ResetPhase::AwaitBackup,
        ensures
            final(self).phase == ResetPhase::AwaitClear,
            final(self).kill_note == old(self).kill_note,
            final(self).backup_note@ == spec_backup_note(outcome),
    {
        self.backup_note = backup_note_of(outcome);
        self.phase = ResetPhase::AwaitClear;
    }

    /// Step 3 done: a failed clear is soft — the store may simply have
    /// been empty already.
    pub fn on_clear(&mut self, outcome: &Result<usize, String>)
        requires
            old(self).phase == ResetPhase::AwaitClear,
        ensures
            final(self).phase == ResetPhase::AwaitLaunch,
            final(self).kill_note == old(self).kill_note,
            final(self).backup_note == old(self).backup_note,
            final(self).clear_note@ == spec_clear_note(outcome),
    {
        self.clear_note = clear_note_of(outcome);
        self.phase = ResetPhase::AwaitLaunch;
    }

    /// Step 4 done: a launch failure is soft. The workflow finishes with
    /// the concatenated step notes.
    pub fn on_launch(&mut self, outcome: &Result<String, String>) -> (r: String)
        requires
            old(self).phase == ResetPhase::AwaitLaunch,
        ensures
            final(self).phase == ResetPhase::Finished,
            r@ == old(self).kill_note@ + " -> "@ + old(self).backup_note@ + " -> "@ + old(
                self).clear_note@ + " -> "@ + spec_launch_note(outcome),
    {
        self.phase = ResetPhase::Finished;
        let mut msg = self.kill_note.clone();
        msg.append(" -> ");
        msg.append(self.backup_note.as_str());
        msg.append(" -> ");
        msg.append(self.clear_note.as_str());
        msg.append(" -> ");
        let note = launch_note_of(outcome);
        msg.append(note.as_str());
        msg
    }
}

/// The note the backup step leaves: whether an existing record was
/// overwritten or a new one created, or the soft failure note.
pub open spec fn spec_backup_note(outcome: &Result<(String, bool), String>) -> Seq<char> {
    match outcome {
        Ok((name, overwrote)) => (if *overwrote {
            "updated backup: "@
        } else {
            "created backup: "@
        }) + name@,
        Err(e) => "backup failed: "@ + e@,
    }
}

fn backup_note_of(outcome: &Result<(String, bool), String>) -> (r: String)
    ensures
        r@ == spec_backup_note(outcome),
{
    match outcome {
        Ok((name, overwrote)) => {
            let mut n = if *overwrote {
                "updated backup: ".to_owned()
            } else {
                "created backup: ".to_owned()
            };
            n.append(name.as_str());
            n
        },
        Err(e) => {
            let mut n = "backup failed: ".to_owned();
            n.append(e.as_str());
            n
        },
    }
}

/// The note the clear step leaves, counting removed rows on success.
pub open spec fn spec_clear_note(outcome: &Result<usize, String>) -> Seq<char> {
    match outcome {
        Ok(n) => "cleared account data ("@ + spec_dec_digits(*n as nat) + " rows)"@,
        Err(e) => "clear failed (store may already be empty): "@ + e@,
    }
}

fn clear_note_of(outcome: &Result<usize, String>) -> (r: String)
    ensures
        r@ == spec_clear_note(outcome),
{
    match outcome {
        Ok(n) => {
            let mut s = "cleared account data (".to_owned();
            let num = crate::text::u64_to_string(*n as u64);
            s.append(num.as_str());
            s.append(" rows)");
            s
        },
        Err(e) => {
            let mut s = "clear failed (store may already be empty): ".to_owned();
            s.append(e.as_str());
            s
        },
    }
}

} // verus!
