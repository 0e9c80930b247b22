//! The process controller.
//!
//! Running processes are re-enumerated on every call — a process handle
//! is never cached across calls — and matched by the host application's
//! exact name. Termination reports a distinguishable not-found outcome
//! when nothing matches; that is an expected state, not an error.

use vstd::prelude::*;

use crate::keys::{host_process_name, spec_host_process_name};
use crate::text::{spec_dec_digits, u64_to_string};

verus! {

/// An ephemeral view of one running process, valid only for the call that
/// produced it.
pub struct ProcessInfo {
    pub pid: u32,
    pub name: String,
}

impl View for ProcessInfo {
    type V = (u32, Seq<char>);

    open spec fn view(&self) -> (u32, Seq<char>) {
        (self.pid, self.name@)
    }
}

/// Relies on sysinfo::System::new_all and System::processes: lists the
/// processes running at this moment, with their ids and names. Nothing is
/// assumed of the outcome; the list is stale as soon as it is returned.
#[verifier::external_body]
pub(crate) fn enumerate_processes() -> (r: Vec<ProcessInfo>) {
    let system = sysinfo::System::new_all();
    let mut out = Vec::new();
    for (pid, process) in system.processes() {
        out.push(
            ProcessInfo { pid: pid.as_u32(), name: process.name().to_string_lossy().to_string() },
        );
    }
    out
}

/// Relies on sysinfo::Process::kill: sends the kill signal to the process
/// with this id, reporting whether the signal could be sent.
#[verifier::external_body]
pub(crate) fn kill_process(pid: u32) -> (r: bool) {
    let system = sysinfo::System::new_all();
    match system.process(sysinfo::Pid::from_u32(pid)) {
        Some(p) => p.kill(),
        None => false,
    }
}

/// The ids of the processes whose name is exactly `name`, in list order.
pub open spec fn spec_matching_pids(procs: Seq<(u32, Seq<char>)>, name: Seq<char>) -> Seq<u32>
    decreases procs.len(),
{
    if procs.len() == 0 {
        Seq::empty()
    } else {
        spec_matching_pids(procs.drop_last(), name) + (if procs.last().1 == name {
            seq![procs.last().0]
        } else {
            Seq::empty()
        })
    }
}

/// Selects the processes matching `name` exactly.
pub fn select_matching_pids(procs: &Vec<ProcessInfo>, name: &str) -> (r: Vec<u32>)
    ensures
        r@ == spec_matching_pids(procs@.map_values(|p: ProcessInfo| p@), name@),
{
    let name_owned = name.to_owned();
    let mut out: Vec<u32> = Vec::new();
    let n = procs.len();
    let mut i: usize = 0;
    while i < n
        invariant
            name_owned@ == name@,
            n == procs@.len(),
            i <= n,
            out@ == spec_matching_pids(
                procs@.map_values(|p: ProcessInfo| p@).take(i as int),
                name@,
            ),
        decreases n - i,
    {
        let ghost pv = procs@.map_values(|p: ProcessInfo| p@);
        if procs[i].name == name_owned {
            out.push(procs[i].pid);
        }
        proof {
            assert(pv.take(i as int + 1).drop_last() =~= pv.take(i as int));
            assert(pv.take(i as int + 1).last() == pv[i as int]);
        }
        i = i + 1;
    }
    proof {
        assert(procs@.map_values(|p: ProcessInfo| p@).take(n as int) =~= procs@.map_values(
            |p: ProcessInfo| p@,
        ));
    }
    out
}

/// Whether some process in the list carries exactly this name.
pub fn any_process_named(procs: &Vec<ProcessInfo>, name: &str) -> (r: bool)
    ensures
        r == exists|i: int| 0 <= i < procs@.len() && procs@[i]@.1 == name@,
{
    let name_owned = name.to_owned();
    let n = procs.len();
    let mut i: usize = 0;
    while i < n
        invariant
            name_owned@ == name@,
            n == procs@.len(),
            i <= n,
            forall|j: int| 0 <= j < i ==> procs@[j]@.1 != name@,
        decreases n - i,
    {
        if procs[i].name == name_owned {
            return true;
        }
        i = i + 1;
    }
    false
}

/// The outcome of a termination sweep: either the ids that were killed,
/// summarised, or the distinguishable "nothing matched" state.
pub enum TerminateOutcome {
    Terminated(String),
    NotFound,
}

/// The comma-separated decimal list of process ids.
pub open spec fn spec_pid_list(pids: Seq<u32>) -> Seq<char>
    decreases pids.len(),
{
    if pids.len() == 0 {
        Seq::empty()
    } else if pids.len() == 1 {
        spec_dec_digits(pids.last() as nat)
    } else {
        spec_pid_list(pids.drop_last()) + ", "@ + spec_dec_digits(pids.last() as nat)
    }
}

/// The summary for a successful termination sweep.
pub open spec fn spec_terminate_message(killed: Seq<u32>) -> Seq<char> {
    "Terminated host process ids: "@ + spec_pid_list(killed)
}

/// Folds a sweep's findings into its outcome: the not-found state exactly
/// when no process matched, else a summary listing the killed ids.
pub fn terminate_outcome(targets: &Vec<u32>, killed: &Vec<u32>) -> (r: TerminateOutcome)
    ensures
        (targets@.len() == 0) <==> (r is NotFound),
        r matches TerminateOutcome::Terminated(m) ==> m@ == spec_terminate_message(killed@),
{
    if targets.len() == 0 {
        TerminateOutcome::NotFound
    } else {
        let mut msg = "Terminated host process ids: ".to_owned();
        let n = killed.len();
        let mut i: usize = 0;
        while i < n
            invariant
                n == killed@.len(),
                i <= n,
                msg@ == "Terminated host process ids: "@ + spec_pid_list(killed@.take(i as int)),
            decreases n - i,
        {
            if i > 0 {
                msg.append(", ");
            }
            let num = u64_to_string(killed[i] as u64);
            msg.append(num.as_str());
            proof {
                assert(killed@.take(i as int + 1).drop_last() =~= killed@.take(i as int));
                assert(killed@.take(i as int + 1).last() == killed@[i as int]);
            }
            i = i + 1;
        }
        proof {
            assert(killed@.take(n as int) =~= killed@);
        }
        TerminateOutcome::Terminated(msg)
    }
}

/// Law: when no running process carries the host application's name, the
/// termination sweep selects nothing, so its outcome is the not-found
/// state — never an error of another class.
pub proof fn lemma_terminate_not_found(procs: Seq<(u32, Seq<char>)>)
    requires
        forall|i: int| 0 <= i < procs.len() ==> procs[i].1 != spec_host_process_name(),
    ensures
        spec_matching_pids(procs, spec_host_process_name()).len() == 0,
    decreases procs.len(),
{
    if procs.len() > 0 {
        let pre = procs.drop_last();
        assert(forall|i: int| 0 <= i < pre.len() ==> pre[i] == procs[i]);
        lemma_terminate_not_found(pre);
    }
}

/// Terminates every process whose name is exactly the host application's.
///
/// Re-enumerates the processes, kills each match, and reports either the
/// killed ids or the not-found outcome when nothing matched. Whatever the
/// enumeration held, a reported summary is the termination message for
/// some list of killed ids.
pub fn kill_antigravity_processes() -> (r: TerminateOutcome)
    ensures
        r matches TerminateOutcome::Terminated(m) ==> exists|killed: Seq<u32>|
            m@ == #[trigger] spec_terminate_message(killed),
{
    let procs = enumerate_processes();
    let targets = select_matching_pids(&procs, host_process_name());
    let mut killed: Vec<u32> = Vec::new();
    let n = targets.len();
    let mut i: usize = 0;
    while i < n
        invariant
            n == targets@.len(),
            i <= n,
        decreases n - i,
    {
        if kill_process(targets[i]) {
            killed.push(targets[i]);
        }
        i = i + 1;
    }
    let out = terminate_outcome(&targets, &killed);
    proof {
        if out is Terminated {
            assert(exists|k: Seq<u32>| out->Terminated_0@ == #[trigger] spec_terminate_message(
                k,
            )) by {
                assert(out->Terminated_0@ == spec_terminate_message(killed@));
            }
        }
    }
    out
}

/// Whether the host application is running right now, by a fresh
/// enumeration and an exact name match.
pub fn is_antigravity_running() -> (r: bool) {
    let procs = enumerate_processes();
    any_process_named(&procs, host_process_name())
}

} // verus!
