//! The change monitor's decision core.
//!
//! The surrounding runtime owns the interval timer and the event channel;
//! this state machine decides, for each tick's observation, how the
//! remembered previous snapshot evolves and whether a change event must be
//! emitted. A failed snapshot read never resets the previous snapshot, so
//! a transient read error is not misreported as a wholesale deletion.

use vstd::prelude::*;

use crate::diff::{analyze_diff, spec_diff, DataDiff};
use crate::snapshot::{Snapshot, SnapshotEntry};

verus! {

/// The payload of a change notification: the new snapshot, the previous
/// one, and their diff.
pub struct ChangeEvent {
    pub new_data: Snapshot,
    pub old_data: Snapshot,
    pub diff: DataDiff,
}

impl Snapshot {
    /// An owned copy of this snapshot with the same contents.
    pub fn duplicate(&self) -> (r: Snapshot)
        ensures
            r@ == self@,
    {
        let mut entries: Vec<SnapshotEntry> = Vec::new();
        let n = self.entries.len();
        let mut i: usize = 0;
        while i < n
            invariant
                n == self@.len(),
                i <= n,
                entries@.map_values(|e: SnapshotEntry| e@) == self@.take(i as int),
            decreases n - i,
        {
            let e = &self.entries[i];
            let ghost prev = entries@;
            entries.push(
                SnapshotEntry { key: e.key.clone(), raw: e.raw.clone(), canon: e.canon.clone() },
            );
            proof {
                assert(entries@.map_values(|e: SnapshotEntry| e@) =~= prev.map_values(
                    |e: SnapshotEntry| e@,
                ).push(self@[i as int]));
                assert(self@.take(i as int + 1) =~= self@.take(i as int).push(self@[i as int]));
            }
            i = i + 1;
        }
        proof {
            assert(self@.take(n as int) =~= self@);
        }
        let r = Snapshot { entries };
        proof {
            assert(r@ =~= self@);
        }
        r
    }
}

/// The monitor: a running flag and the previous snapshot, if any.
pub struct DatabaseMonitor {
    pub running: bool,
    pub last: Option<Snapshot>,
}

impl DatabaseMonitor {
    /// Any remembered snapshot has unique keys.
    pub open spec fn wf(&self) -> bool {
        match self.last {
            Some(s) => s.wf(),
            None => true,
        }
    }

    /// A fresh monitor: stopped, with nothing observed yet.
    pub fn new() -> (r: DatabaseMonitor)
        ensures
            !r.running,
            r.last is None,
            r.wf(),
    {
        DatabaseMonitor { running: false, last: None }
    }

    /// Marks the monitor running. Starting an already-running monitor is a
    /// no-op success; the remembered snapshot is kept either way.
    pub fn start_monitoring(&mut self)
        ensures
            final(self).running,
            final(self).last == old(self).last,
    {
        self.running = true;
    }

    /// Requests a stop. The tick loop observes the cleared flag and exits;
    /// the remembered snapshot is kept.
    pub fn stop_monitoring(&mut self)
        ensures
            !final(self).running,
            final(self).last == old(self).last,
    {
        self.running = false;
    }

    /// Whether the tick loop should keep going.
    pub fn is_running(&self) -> (r: bool)
        ensures
            r == self.running,
    {
        self.running
    }

    /// Feeds one tick's observation into the monitor.
    ///
    /// On a read failure the state is left untouched and nothing is
    /// emitted. On a successful read the new snapshot becomes the
    /// remembered one, and an event is emitted exactly when a previous
    /// snapshot existed and the diff against it is non-empty.
    pub fn tick(&mut self, observation: Result<Snapshot, String>) -> (r: Option<ChangeEvent>)
        requires
            old(self).wf(),
            observation matches Ok(s) ==> s.wf(),
        ensures
            final(self).wf(),
            final(self).running == old(self).running,
            match observation {
                Err(_) => *final(self) == *old(self) && r is None,
                Ok(snap) => {
                    &&& final(self).last matches Some(held) && held@ == snap@
                    &&& match old(self).last {
                        None => r is None,
                        Some(prev) => {
                            if spec_diff(prev@, snap@).len() != 0 {
                                r matches Some(ev) && ev.old_data@ == prev@ && ev.new_data@
                                    == snap@ && ev.diff.changes() == spec_diff(prev@, snap@)
                                    && ev.diff.wf()
                            } else {
                                r is None
                            }
                        },
                    }
                },
            },
    {
        match observation {
            Err(_) => None,
            Ok(snap) => {
                let emitted = match &self.last {
                    None => None,
                    Some(prev) => {
                        let diff = analyze_diff(prev, &snap);
                        if diff.has_changes {
                            Some(
                                ChangeEvent {
                                    old_data: prev.duplicate(),
                                    new_data: snap.duplicate(),
                                    diff,
                                },
                            )
                        } else {
                            None
                        }
                    },
                };
                self.last = Some(snap);
                emitted
            },
        }
    }
}

} // verus!
