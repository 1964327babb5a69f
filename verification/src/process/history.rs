//! The history of process CPU times from which CPU usage is computed.
//!
//! Each tracked process has its last CPU time and the instant it was taken. The table
//! is cleaned up when it grows past its limit or a minute has passed since the last
//! cleanup; whether a tracked process still exists is asked of the system by the
//! caller, who hands the processes that are gone to [`CpuHistoryTracker::cleanup`].

use vstd::prelude::*;
use std::collections::HashMap;
use std::time::Instant;
use crate::utils::clock::{duration_whole_secs, instant_now, instant_since};

verus! {

/// Seconds after the last cleanup from which an update asks for another.
pub const CLEANUP_INTERVAL_SECS: u64 = 60;

/// CPU times of processes, each with the instant it was recorded.
pub struct CpuHistoryTracker {
    history: HashMap<u32, (Instant, u64)>,
    max_processes: usize,
    max_age_secs: u64,
    last_cleanup: Instant,
}

/// The keys of a map, each once.
fn tracked_keys(history: &HashMap<u32, (Instant, u64)>) -> (r: Vec<u32>)
    ensures
        r@.to_set() == history@.dom(),
        r@.no_duplicates(),
{
    let ghost all = vstd::std_specs::hash::into_iter_keys(vstd::std_specs::hash::spec_keys_iter(history));
    let mut out: Vec<u32> = Vec::new();
    for k in it: history.keys()
        invariant
            out.len() == it.index(),
            forall|i: int| 0 <= i < out.len() ==> out@[i] == *it.seq()[i],
    {
        out.push(*k);
    }
    assert(out@ =~= all);
    assert(all.to_set() == history@.dom() && all.no_duplicates());
    out
}

/// Whether `pid` is one of `pids`.
fn holds_pid(pids: &Vec<u32>, pid: u32) -> (r: bool)
    ensures
        r == pids@.contains(pid),
{
    let mut i: usize = 0;
    while i < pids.len()
        invariant
            i <= pids@.len(),
            forall|j: int| 0 <= j < i ==> pids@[j] != pid,
        decreases pids@.len() - i,
    {
        if pids[i] == pid {
            return true;
        }
        i = i + 1;
    }
    false
}

impl CpuHistoryTracker {
    /// The recorded instant and CPU time of each tracked process.
    pub closed spec fn spec_history(&self) -> Map<u32, (Instant, u64)> {
        self.history@
    }

    /// The number of processes beyond which an update asks for a cleanup.
    pub closed spec fn spec_max_processes(&self) -> usize {
        self.max_processes
    }

    /// The age in seconds beyond which a cleanup drops an entry.
    pub closed spec fn spec_max_age_secs(&self) -> u64 {
        self.max_age_secs
    }

    /// An empty history with the given limits.
    pub fn new(max_processes: usize, max_age_secs: u64) -> (r: Self)
        ensures
            r.spec_history() == Map::<u32, (Instant, u64)>::empty(),
            r.spec_max_processes() == max_processes,
            r.spec_max_age_secs() == max_age_secs,
    {
        CpuHistoryTracker {
            history: HashMap::new(),
            max_processes,
            max_age_secs,
            last_cleanup: instant_now(),
        }
    }

    /// The recorded instant and CPU time of `pid`, if it is tracked.
    pub fn get(&self, pid: u32) -> (r: Option<&(Instant, u64)>)
        ensures
            match r {
                Some(v) => self.spec_history().contains_key(pid) && *v == self.spec_history()[pid],
                None => !self.spec_history().contains_key(pid),
            },
    {
        self.history.get(&pid)
    }

    /// The tracked processes, each once.
    pub fn tracked_pids(&self) -> (r: Vec<u32>)
        ensures
            r@.to_set() == self.spec_history().dom(),
            r@.no_duplicates(),
    {
        tracked_keys(&self.history)
    }

    /// Records `cpu_time` for `pid` at the current instant, replacing what was recorded
    /// for it. Returns whether a cleanup is due: when more processes are tracked than
    /// the limit allows, or when more than a minute has passed since the last cleanup.
    pub fn update(&mut self, pid: u32, cpu_time: u64) -> (cleanup_due: bool)
        ensures
            exists|t: Instant| final(self).spec_history() == old(self).spec_history().insert(pid, (t, cpu_time)),
            final(self).spec_max_processes() == old(self).spec_max_processes(),
            final(self).spec_max_age_secs() == old(self).spec_max_age_secs(),
            final(self).spec_history().len() > final(self).spec_max_processes() ==> cleanup_due,
    {
        let now = instant_now();
        self.history.insert(pid, (now, cpu_time));
        assert(self.spec_history() == old(self).spec_history().insert(pid, (now, cpu_time)));
        if self.history.len() > self.max_processes {
            return true;
        }
        let since = instant_since(&now, &self.last_cleanup);
        duration_whole_secs(&since) > CLEANUP_INTERVAL_SECS
    }

    /// Drops the entries of the processes in `gone`, and those recorded more than the
    /// maximum age ago; the other entries stay as they are.
    pub fn cleanup(&mut self, gone: &Vec<u32>)
        ensures
            final(self).spec_max_processes() == old(self).spec_max_processes(),
            final(self).spec_max_age_secs() == old(self).spec_max_age_secs(),
            forall|pid: u32| #[trigger]
                final(self).spec_history().contains_key(pid) ==> old(self).spec_history().contains_key(pid)
                    && final(self).spec_history()[pid] == old(self).spec_history()[pid]
                    && !gone@.contains(pid),
    {
        let now = instant_now();
        self.last_cleanup = now;
        let pids = tracked_keys(&self.history);
        let ghost start = self.history@;
        let mut i: usize = 0;
        while i < pids.len()
            invariant
                i <= pids@.len(),
                pids@.to_set() == start.dom(),
                pids@.no_duplicates(),
                self.max_processes == old(self).max_processes,
                self.max_age_secs == old(self).max_age_secs,
                start == old(self).history@,
                forall|pid: u32| #[trigger]
                    self.history@.contains_key(pid) ==> start.contains_key(pid) && self.history@[pid]
                        == start[pid],
                forall|j: int| #![trigger pids@[j]]
                    0 <= j < i ==> !(self.history@.contains_key(pids@[j]) && gone@.contains(pids@[j])),
            decreases pids@.len() - i,
        {
            let pid = pids[i];
            if holds_pid(gone, pid) {
                self.history.remove(&pid);
            } else {
                let stale = match self.history.get(&pid) {
                    Some(entry) => {
                        let age = instant_since(&now, &entry.0);
                        duration_whole_secs(&age) > self.max_age_secs
                    },
                    None => false,
                };
                if stale {
                    self.history.remove(&pid);
                }
            }
            i = i + 1;
        }
        proof {
            assert forall|pid: u32| #[trigger]
                self.history@.contains_key(pid) implies !gone@.contains(pid) by {
                assert(start.dom().contains(pid));
                assert(pids@.to_set().contains(pid));
                let j = pids@.index_of(pid);
                assert(pids@[j] == pid);
            }
        }
    }
}

} // verus!
