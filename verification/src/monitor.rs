//! The monitor's per-thread scheduling state: when each thread was last
//! checked, and whether it is due now. The tick loop itself — timers, fetches,
//! persistence — is unverified glue that consults this state, runs a sweep
//! per due thread, and marks the thread checked whether the sweep succeeded
//! or failed.

use crate::config::MonitoredThread;
use crate::schedule::Weekday;
use crate::schedule::is_due;
use crate::schedule::is_due_spec;
use std::collections::HashMap;
use vstd::prelude::*;

verus! {

broadcast use vstd::std_specs::hash::group_hash_axioms;

/// Owns the in-memory table of when each thread was last checked. The table
/// is never persisted: after a restart every thread counts as never checked,
/// and so as due.
pub struct NGAMonitor {
    last_check_map: HashMap<u64, u64>,
}

impl View for NGAMonitor {
    type V = Map<u64, u64>;

    closed spec fn view(&self) -> Map<u64, u64> {
        self.last_check_map@
    }
}

impl NGAMonitor {
    /// A fresh monitor: no thread was checked yet.
    pub fn new() -> (res: Self)
        ensures
            res@ == Map::<u64, u64>::empty(),
    {
        NGAMonitor { last_check_map: HashMap::new() }
    }

    /// When the thread was last checked, if ever.
    pub fn last_checked(&self, tid: u64) -> (res: Option<u64>)
        ensures
            res == if self@.contains_key(tid) {
                Some(self@[tid])
            } else {
                None::<u64>
            },
    {
        match self.last_check_map.get(&tid) {
            Some(ts) => Some(*ts),
            None => None,
        }
    }

    /// Whether a thread is to be checked this tick: it must be enabled, and
    /// due per its schedule at the given instant. A thread never checked is
    /// always due.
    pub fn should_check(
        &self,
        thread: &MonitoredThread,
        now_ts: u64,
        now_weekday: Weekday,
        now_time: &str,
    ) -> (res: bool)
        ensures
            res == (thread.enabled && is_due_spec(
                *thread,
                if self@.contains_key(thread.tid) {
                    Some(self@[thread.tid])
                } else {
                    None::<u64>
                },
                now_ts,
                now_weekday,
                now_time@,
            )),
    {
        if !thread.enabled {
            return false;
        }
        let last_checked = self.last_checked(thread.tid);
        is_due(thread, last_checked, now_ts, now_weekday, now_time)
    }

    /// Records that a thread's check was attempted now, whether it succeeded
    /// or failed; a persistently failing thread is still not retried faster
    /// than its interval.
    pub fn mark_checked(&mut self, tid: u64, now_ts: u64)
        ensures
            final(self)@ == old(self)@.insert(tid, now_ts),
    {
        self.last_check_map.insert(tid, now_ts);
    }
}

} // verus!
