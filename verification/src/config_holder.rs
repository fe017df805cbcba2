//! The in-memory configuration state and its two mutations: updating the
//! crawler credentials and folding a sweep's watermarks back into the thread
//! list. The unverified glue guards a holder with a lock and serializes it to
//! the configuration file after every mutation.

use crate::config::Config;
use crate::config::CrawlerConfig;
use crate::config::MonitorConfig;
use crate::config::MonitoredThread;
use crate::config::NotifierConfig;
use crate::config::config_like;
use crate::config::monitor_config_like;
use std::collections::HashMap;
use vstd::prelude::*;

verus! {

broadcast use vstd::std_specs::hash::group_hash_axioms;

/// One watermark update: the thread keeps everything but its
/// `last_seen_post_number`, which the map sets when it holds the thread's id.
pub open spec fn apply_one(t: MonitoredThread, updates: Map<u64, u64>) -> MonitoredThread {
    if updates.contains_key(t.tid) {
        MonitoredThread { last_seen_post_number: updates[t.tid], ..t }
    } else {
        t
    }
}

/// A watermark map folded into a thread list: every thread the map names
/// takes its new watermark, every other thread is untouched.
pub open spec fn apply_watermarks(
    threads: Seq<MonitoredThread>,
    updates: Map<u64, u64>,
) -> Seq<MonitoredThread> {
    threads.map_values(|t: MonitoredThread| apply_one(t, updates))
}

/// Writing the same watermark map a second time changes nothing: the update
/// is idempotent.
pub proof fn lemma_apply_watermarks_idempotent(
    threads: Seq<MonitoredThread>,
    updates: Map<u64, u64>,
)
    ensures
        apply_watermarks(apply_watermarks(threads, updates), updates) == apply_watermarks(
            threads,
            updates,
        ),
{
    let once = apply_watermarks(threads, updates);
    let twice = apply_watermarks(once, updates);
    assert forall|i: int| 0 <= i < once.len() implies twice[i] == once[i] by {
        assert(once[i] == apply_one(threads[i], updates));
    }
    assert(twice =~= once);
}

/// Holds the configuration document in memory; every read and mutation goes
/// through a method, never through raw access.
pub struct ConfigHolder {
    config: Config,
}

impl View for ConfigHolder {
    type V = Config;

    closed spec fn view(&self) -> Config {
        self.config
    }
}

impl ConfigHolder {
    /// Wraps a parsed configuration document.
    pub fn new(config: Config) -> (res: Self)
        ensures
            res@ == config,
    {
        ConfigHolder { config }
    }

    /// A snapshot of the whole configuration document.
    pub fn get_all_config(&self) -> (res: Config)
        ensures
            config_like(res, self@),
    {
        self.config.clone()
    }

    /// A snapshot of the crawler transport settings.
    pub fn get_crawler_config(&self) -> (res: CrawlerConfig)
        ensures
            res == self@.crawler,
    {
        self.config.crawler.clone()
    }

    /// A snapshot of the monitor settings and the thread list.
    pub fn get_monitor_config(&self) -> (res: MonitorConfig)
        ensures
            monitor_config_like(res, self@.monitor),
    {
        self.config.monitor.clone()
    }

    /// A snapshot of the notification sink settings.
    pub fn get_notifier_config(&self) -> (res: NotifierConfig)
        ensures
            res == self@.notifier,
    {
        self.config.notifier.clone()
    }

    /// Replaces the crawler session credentials; nothing else changes.
    pub fn update_passport(&mut self, cid: String, uid: String)
        ensures
            final(self)@ == (Config {
                crawler: CrawlerConfig {
                    nga_passport_uid: uid,
                    nga_passport_cid: cid,
                    ..old(self)@.crawler
                },
                ..old(self)@
            }),
    {
        self.config.crawler.nga_passport_uid = uid;
        self.config.crawler.nga_passport_cid = cid;
    }

    /// Folds a sweep's watermarks into the thread list: every thread the map
    /// names takes its new watermark, every other thread and every other part
    /// of the configuration is untouched.
    pub fn update_post_last_seen(&mut self, tid_to_post_number: &HashMap<u64, u64>)
        ensures
            final(self)@.monitor.monitored_threads@ == apply_watermarks(
                old(self)@.monitor.monitored_threads@,
                tid_to_post_number@,
            ),
            final(self)@.monitor.fetch_posts_parallel_limit == old(
                self,
            )@.monitor.fetch_posts_parallel_limit,
            final(self)@.monitor.monitor_duration == old(self)@.monitor.monitor_duration,
            final(self)@.crawler == old(self)@.crawler,
            final(self)@.notifier == old(self)@.notifier,
            final(self)@.web == old(self)@.web,
    {
        let ghost orig = self.config.monitor.monitored_threads@;
        let ghost orig_config = self.config;
        let n = self.config.monitor.monitored_threads.len();
        let mut i: usize = 0;
        while i < n
            invariant
                i <= n,
                n == self.config.monitor.monitored_threads@.len(),
                orig.len() == n,
                forall|j: int|
                    0 <= j < i ==> self.config.monitor.monitored_threads@[j] == apply_one(
                        orig[j],
                        tid_to_post_number@,
                    ),
                forall|j: int|
                    i <= j < n ==> self.config.monitor.monitored_threads@[j] == orig[j],
                self.config.monitor.fetch_posts_parallel_limit
                    == orig_config.monitor.fetch_posts_parallel_limit,
                self.config.monitor.monitor_duration == orig_config.monitor.monitor_duration,
                self.config.crawler == orig_config.crawler,
                self.config.notifier == orig_config.notifier,
                self.config.web == orig_config.web,
            decreases n - i,
        {
            let tid = self.config.monitor.monitored_threads[i].tid;
            match tid_to_post_number.get(&tid) {
                Some(last_seen) => {
                    let last_seen = *last_seen;
                    let ghost before = self.config.monitor.monitored_threads@;
                    let mut t = self.config.monitor.monitored_threads.remove(i);
                    t.last_seen_post_number = last_seen;
                    self.config.monitor.monitored_threads.insert(i, t);
                    proof {
                        assert(self.config.monitor.monitored_threads@ =~= before.update(
                            i as int,
                            t,
                        ));
                    }
                },
                None => (),
            }
            i += 1;
        }
        proof {
            assert(self.config.monitor.monitored_threads@ =~= apply_watermarks(
                orig,
                tid_to_post_number@,
            ));
        }
    }
}

} // verus!
