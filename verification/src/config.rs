//! Configuration model: the document the operator edits, as plain data.
//!
//! These types carry no behaviour beyond cloning; the unverified glue parses
//! the configuration file into them and serializes them back out.
//!
//! A clone of a value holding a `Vec` cannot be claimed equal to the original
//! as a value, so the clone contracts here speak through the `..._like`
//! predicates: equal field for field, with lists compared element-wise.

use vstd::prelude::*;

verus! {

/// The whole configuration document.
#[derive(Debug, PartialEq)]
pub struct Config {
    pub monitor: MonitorConfig,
    pub crawler: CrawlerConfig,
    pub notifier: NotifierConfig,
    pub web: WebConfig,
}

/// Address the administrative HTTP endpoint binds to.
#[derive(Debug, PartialEq)]
pub struct WebConfig {
    pub host: String,
    pub port: u16,
}

/// Settings of the monitor loop itself.
#[derive(Debug, PartialEq)]
pub struct MonitorConfig {
    /// Cap on concurrently outstanding page fetches within one thread check.
    pub fetch_posts_parallel_limit: u32,
    /// Tick period of the monitor loop, in seconds.
    pub monitor_duration: u64,
    pub monitored_threads: Vec<MonitoredThread>,
}

/// Transport settings for the page fetcher.
#[derive(Debug, PartialEq)]
pub struct CrawlerConfig {
    pub api_url: String,
    pub nga_passport_uid: String,
    pub nga_passport_cid: String,
    pub user_agent: String,
    pub timeout: u64,
}

/// Configuration of one watched thread.
#[derive(Debug, PartialEq)]
pub struct MonitoredThread {
    /// Forum thread id.
    pub tid: u64,
    /// Author ids whose posts trigger alerts.
    pub author_notification: Vec<u64>,
    /// Seconds between checks when no schedule rule matches; 0 means the
    /// global default.
    pub check_interval: u64,
    /// Ordered override rules; the first matching rule wins.
    pub check_schedule: Option<Vec<CheckSchedule>>,
    /// A disabled thread is skipped entirely.
    pub enabled: bool,
    /// Watermark: the highest post number already seen and persisted.
    pub last_seen_post_number: u64,
}

/// One schedule override rule: on the given days, between the given clock
/// times, check at the given interval.
#[derive(Debug, PartialEq)]
pub struct CheckSchedule {
    /// Day tokens: weekday names, or the aliases "weekdays"/"weekends",
    /// case-insensitive.
    pub days: Vec<String>,
    pub description: String,
    /// Local clock time "HH:MM", inclusive bound of the window.
    pub start_time: String,
    /// Local clock time "HH:MM", exclusive bound of the window.
    pub end_time: String,
    /// Seconds between checks while this rule matches.
    pub interval: u64,
}

/// Which notification sinks are configured.
#[derive(Debug, PartialEq)]
pub struct NotifierConfig {
    pub bark: Option<BarkConfig>,
    pub console: Option<ConsoleConfig>,
}

/// Settings of the push-notification sink.
#[derive(Debug, PartialEq)]
pub struct BarkConfig {
    pub enabled: bool,
    pub server_url: String,
    pub device_key: String,
    pub bark_group: String,
}

/// Settings of the console sink.
#[derive(Debug, PartialEq)]
pub struct ConsoleConfig {
    pub enabled: bool,
}

/// Two schedule rules hold the same data, day lists compared element-wise.
pub open spec fn schedule_like(a: CheckSchedule, b: CheckSchedule) -> bool {
    &&& a.days@ == b.days@
    &&& a.description == b.description
    &&& a.start_time == b.start_time
    &&& a.end_time == b.end_time
    &&& a.interval == b.interval
}

/// Two rule lists hold the same rules in the same order.
pub open spec fn schedules_like(a: Seq<CheckSchedule>, b: Seq<CheckSchedule>) -> bool {
    a.len() == b.len() && (forall|i: int| 0 <= i < a.len() ==> schedule_like(a[i], b[i]))
}

/// Two thread configurations hold the same data.
pub open spec fn thread_like(a: MonitoredThread, b: MonitoredThread) -> bool {
    &&& a.tid == b.tid
    &&& a.author_notification@ == b.author_notification@
    &&& a.check_interval == b.check_interval
    &&& a.enabled == b.enabled
    &&& a.last_seen_post_number == b.last_seen_post_number
    &&& match (a.check_schedule, b.check_schedule) {
        (Some(x), Some(y)) => schedules_like(x@, y@),
        (None, None) => true,
        _ => false,
    }
}

/// Two thread lists hold the same thread configurations in the same order.
pub open spec fn threads_like(a: Seq<MonitoredThread>, b: Seq<MonitoredThread>) -> bool {
    a.len() == b.len() && (forall|i: int| 0 <= i < a.len() ==> thread_like(a[i], b[i]))
}

/// Two monitor configurations hold the same data.
pub open spec fn monitor_config_like(a: MonitorConfig, b: MonitorConfig) -> bool {
    &&& a.fetch_posts_parallel_limit == b.fetch_posts_parallel_limit
    &&& a.monitor_duration == b.monitor_duration
    &&& threads_like(a.monitored_threads@, b.monitored_threads@)
}

/// Two configuration documents hold the same data.
pub open spec fn config_like(a: Config, b: Config) -> bool {
    &&& monitor_config_like(a.monitor, b.monitor)
    &&& a.crawler == b.crawler
    &&& a.notifier == b.notifier
    &&& a.web == b.web
}

impl Clone for Config {
    fn clone(&self) -> (res: Self)
        ensures
            config_like(res, *self),
    {
        Config {
            monitor: self.monitor.clone(),
            crawler: self.crawler.clone(),
            notifier: self.notifier.clone(),
            web: self.web.clone(),
        }
    }
}

impl Clone for WebConfig {
    fn clone(&self) -> (res: Self)
        ensures
            res == *self,
    {
        WebConfig { host: self.host.clone(), port: self.port }
    }
}

impl Clone for MonitorConfig {
    fn clone(&self) -> (res: Self)
        ensures
            monitor_config_like(res, *self),
    {
        MonitorConfig {
            fetch_posts_parallel_limit: self.fetch_posts_parallel_limit,
            monitor_duration: self.monitor_duration,
            monitored_threads: clone_threads(&self.monitored_threads),
        }
    }
}

impl Clone for CrawlerConfig {
    fn clone(&self) -> (res: Self)
        ensures
            res == *self,
    {
        CrawlerConfig {
            api_url: self.api_url.clone(),
            nga_passport_uid: self.nga_passport_uid.clone(),
            nga_passport_cid: self.nga_passport_cid.clone(),
            user_agent: self.user_agent.clone(),
            timeout: self.timeout,
        }
    }
}

impl Clone for MonitoredThread {
    fn clone(&self) -> (res: Self)
        ensures
            thread_like(res, *self),
    {
        let check_schedule = match &self.check_schedule {
            Some(rules) => Some(clone_schedules(rules)),
            None => None,
        };
        MonitoredThread {
            tid: self.tid,
            author_notification: clone_u64s(&self.author_notification),
            check_interval: self.check_interval,
            check_schedule,
            enabled: self.enabled,
            last_seen_post_number: self.last_seen_post_number,
        }
    }
}

impl Clone for CheckSchedule {
    fn clone(&self) -> (res: Self)
        ensures
            schedule_like(res, *self),
    {
        CheckSchedule {
            days: clone_strings(&self.days),
            description: self.description.clone(),
            start_time: self.start_time.clone(),
            end_time: self.end_time.clone(),
            interval: self.interval,
        }
    }
}

impl Clone for NotifierConfig {
    fn clone(&self) -> (res: Self)
        ensures
            res == *self,
    {
        let bark = match &self.bark {
            Some(b) => Some(b.clone()),
            None => None,
        };
        let console = match &self.console {
            Some(c) => Some(c.clone()),
            None => None,
        };
        NotifierConfig { bark, console }
    }
}

impl Clone for BarkConfig {
    fn clone(&self) -> (res: Self)
        ensures
            res == *self,
    {
        BarkConfig {
            enabled: self.enabled,
            server_url: self.server_url.clone(),
            device_key: self.device_key.clone(),
            bark_group: self.bark_group.clone(),
        }
    }
}

impl Clone for ConsoleConfig {
    fn clone(&self) -> (res: Self)
        ensures
            res == *self,
    {
        ConsoleConfig { enabled: self.enabled }
    }
}

/// Element-wise clone of a thread list.
pub fn clone_threads(v: &Vec<MonitoredThread>) -> (res: Vec<MonitoredThread>)
    ensures
        threads_like(res@, v@),
{
    let mut res: Vec<MonitoredThread> = Vec::new();
    let mut i: usize = 0;
    while i < v.len()
        invariant
            i <= v.len(),
            threads_like(res@, v@.take(i as int)),
        decreases v.len() - i,
    {
        res.push(v[i].clone());
        i += 1;
        proof {
            assert(v@.take(i as int) =~= v@.take(i - 1).push(v@[i - 1]));
        }
    }
    proof {
        assert(v@.take(v@.len() as int) =~= v@);
    }
    res
}

/// Element-wise clone of a schedule rule list.
pub fn clone_schedules(v: &Vec<CheckSchedule>) -> (res: Vec<CheckSchedule>)
    ensures
        schedules_like(res@, v@),
{
    let mut res: Vec<CheckSchedule> = Vec::new();
    let mut i: usize = 0;
    while i < v.len()
        invariant
            i <= v.len(),
            schedules_like(res@, v@.take(i as int)),
        decreases v.len() - i,
    {
        res.push(v[i].clone());
        i += 1;
        proof {
            assert(v@.take(i as int) =~= v@.take(i - 1).push(v@[i - 1]));
        }
    }
    proof {
        assert(v@.take(v@.len() as int) =~= v@);
    }
    res
}

/// Copy of an id list, preserving the value exactly.
pub fn clone_u64s(v: &Vec<u64>) -> (res: Vec<u64>)
    ensures
        res@ == v@,
{
    let mut res: Vec<u64> = Vec::new();
    let mut i: usize = 0;
    while i < v.len()
        invariant
            i <= v.len(),
            res@ == v@.take(i as int),
        decreases v.len() - i,
    {
        res.push(v[i]);
        i += 1;
        proof {
            assert(v@.take(i as int) =~= v@.take(i - 1).push(v@[i - 1]));
        }
    }
    proof {
        assert(v@.take(v@.len() as int) =~= v@);
    }
    res
}

/// Element-wise clone of a string list, preserving the values exactly.
pub fn clone_strings(v: &Vec<String>) -> (res: Vec<String>)
    ensures
        res@ == v@,
{
    let mut res: Vec<String> = Vec::new();
    let mut i: usize = 0;
    while i < v.len()
        invariant
            i <= v.len(),
            res@ == v@.take(i as int),
        decreases v.len() - i,
    {
        res.push(v[i].clone());
        i += 1;
        proof {
            assert(v@.take(i as int) =~= v@.take(i - 1).push(v@[i - 1]));
        }
    }
    proof {
        assert(v@.take(v@.len() as int) =~= v@);
    }
    res
}

} // verus!
