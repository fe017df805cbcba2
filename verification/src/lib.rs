//! Monitoring engine for a set of watched forum threads.
//!
//! The library holds the verified core: the scheduling decision (is a thread
//! due for a check, and at what cadence, honoring day-of-week/time-of-day
//! override rules), the bounded-concurrency page-fetch bookkeeping, the
//! post-scan/notify decision against a persisted watermark, and the in-memory
//! configuration state. Transport (HTTP fetches, file persistence, push
//! notifications, the admin endpoint) lives outside, in unverified glue that
//! hands this library plain values.

pub mod config;
pub mod config_holder;
pub mod crawler;
pub mod monitor;
pub mod nga_thread;
pub mod notifier;
pub mod orchestrator;
pub mod scanner;
pub mod schedule;
pub mod text;
pub mod web;

use vstd::prelude::*;

verus! {

/// Number of posts a forum page holds; watermarks are converted to page
/// numbers with this fixed page size.
pub const DEFAULT_POST_PER_PAGE: u64 = 20;

/// Check interval, in seconds, used for a thread whose own `check_interval`
/// is zero and for which no schedule rule matches.
pub const DEFAULT_THREAD_CHECK_INTERVAL: u64 = 300;

} // verus!
