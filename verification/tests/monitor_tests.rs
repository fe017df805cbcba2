use nga_monitor::config::Config;
use nga_monitor::config::CrawlerConfig;
use nga_monitor::config::MonitorConfig;
use nga_monitor::config::MonitoredThread;
use nga_monitor::config::NotifierConfig;
use nga_monitor::config::WebConfig;
use nga_monitor::config_holder::ConfigHolder;
use nga_monitor::monitor::NGAMonitor;
use nga_monitor::nga_thread::NAGPost;
use nga_monitor::nga_thread::NGAThread;
use nga_monitor::nga_thread::PostAuthor;
use nga_monitor::orchestrator::FetchOrchestrator;
use nga_monitor::orchestrator::start_page;
use nga_monitor::scanner::scan_posts;
use nga_monitor::schedule::Weekday;
use std::collections::HashMap;

fn watched_thread() -> MonitoredThread {
    MonitoredThread {
        tid: 100,
        author_notification: vec![55],
        check_interval: 60,
        check_schedule: None,
        enabled: true,
        last_seen_post_number: 40,
    }
}

fn post(post_number: u64, author_uid: u64) -> NAGPost {
    NAGPost {
        tid: 100,
        pid: 2000 + post_number,
        content: format!("post {}", post_number),
        post_date: String::new(),
        post_timestamp: 0,
        post_number,
        page: 0,
        thread_title: "A Thread".to_string(),
        author: PostAuthor { author_name: "alice".to_string(), author_uid },
    }
}

fn page(current_page: u64, total_pages: u64, posts: Vec<NAGPost>) -> NGAThread {
    NGAThread {
        code: 0,
        msg: String::new(),
        tid: 100,
        title: "A Thread".to_string(),
        author_name: "op".to_string(),
        author_uid: 1,
        total_posts: 0,
        total_pages,
        current_page,
        posts,
    }
}

#[test]
fn monitor_state_tracks_last_checks() {
    let mut monitor = NGAMonitor::new();
    assert_eq!(monitor.last_checked(100), None);
    monitor.mark_checked(100, 1000);
    assert_eq!(monitor.last_checked(100), Some(1000));
    monitor.mark_checked(100, 2000);
    assert_eq!(monitor.last_checked(100), Some(2000));
}

#[test]
fn never_checked_threads_are_checked_first_tick() {
    let monitor = NGAMonitor::new();
    assert!(monitor.should_check(&watched_thread(), 0, Weekday::Monday, "10:00"));
}

#[test]
fn disabled_threads_are_skipped_entirely() {
    let monitor = NGAMonitor::new();
    let mut disabled = watched_thread();
    disabled.enabled = false;
    assert!(!monitor.should_check(&disabled, 0, Weekday::Monday, "10:00"));
}

#[test]
fn checked_threads_wait_out_their_interval() {
    let mut monitor = NGAMonitor::new();
    monitor.mark_checked(100, 1000);
    let thread = watched_thread();
    assert!(!monitor.should_check(&thread, 1060, Weekday::Monday, "10:00"));
    assert!(monitor.should_check(&thread, 1061, Weekday::Monday, "10:00"));
}

#[test]
fn a_failed_check_still_counts_as_attempted() {
    let mut monitor = NGAMonitor::new();
    // the sweep failed; the monitor still marks the attempt
    monitor.mark_checked(100, 1000);
    assert!(!monitor.should_check(&watched_thread(), 1030, Weekday::Monday, "10:00"));
}

#[test]
fn full_sweep_of_one_thread() {
    // thread 100 sits at watermark 40 with 20 posts per page: the sweep
    // starts on page 3
    let thread = watched_thread();
    let first = start_page(thread.last_seen_post_number);
    assert_eq!(first, 3);

    // the current page reports 5 pages in all; pages 4 and 5 are handed out
    // together under a cap of 2
    let current = page(3, 5, vec![post(53, 1)]);
    let mut orchestrator = FetchOrchestrator::begin(thread.tid, first, current, 2);
    assert_eq!(orchestrator.next_launch(), Some(4));
    assert_eq!(orchestrator.next_launch(), Some(5));
    assert_eq!(orchestrator.next_launch(), None);

    // page 5 completes before page 4, carrying a watched post and the
    // thread's highest post number
    orchestrator.on_page_result(Some(page(5, 5, vec![post(61, 55), post(62, 9)])));
    orchestrator.on_page_result(Some(page(4, 5, vec![post(57, 9)])));
    assert!(orchestrator.is_complete());
    let pages = orchestrator.finish();
    let order: Vec<u64> = pages.iter().map(|p| p.current_page).collect();
    assert_eq!(order, vec![3, 4, 5]);

    // the scan finds the new watermark and exactly one qualifying post
    let (new_max, notify) =
        scan_posts(&pages, &thread.author_notification, thread.last_seen_post_number);
    assert_eq!(new_max, 62);
    assert_eq!(notify.len(), 1);
    assert_eq!(notify[0].post_number, 61);

    // the tick folds the watermark back into the configuration
    let mut holder = ConfigHolder::new(Config {
        monitor: MonitorConfig {
            fetch_posts_parallel_limit: 2,
            monitor_duration: 30,
            monitored_threads: vec![thread],
        },
        crawler: CrawlerConfig {
            api_url: String::new(),
            nga_passport_uid: String::new(),
            nga_passport_cid: String::new(),
            user_agent: String::new(),
            timeout: 10,
        },
        notifier: NotifierConfig { bark: None, console: None },
        web: WebConfig { host: String::new(), port: 0 },
    });
    let mut updates: HashMap<u64, u64> = HashMap::new();
    updates.insert(100, new_max);
    holder.update_post_last_seen(&updates);
    assert_eq!(holder.get_monitor_config().monitored_threads[0].last_seen_post_number, 62);
}
