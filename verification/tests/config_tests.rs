use nga_monitor::config::BarkConfig;
use nga_monitor::config::Config;
use nga_monitor::config::ConsoleConfig;
use nga_monitor::config::CrawlerConfig;
use nga_monitor::config::MonitorConfig;
use nga_monitor::config::MonitoredThread;
use nga_monitor::config::NotifierConfig;
use nga_monitor::config::WebConfig;
use nga_monitor::config_holder::ConfigHolder;
use std::collections::HashMap;

fn thread(tid: u64, last_seen_post_number: u64) -> MonitoredThread {
    MonitoredThread {
        tid,
        author_notification: vec![7],
        check_interval: 60,
        check_schedule: None,
        enabled: true,
        last_seen_post_number,
    }
}

fn sample_config() -> Config {
    Config {
        monitor: MonitorConfig {
            fetch_posts_parallel_limit: 4,
            monitor_duration: 30,
            monitored_threads: vec![thread(100, 40), thread(200, 10)],
        },
        crawler: CrawlerConfig {
            api_url: "https://example.invalid/api".to_string(),
            nga_passport_uid: "uid1".to_string(),
            nga_passport_cid: "cid1".to_string(),
            user_agent: "agent".to_string(),
            timeout: 10,
        },
        notifier: NotifierConfig {
            bark: Some(BarkConfig {
                enabled: false,
                server_url: "https://example.invalid/bark".to_string(),
                device_key: "key".to_string(),
                bark_group: "group".to_string(),
            }),
            console: Some(ConsoleConfig { enabled: true }),
        },
        web: WebConfig { host: "127.0.0.1".to_string(), port: 8080 },
    }
}

#[test]
fn snapshots_reflect_the_held_configuration() {
    let holder = ConfigHolder::new(sample_config());
    assert_eq!(holder.get_all_config(), sample_config());
    assert_eq!(holder.get_crawler_config(), sample_config().crawler);
    assert_eq!(holder.get_monitor_config(), sample_config().monitor);
    assert_eq!(holder.get_notifier_config(), sample_config().notifier);
}

#[test]
fn update_last_seen_reflects_in_snapshot() {
    let mut holder = ConfigHolder::new(sample_config());
    let mut updates: HashMap<u64, u64> = HashMap::new();
    updates.insert(100, 62);
    holder.update_post_last_seen(&updates);
    let monitor = holder.get_monitor_config();
    assert_eq!(monitor.monitored_threads[0].last_seen_post_number, 62);
    // a thread the map does not name keeps its watermark
    assert_eq!(monitor.monitored_threads[1].last_seen_post_number, 10);
    // nothing else moved
    assert_eq!(holder.get_crawler_config(), sample_config().crawler);
    assert_eq!(monitor.fetch_posts_parallel_limit, 4);
    assert_eq!(monitor.monitor_duration, 30);
}

#[test]
fn writing_the_same_watermarks_twice_is_idempotent() {
    let mut updates: HashMap<u64, u64> = HashMap::new();
    updates.insert(100, 62);
    updates.insert(200, 11);

    let mut holder = ConfigHolder::new(sample_config());
    holder.update_post_last_seen(&updates);
    let once = holder.get_all_config();
    holder.update_post_last_seen(&updates);
    let twice = holder.get_all_config();
    assert_eq!(once, twice);
}

#[test]
fn update_passport_replaces_only_the_credentials() {
    let mut holder = ConfigHolder::new(sample_config());
    holder.update_passport("cid2".to_string(), "uid2".to_string());
    let crawler = holder.get_crawler_config();
    assert_eq!(crawler.nga_passport_uid, "uid2");
    assert_eq!(crawler.nga_passport_cid, "cid2");
    assert_eq!(crawler.api_url, sample_config().crawler.api_url);
    assert_eq!(crawler.user_agent, sample_config().crawler.user_agent);
    assert_eq!(crawler.timeout, sample_config().crawler.timeout);
    assert_eq!(holder.get_monitor_config(), sample_config().monitor);
    assert_eq!(holder.get_notifier_config(), sample_config().notifier);
}

#[test]
fn an_unknown_tid_in_the_map_changes_no_thread() {
    let mut holder = ConfigHolder::new(sample_config());
    let mut updates: HashMap<u64, u64> = HashMap::new();
    updates.insert(999, 5);
    holder.update_post_last_seen(&updates);
    assert_eq!(holder.get_all_config(), sample_config());
}
