use nga_monitor::config::ConsoleConfig;
use nga_monitor::crawler::CrawlerError;
use nga_monitor::crawler::accept_thread_response;
use nga_monitor::crawler::classify_status;
use nga_monitor::nga_thread::NAGPost;
use nga_monitor::nga_thread::NGAThread;
use nga_monitor::nga_thread::PostAuthor;
use nga_monitor::notifier::ConsoleNotifier;
use nga_monitor::notifier::Notifier;
use nga_monitor::notifier::build_notification;
use nga_monitor::web::passport_error_response;
use nga_monitor::web::passport_success_response;

fn sample_post() -> NAGPost {
    NAGPost {
        tid: 100,
        pid: 9,
        content: "hello there".to_string(),
        post_date: "2024-01-01".to_string(),
        post_timestamp: 1704067200,
        post_number: 61,
        page: 5,
        thread_title: "A Thread".to_string(),
        author: PostAuthor { author_name: "alice".to_string(), author_uid: 55 },
    }
}

#[test]
fn notification_fields_are_derived_from_the_post() {
    let event = build_notification(&sample_post());
    assert_eq!(event.title, "New Post: A Thread");
    assert_eq!(event.message, "alice (#61):\nhello there...");
    assert_eq!(event.url, "https://nga.178.com/read.php?tid=100&page=5#pid9Anchor");
}

#[test]
fn disabled_console_sink_sends_nothing() {
    let sink = ConsoleNotifier::new(ConsoleConfig { enabled: false });
    let sent = sink.send_notification(
        &"t".to_string(),
        &"m".to_string(),
        Some(&"https://example.invalid".to_string()),
    );
    assert!(!sent);
}

#[test]
fn enabled_console_sink_sends() {
    let sink = ConsoleNotifier::new(ConsoleConfig { enabled: true });
    assert!(sink.send_notification(&"t".to_string(), &"m".to_string(), None));
}

#[test]
fn crawler_error_messages() {
    assert_eq!(CrawlerError::HttpError(404).message(), "HTTP request failed code: 404");
    assert_eq!(
        CrawlerError::ResponseContentError("broken".to_string()).message(),
        "Invalid HTTP response content: broken"
    );
}

#[test]
fn only_success_statuses_pass() {
    assert!(classify_status(200).is_ok());
    assert!(classify_status(204).is_ok());
    assert!(classify_status(299).is_ok());
    assert_eq!(classify_status(300), Err(CrawlerError::HttpError(300)));
    assert_eq!(classify_status(404), Err(CrawlerError::HttpError(404)));
    assert_eq!(classify_status(500), Err(CrawlerError::HttpError(500)));
    assert_eq!(classify_status(199), Err(CrawlerError::HttpError(199)));
}

fn raw_response(code: u64) -> NGAThread {
    NGAThread {
        code,
        msg: "ok".to_string(),
        tid: 0,
        title: "A Thread".to_string(),
        author_name: "op".to_string(),
        author_uid: 1,
        total_posts: 42,
        total_pages: 3,
        current_page: 2,
        posts: vec![NAGPost {
            tid: 100,
            pid: 9,
            content: "hello".to_string(),
            post_date: String::new(),
            post_timestamp: 0,
            post_number: 41,
            page: 0,
            thread_title: String::new(),
            author: PostAuthor { author_name: "alice".to_string(), author_uid: 55 },
        }],
    }
}

#[test]
fn accepted_response_is_tagged_with_tid_page_and_title() {
    let accepted = accept_thread_response(raw_response(0), 100, 2, "raw".to_string()).unwrap();
    assert_eq!(accepted.tid, 100);
    assert_eq!(accepted.total_pages, 3);
    assert_eq!(accepted.current_page, 2);
    assert_eq!(accepted.posts.len(), 1);
    assert_eq!(accepted.posts[0].page, 2);
    assert_eq!(accepted.posts[0].thread_title, "A Thread");
    assert_eq!(accepted.posts[0].post_number, 41);
}

#[test]
fn response_without_success_marker_is_rejected_with_raw_body() {
    let rejected = accept_thread_response(raw_response(1), 100, 2, "raw body".to_string());
    assert_eq!(rejected, Err(CrawlerError::ResponseContentError("raw body".to_string())));
}

#[test]
fn passport_envelopes() {
    let ok = passport_success_response();
    assert!(ok.success);
    assert_eq!(ok.message, Some("Passport updated successfully".to_string()));
    assert_eq!(ok.error, None);

    let failed = passport_error_response(&"disk full".to_string());
    assert!(!failed.success);
    assert_eq!(failed.message, None);
    assert_eq!(failed.error, Some("Failed to update passport: disk full".to_string()));
}
