use nga_monitor::nga_thread::NAGPost;
use nga_monitor::nga_thread::NGAThread;
use nga_monitor::nga_thread::PostAuthor;
use nga_monitor::scanner::scan_posts;

fn post(post_number: u64, author_uid: u64) -> NAGPost {
    NAGPost {
        tid: 1,
        pid: 1000 + post_number,
        content: format!("content {}", post_number),
        post_date: String::new(),
        post_timestamp: 0,
        post_number,
        page: 0,
        thread_title: String::new(),
        author: PostAuthor { author_name: format!("author {}", author_uid), author_uid },
    }
}

fn page(current_page: u64, posts: Vec<NAGPost>) -> NGAThread {
    NGAThread {
        code: 0,
        msg: String::new(),
        tid: 1,
        title: String::new(),
        author_name: String::new(),
        author_uid: 0,
        total_posts: 0,
        total_pages: 0,
        current_page,
        posts,
    }
}

#[test]
fn posts_across_watermark_notify_exactly_above_it() {
    // previous watermark W = 40; watched author 7 wrote 39, 40, 41, 42 and
    // unwatched author 9 wrote 43
    let w = 40;
    let pages = vec![page(
        1,
        vec![post(w - 1, 7), post(w, 7), post(w + 1, 7), post(w + 2, 7), post(w + 3, 9)],
    )];
    let (new_max, notify) = scan_posts(&pages, &vec![7], w);
    assert_eq!(new_max, w + 3);
    assert_eq!(notify.len(), 2);
    assert_eq!(notify[0].post_number, w + 1);
    assert_eq!(notify[1].post_number, w + 2);
}

#[test]
fn scan_preserves_page_then_post_order() {
    let pages = vec![
        page(1, vec![post(1, 7), post(2, 7)]),
        page(2, vec![post(3, 7), post(4, 7)]),
    ];
    let (new_max, notify) = scan_posts(&pages, &vec![7], 0);
    assert_eq!(new_max, 4);
    let numbers: Vec<u64> = notify.iter().map(|p| p.post_number).collect();
    assert_eq!(numbers, vec![1, 2, 3, 4]);
}

#[test]
fn scan_of_empty_pages_keeps_watermark() {
    let pages: Vec<NGAThread> = vec![];
    let (new_max, notify) = scan_posts(&pages, &vec![7], 40);
    assert_eq!(new_max, 40);
    assert!(notify.is_empty());
}

#[test]
fn watermark_never_decreases() {
    let pages = vec![page(1, vec![post(5, 7)])];
    let (new_max, notify) = scan_posts(&pages, &vec![7], 40);
    assert_eq!(new_max, 40);
    assert!(notify.is_empty());
}

#[test]
fn post_at_watermark_does_not_notify() {
    let pages = vec![page(1, vec![post(40, 7)])];
    let (_, notify) = scan_posts(&pages, &vec![7], 40);
    assert!(notify.is_empty());
}

#[test]
fn unwatched_author_never_notifies() {
    let pages = vec![page(1, vec![post(41, 9), post(42, 9)])];
    let (new_max, notify) = scan_posts(&pages, &vec![7], 40);
    assert_eq!(new_max, 42);
    assert!(notify.is_empty());
}
