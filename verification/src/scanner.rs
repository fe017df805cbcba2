//! Post scanning: one pass over the reassembled, page-ordered post stream,
//! computing the new watermark and collecting the posts that qualify for
//! notification against the previous one.

use crate::nga_thread::NAGPost;
use crate::nga_thread::NGAThread;
use vstd::prelude::*;

verus! {

/// Whether an id list contains the given id.
pub fn contains_u64(ids: &Vec<u64>, x: u64) -> (res: bool)
    ensures
        res == ids@.contains(x),
{
    let mut i: usize = 0;
    while i < ids.len()
        invariant
            i <= ids.len(),
            forall|j: int| 0 <= j < i ==> ids@[j] != x,
        decreases ids.len() - i,
    {
        if ids[i] == x {
            return true;
        }
        i += 1;
    }
    false
}

/// All posts of a page sequence, in page order then in-page order.
pub open spec fn flat_posts(pages: Seq<NGAThread>) -> Seq<NAGPost>
    decreases pages.len(),
{
    if pages.len() == 0 {
        Seq::empty()
    } else {
        flat_posts(pages.drop_last()) + pages.last().posts@
    }
}

/// The greatest post number among the posts, never below the given floor.
pub open spec fn scan_max(posts: Seq<NAGPost>, floor: u64) -> u64
    decreases posts.len(),
{
    if posts.len() == 0 {
        floor
    } else {
        let prev = scan_max(posts.drop_last(), floor);
        if posts.last().post_number > prev {
            posts.last().post_number
        } else {
            prev
        }
    }
}

/// A post qualifies for notification exactly when its author is watched and
/// its number lies strictly above the watermark from before the sweep.
pub open spec fn qualifies(post: NAGPost, authors: Seq<u64>, last_seen: u64) -> bool {
    authors.contains(post.author.author_uid) && post.post_number > last_seen
}

/// The posts that qualify for notification, in scan order.
pub open spec fn notify_list(posts: Seq<NAGPost>, authors: Seq<u64>, last_seen: u64) -> Seq<
    NAGPost,
> {
    posts.filter(|p: NAGPost| qualifies(p, authors, last_seen))
}

/// The scanned maximum never falls below its floor: a sweep can only move the
/// watermark up.
pub proof fn lemma_scan_max_floor(posts: Seq<NAGPost>, floor: u64)
    ensures
        scan_max(posts, floor) >= floor,
    decreases posts.len(),
{
    if posts.len() > 0 {
        lemma_scan_max_floor(posts.drop_last(), floor);
    }
}

/// Scans the page-ordered post stream once: returns the new watermark (the
/// greatest post number observed, never below the prior one) and the posts
/// that qualify for notification, in page order then in-page order.
///
/// Qualification is judged against `last_seen_post_number` as it stood before
/// the sweep, not the running maximum, so several new posts by watched
/// authors in one sweep all notify.
pub fn scan_posts(
    pages: &Vec<NGAThread>,
    author_notification: &Vec<u64>,
    last_seen_post_number: u64,
) -> (res: (u64, Vec<NAGPost>))
    ensures
        res.0 == scan_max(flat_posts(pages@), last_seen_post_number),
        res.1@ == notify_list(flat_posts(pages@), author_notification@, last_seen_post_number),
{
    let ghost pred = |p: NAGPost| qualifies(p, author_notification@, last_seen_post_number);
    let mut max_post_number: u64 = last_seen_post_number;
    let mut notify: Vec<NAGPost> = Vec::new();
    let ghost mut processed: Seq<NAGPost> = Seq::empty();
    proof {
        assert(flat_posts(pages@.take(0)) =~= Seq::<NAGPost>::empty());
    }
    let mut i: usize = 0;
    while i < pages.len()
        invariant
            i <= pages.len(),
            processed == flat_posts(pages@.take(i as int)),
            max_post_number == scan_max(processed, last_seen_post_number),
            notify@ == processed.filter(pred),
            pred == (|p: NAGPost| qualifies(p, author_notification@, last_seen_post_number)),
        decreases pages.len() - i,
    {
        let posts = &pages[i].posts;
        let mut j: usize = 0;
        while j < posts.len()
            invariant
                j <= posts.len(),
                posts == &pages@[i as int].posts,
                i < pages.len(),
                processed == flat_posts(pages@.take(i as int)) + posts@.take(j as int),
                max_post_number == scan_max(processed, last_seen_post_number),
                notify@ == processed.filter(pred),
                pred == (|p: NAGPost| qualifies(p, author_notification@, last_seen_post_number)),
            decreases posts.len() - j,
        {
            let post = &posts[j];
            let ghost prev = processed;
            proof {
                processed = processed.push(posts@[j as int]);
                assert(processed.drop_last() =~= prev);
                reveal(Seq::filter);
            }
            if post.post_number > max_post_number {
                max_post_number = post.post_number;
            }
            if contains_u64(author_notification, post.author.author_uid)
                && post.post_number > last_seen_post_number {
                notify.push(post.clone());
            }
            j += 1;
            proof {
                assert(flat_posts(pages@.take(i as int)) + posts@.take(j as int) =~= processed);
            }
        }
        i += 1;
        proof {
            assert(pages@.take(i as int).drop_last() =~= pages@.take(i - 1));
            assert(pages@.take(i as int).last() == pages@[i - 1]);
            assert(flat_posts(pages@.take(i as int)) =~= flat_posts(pages@.take(i - 1))
                + pages@[i - 1].posts@.take(pages@[i - 1].posts@.len() as int));
        }
    }
    proof {
        assert(pages@.take(pages@.len() as int) =~= pages@);
    }
    (max_post_number, notify)
}

} // verus!
