//! One fetched page of a forum thread, as the remote API reports it.
//!
//! The unverified transport parses an API response into these types and hands
//! them to the library; everything the engine decides about a page it decides
//! on these plain values.

use vstd::prelude::*;

verus! {

/// One page of a thread at fetch time.
#[derive(Debug, PartialEq)]
pub struct NGAThread {
    /// Status code of the response payload; 0 marks success.
    pub code: u64,
    /// Status message of the response payload.
    pub msg: String,
    /// Forum thread id; the API omits it, the fetcher fills it in.
    pub tid: u64,
    /// Thread title.
    pub title: String,
    /// Author of the thread itself.
    pub author_name: String,
    pub author_uid: u64,
    /// Total posts in the thread, as reported by this response.
    pub total_posts: u64,
    /// Total pages in the thread, as reported by this response.
    pub total_pages: u64,
    /// The page this response carries.
    pub current_page: u64,
    /// Posts of this page, in in-page order.
    pub posts: Vec<NAGPost>,
}

/// One post of a thread.
#[derive(Debug, PartialEq)]
pub struct NAGPost {
    pub tid: u64,
    /// Post id.
    pub pid: u64,
    pub content: String,
    pub post_date: String,
    pub post_timestamp: u64,
    /// Monotonically increasing sequence number within the thread; the
    /// watermark unit.
    pub post_number: u64,
    /// Page the post was fetched on; the fetcher fills it in.
    pub page: u64,
    /// Title of the thread the post belongs to; the fetcher fills it in.
    pub thread_title: String,
    pub author: PostAuthor,
}

/// The author of one post.
#[derive(Debug, PartialEq)]
pub struct PostAuthor {
    pub author_name: String,
    pub author_uid: u64,
}

impl Clone for PostAuthor {
    fn clone(&self) -> (res: Self)
        ensures
            res == *self,
    {
        PostAuthor { author_name: self.author_name.clone(), author_uid: self.author_uid }
    }
}

impl Clone for NAGPost {
    fn clone(&self) -> (res: Self)
        ensures
            res == *self,
    {
        NAGPost {
            tid: self.tid,
            pid: self.pid,
            content: self.content.clone(),
            post_date: self.post_date.clone(),
            post_timestamp: self.post_timestamp,
            post_number: self.post_number,
            page: self.page,
            thread_title: self.thread_title.clone(),
            author: self.author.clone(),
        }
    }
}

} // verus!
