//! Acceptance of page-fetch responses: which HTTP statuses pass, which
//! payloads carry the success marker, and how an accepted page is prepared
//! for the scanner. The transport that performs the fetch lives outside the
//! library and hands its parsed response in here.

use crate::nga_thread::NAGPost;
use crate::nga_thread::NGAThread;
use crate::text::dec_str;
use crate::text::u64_to_string;
use vstd::prelude::*;
use vstd::string::StringExecFns;

verus! {

/// Why a page fetch was rejected.
#[derive(Debug, PartialEq)]
pub enum CrawlerError {
    /// The transport returned a non-success HTTP status.
    HttpError(u16),
    /// The payload lacked the success marker or the expected shape; carries
    /// the raw response body.
    ResponseContentError(String),
}

impl Clone for CrawlerError {
    fn clone(&self) -> (res: Self)
        ensures
            res == *self,
    {
        match self {
            CrawlerError::HttpError(code) => CrawlerError::HttpError(*code),
            CrawlerError::ResponseContentError(body) => CrawlerError::ResponseContentError(
                body.clone(),
            ),
        }
    }
}

impl CrawlerError {
    /// A human-readable description of the error.
    pub fn message(&self) -> (res: String)
        ensures
            match self {
                CrawlerError::HttpError(code) => res@ == "HTTP request failed code: "@ + dec_str(
                    *code as int,
                ),
                CrawlerError::ResponseContentError(body) => res@
                    == "Invalid HTTP response content: "@ + body@,
            },
    {
        match self {
            CrawlerError::HttpError(code) => {
                let mut s = "HTTP request failed code: ".to_owned();
                let digits = u64_to_string(*code as u64);
                s.append(digits.as_str());
                s
            },
            CrawlerError::ResponseContentError(body) => {
                let mut s = "Invalid HTTP response content: ".to_owned();
                s.append(body.as_str());
                s
            },
        }
    }
}

/// An HTTP status that counts as success: the 2xx range.
pub open spec fn is_success_status(status: u16) -> bool {
    200 <= status < 300
}

/// Classifies an HTTP response status: a non-success status is a transport
/// error carrying that status, and only a 2xx status passes.
pub fn classify_status(status: u16) -> (res: Result<(), CrawlerError>)
    ensures
        res is Ok <==> is_success_status(status),
        res is Err ==> res == Err::<(), CrawlerError>(CrawlerError::HttpError(status)),
{
    if 200 <= status && status < 300 {
        Ok(())
    } else {
        Err(CrawlerError::HttpError(status))
    }
}

/// A post as it is handed onward: the page it was fetched on and the title of
/// its thread filled in, everything else as the API reported it.
pub open spec fn tag_post(p: NAGPost, page: u64, title: String) -> NAGPost {
    NAGPost { page, thread_title: title, ..p }
}

/// Accepts or rejects a parsed page response. A payload whose status code is
/// not the success marker 0 is rejected with the raw body. An accepted page
/// keeps every reported field, takes the requested thread id, and each of its
/// posts is tagged with the requested page number and the thread title.
pub fn accept_thread_response(
    thread_data: NGAThread,
    tid: u64,
    page: u64,
    raw_content: String,
) -> (res: Result<NGAThread, CrawlerError>)
    ensures
        res is Ok <==> thread_data.code == 0,
        match res {
            Ok(t) => {
                &&& t.code == thread_data.code
                &&& t.msg == thread_data.msg
                &&& t.tid == tid
                &&& t.title == thread_data.title
                &&& t.author_name == thread_data.author_name
                &&& t.author_uid == thread_data.author_uid
                &&& t.total_posts == thread_data.total_posts
                &&& t.total_pages == thread_data.total_pages
                &&& t.current_page == thread_data.current_page
                &&& t.posts@ == thread_data.posts@.map_values(
                    |p: NAGPost| tag_post(p, page, thread_data.title),
                )
            },
            Err(e) => e == CrawlerError::ResponseContentError(raw_content),
        },
{
    if thread_data.code != 0 {
        return Err(CrawlerError::ResponseContentError(raw_content));
    }
    let ghost orig_posts = thread_data.posts@;
    let ghost title_spec = thread_data.title;
    let mut new_posts: Vec<NAGPost> = Vec::new();
    let mut j: usize = 0;
    while j < thread_data.posts.len()
        invariant
            j <= thread_data.posts@.len(),
            orig_posts == thread_data.posts@,
            title_spec == thread_data.title,
            new_posts@ == orig_posts.take(j as int).map_values(
                |p: NAGPost| tag_post(p, page, title_spec),
            ),
        decreases thread_data.posts@.len() - j,
    {
        let mut p = thread_data.posts[j].clone();
        p.page = page;
        p.thread_title = thread_data.title.clone();
        new_posts.push(p);
        j += 1;
        proof {
            assert(new_posts@ =~= orig_posts.take(j as int).map_values(
                |p: NAGPost| tag_post(p, page, title_spec),
            ));
        }
    }
    proof {
        assert(orig_posts.take(orig_posts.len() as int) =~= orig_posts);
    }
    Ok(
        NGAThread {
            code: thread_data.code,
            msg: thread_data.msg,
            tid,
            title: thread_data.title,
            author_name: thread_data.author_name,
            author_uid: thread_data.author_uid,
            total_posts: thread_data.total_posts,
            total_pages: thread_data.total_pages,
            current_page: thread_data.current_page,
            posts: new_posts,
        },
    )
}

} // verus!
