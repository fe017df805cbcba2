//! Notification events and sinks. A qualifying post is turned into an event —
//! title, message and canonical thread URL — and fanned out to every
//! configured sink; a sink's failure is advisory and never affects the check
//! that produced the event.
//!
//! The console sink lives here, verified down to the exact text it prints.
//! The push-style HTTP sink is a transport and lives outside the library.

use crate::config::ConsoleConfig;
use crate::nga_thread::NAGPost;
use crate::text::dec_str;
use crate::text::u64_to_string;
use std::io::Write;
use vstd::prelude::*;
use vstd::string::StringExecFns;

verus! {

/// A notification sink: takes a title, a message and an optional URL, and
/// reports whether it accepted the notification. Sinks are best-effort; a
/// refusal or failure is never retried.
pub trait Notifier {
    fn send_notification(&self, title: &String, message: &String, url: Option<&String>) -> bool;
}

/// One notification, ready for any sink.
pub struct NotificationEvent {
    pub title: String,
    pub message: String,
    pub url: String,
}

/// Derives the notification for one qualifying post: the title names the
/// thread, the message carries author, post number and content, and the URL
/// anchors the post on its page of the canonical thread reader.
pub fn build_notification(post: &NAGPost) -> (res: NotificationEvent)
    ensures
        res.title@ == "New Post: "@ + post.thread_title@,
        res.message@ == post.author.author_name@ + " (#"@ + dec_str(post.post_number as int)
            + "):\n"@ + post.content@ + "..."@,
        res.url@ == "https://nga.178.com/read.php?tid="@ + dec_str(post.tid as int) + "&page="@
            + dec_str(post.page as int) + "#pid"@ + dec_str(post.pid as int) + "Anchor"@,
{
    let mut title = "New Post: ".to_owned();
    title.append(post.thread_title.as_str());

    let mut message = post.author.author_name.clone();
    message.append(" (#");
    let post_number = u64_to_string(post.post_number);
    message.append(post_number.as_str());
    message.append("):\n");
    message.append(post.content.as_str());
    message.append("...");

    let mut url = "https://nga.178.com/read.php?tid=".to_owned();
    let tid = u64_to_string(post.tid);
    url.append(tid.as_str());
    url.append("&page=");
    let page = u64_to_string(post.page);
    url.append(page.as_str());
    url.append("#pid");
    let pid = u64_to_string(post.pid);
    url.append(pid.as_str());
    url.append("Anchor");

    NotificationEvent { title, message, url }
}

/// Relies on `writeln!` to standard output. Console output is advisory; a
/// write failure is ignored.
#[verifier::external_body]
fn print_line(line: &str) {
    let _ = writeln!(std::io::stdout(), "{}", line);
}

/// Prints notifications to the console; a disabled console sink skips every
/// notification.
pub struct ConsoleNotifier {
    config: ConsoleConfig,
}

impl ConsoleNotifier {
    /// Whether the sink is enabled.
    pub closed spec fn spec_enabled(&self) -> bool {
        self.config.enabled
    }

    pub fn new(config: ConsoleConfig) -> (res: Self)
        ensures
            res.spec_enabled() == config.enabled,
    {
        ConsoleNotifier { config }
    }

    /// Prints the notification when the sink is enabled; reports whether it
    /// did. Printing never fails the caller.
    pub fn send_to_console(&self, title: &String, message: &String, url: Option<&String>) -> (res:
        bool)
        ensures
            res == self.spec_enabled(),
    {
        if !self.config.enabled {
            print_line("ConsoleNotifier is disabled, Skipping notification.");
            return false;
        }
        let separator =
            "================================================================================";
        print_line("");
        print_line(separator);
        print_line("NOTIFICATION");
        print_line(separator);
        let mut title_line = "Title: ".to_owned();
        title_line.append(title.as_str());
        print_line(title_line.as_str());
        let mut message_line = "Message: ".to_owned();
        message_line.append(message.as_str());
        print_line(message_line.as_str());
        match url {
            Some(url) => {
                if url.unicode_len() > 0 {
                    let mut url_line = "URL: ".to_owned();
                    url_line.append(url.as_str());
                    print_line(url_line.as_str());
                }
            },
            None => (),
        }
        true
    }
}

impl Notifier for ConsoleNotifier {
    fn send_notification(&self, title: &String, message: &String, url: Option<&String>) -> bool {
        self.send_to_console(title, message, url)
    }
}

} // verus!
