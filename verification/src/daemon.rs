//! The headless poller's decisions: which feeds to poll, how long to sleep,
//! what the wake flags ask for, what a feed's fetch means, what is stored,
//! and how the round is summed up for the notification and the tray.

use vstd::prelude::*;

use crate::feed::{opt_view, parsed_document};
use crate::fetch::FetchOutcome;
use crate::models::{error_text, Error};
use crate::parse::{is_parsed_feed_of, parse_feed, ParsedFeed};
use crate::schedule::{is_due, next_due_wait, schedule_fits, seconds_until_next_due, spec_is_due, wait_fits};
use crate::text::{decimal, push_decimal, push_str};

verus! {

/// How long to sleep when there is nothing to schedule (no feeds yet).
pub const IDLE_SLEEP_SECS: u64 = 3600;

/// Wake-up requests raised by D-Bus handlers and the tray.
#[derive(Debug, Clone, Copy, PartialEq, Eq, Structural)]
pub struct Flags {
    pub quit: bool,
    pub poll_now: bool,
    pub settings_changed: bool,
}

impl Default for Flags {
    fn default() -> (f: Flags)
        ensures
            !f.quit && !f.poll_now && !f.settings_changed,
    {
        Flags { quit: false, poll_now: false, settings_changed: false }
    }
}

/// What the scheduler does on waking.
#[derive(Debug, Clone, Copy, PartialEq, Eq, Structural)]
pub enum Wake {
    /// Exit the daemon.
    Quit,
    /// Poll every feed now, due or not.
    PollNow,
    /// Reload the settings, then reschedule.
    ReloadSettings,
    /// Keep waiting until the deadline.
    KeepWaiting,
}

impl Flags {
    /// The `PollNow()` D-Bus method and the tray's "Poll now": ask for a
    /// forced poll.
    pub fn request_poll(&mut self)
        ensures
            *final(self) == (Flags { poll_now: true, ..*old(self) }),
    {
        self.poll_now = true;
    }

    /// The `SettingsChanged()` D-Bus method: ask for a settings reload.
    pub fn request_settings_reload(&mut self)
        ensures
            *final(self) == (Flags { settings_changed: true, ..*old(self) }),
    {
        self.settings_changed = true;
    }

    /// The `Quit()` D-Bus method and the tray's "Quit": ask the daemon to exit.
    pub fn request_quit(&mut self)
        ensures
            *final(self) == (Flags { quit: true, ..*old(self) }),
    {
        self.quit = true;
    }

    /// Takes the most urgent request off the flags: quitting wins, then a
    /// forced poll, then a settings reload; the request taken is cleared
    /// (quitting stays set).
    pub fn take_request(&mut self) -> (w: Wake)
        ensures
            old(self).quit ==> w == Wake::Quit && *final(self) == *old(self),
            !old(self).quit && old(self).poll_now ==> w == Wake::PollNow
                && *final(self) == (Flags { poll_now: false, ..*old(self) }),
            !old(self).quit && !old(self).poll_now && old(self).settings_changed ==> w == Wake::ReloadSettings
                && *final(self) == (Flags { settings_changed: false, ..*old(self) }),
            !old(self).quit && !old(self).poll_now && !old(self).settings_changed ==> w == Wake::KeepWaiting
                && *final(self) == *old(self),
    {
        if self.quit {
            Wake::Quit
        } else if self.poll_now {
            self.poll_now = false;
            Wake::PollNow
        } else if self.settings_changed {
            self.settings_changed = false;
            Wake::ReloadSettings
        } else {
            Wake::KeepWaiting
        }
    }
}

/// Which feeds a round polls: all when forced, else those that are due.
pub fn select_due(last_polls: &Vec<Option<i64>>, interval_minutes: u32, now: i64, force: bool) -> (due: Vec<bool>)
    requires
        forall|i: int| 0 <= i < last_polls@.len() ==> schedule_fits(#[trigger] last_polls@[i], interval_minutes, now),
    ensures
        due@.len() == last_polls@.len(),
        forall|i: int| 0 <= i < due@.len() ==> #[trigger] due@[i] == (force || spec_is_due(last_polls@[i], interval_minutes, now)),
{
    let mut due: Vec<bool> = Vec::new();
    let n = last_polls.len();
    let mut i: usize = 0;
    while i < n
        invariant
            n == last_polls@.len(),
            i <= n,
            due@.len() == i,
            forall|k: int| 0 <= k < last_polls@.len() ==> schedule_fits(#[trigger] last_polls@[k], interval_minutes, now),
            forall|k: int| 0 <= k < i ==> #[trigger] due@[k] == (force || spec_is_due(last_polls@[k], interval_minutes, now)),
        decreases n - i,
    {
        let d = force || is_due(last_polls[i], interval_minutes, now);
        due.push(d);
        i = i + 1;
    }
    due
}

/// How long the scheduler sleeps: until the earliest feed is due, at least
/// one second; an hour when there are no feeds.
pub open spec fn spec_sleep_secs(last_polls: Seq<Option<i64>>, interval_minutes: u32, now: i64) -> int {
    match next_due_wait(last_polls, interval_minutes, now) {
        Some(w) => if w < 1 { 1 } else { w },
        None => IDLE_SLEEP_SECS as int,
    }
}

/// Seconds to sleep before the next round (see [`spec_sleep_secs`]).
pub fn sleep_secs(last_polls: Vec<Option<i64>>, interval_minutes: u32, now: i64) -> (s: u64)
    requires
        forall|i: int| 0 <= i < last_polls@.len() ==> wait_fits(#[trigger] last_polls@[i], interval_minutes, now),
    ensures
        s == spec_sleep_secs(last_polls@, interval_minutes, now),
{
    match seconds_until_next_due(last_polls, interval_minutes, now) {
        Some(w) => if w < 1 { 1 } else { w },
        None => IDLE_SLEEP_SECS,
    }
}

/// New items found by one polling round.
#[derive(Debug, Clone, Copy, PartialEq, Eq, Structural)]
pub struct PollStats {
    pub new_items: u32,
    pub feeds_with_new: u32,
}

impl PollStats {
    /// No new items yet.
    pub fn new() -> (s: PollStats)
        ensures
            s.new_items == 0,
            s.feeds_with_new == 0,
    {
        PollStats { new_items: 0, feeds_with_new: 0 }
    }

    /// Counts the items newly stored for one feed; a feed counts once, and
    /// only when it brought something new.
    pub fn add_feed(&mut self, new: u32)
        requires
            old(self).new_items + new <= u32::MAX,
            old(self).feeds_with_new < u32::MAX,
        ensures
            new > 0 ==> final(self).new_items == old(self).new_items + new
                && final(self).feeds_with_new == old(self).feeds_with_new + 1,
            new == 0 ==> *final(self) == *old(self),
    {
        if new > 0 {
            self.new_items = self.new_items + new;
            self.feeds_with_new = self.feeds_with_new + 1;
        }
    }
}

/// What fetching and parsing one feed gave.
#[derive(Debug)]
pub enum WorkOutcome {
    NotModified,
    Content {
        parsed: ParsedFeed,
        etag: Option<String>,
        last_modified: Option<String>,
        permanent_url: Option<String>,
    },
    Failed(String),
}

/// What one feed's fetch means: 304 passes through, a parsed body becomes
/// content with its validators and any permanent move, and a failed fetch or
/// a body that is no feed becomes the error's text.
pub fn work_outcome(fetched: Result<FetchOutcome, Error>) -> (w: WorkOutcome)
    ensures
        match fetched {
            Ok(FetchOutcome::NotModified) => w is NotModified,
            Ok(FetchOutcome::Fetched(f)) => match parsed_document(f.body@) {
                Ok(raw) => w matches WorkOutcome::Content { parsed, etag, last_modified, permanent_url }
                    && is_parsed_feed_of(parsed, raw) && opt_view(etag) == opt_view(f.etag)
                    && opt_view(last_modified) == opt_view(f.last_modified)
                    && opt_view(permanent_url) == opt_view(f.permanent_url),
                Err(m) => w matches WorkOutcome::Failed(t) && t@ == "feed parse error: "@ + m,
            },
            Err(e) => w matches WorkOutcome::Failed(t) && t@ == error_text(e),
        },
{
    match fetched {
        Ok(FetchOutcome::NotModified) => WorkOutcome::NotModified,
        Ok(FetchOutcome::Fetched(f)) => match parse_feed(f.body.as_slice()) {
            Ok(parsed) => WorkOutcome::Content {
                parsed,
                etag: f.etag,
                last_modified: f.last_modified,
                permanent_url: f.permanent_url,
            },
            Err(e) => WorkOutcome::Failed(e.message()),
        },
        Err(e) => WorkOutcome::Failed(e.message()),
    }
}

/// The status stored for a successful poll.
pub const STATUS_OK: &'static str = "ok";

/// What is recorded about a feed after a poll: its validators and status.
#[derive(Debug)]
pub struct PollRecord {
    pub etag: Option<String>,
    pub last_modified: Option<String>,
    pub status: String,
}

/// The record for a polled feed: a 304 keeps the stored validators, content
/// stores the fresh ones, both with status `"ok"`; a failure clears the
/// validators and stores its message as the status.
pub fn poll_record(outcome: &WorkOutcome, stored_etag: &Option<String>, stored_last_modified: &Option<String>) -> (r: PollRecord)
    ensures
        match outcome {
            WorkOutcome::NotModified => opt_view(r.etag) == opt_view(*stored_etag)
                && opt_view(r.last_modified) == opt_view(*stored_last_modified) && r.status@ == STATUS_OK@,
            WorkOutcome::Content { parsed, etag, last_modified, permanent_url } => opt_view(r.etag) == opt_view(*etag)
                && opt_view(r.last_modified) == opt_view(*last_modified) && r.status@ == STATUS_OK@,
            WorkOutcome::Failed(m) => r.etag is None && r.last_modified is None && r.status@ == m@,
        },
{
    match outcome {
        WorkOutcome::NotModified => PollRecord {
            etag: crate::feed::clone_opt(stored_etag),
            last_modified: crate::feed::clone_opt(stored_last_modified),
            status: String::from_str(STATUS_OK),
        },
        WorkOutcome::Content { parsed, etag, last_modified, permanent_url } => PollRecord {
            etag: crate::feed::clone_opt(etag),
            last_modified: crate::feed::clone_opt(last_modified),
            status: String::from_str(STATUS_OK),
        },
        WorkOutcome::Failed(m) => PollRecord { etag: None, last_modified: None, status: m.clone() },
    }
}

/// The body of the notification for a round that found `new_count` new
/// articles in `feed_count` feeds.
pub open spec fn spec_new_items_text(new_count: u32, feed_count: u32) -> Seq<char> {
    if feed_count == 1 {
        decimal(new_count as nat) + " new article(s)"@
    } else {
        decimal(new_count as nat) + " new article(s) in "@ + decimal(feed_count as nat) + " feeds"@
    }
}

/// One summarized notification per poll round. Clicking it opens the viewer,
/// but not every notification server delivers actions, so the body must stand
/// on its own.
pub fn new_items_text(new_count: u32, feed_count: u32) -> (s: String)
    ensures
        s@ == spec_new_items_text(new_count, feed_count),
{
    let mut s = String::new();
    push_decimal(&mut s, new_count as u64);
    if feed_count == 1 {
        push_str(&mut s, " new article(s)");
    } else {
        push_str(&mut s, " new article(s) in ");
        push_decimal(&mut s, feed_count as u64);
        push_str(&mut s, " feeds");
    }
    assert(s@ =~= spec_new_items_text(new_count, feed_count));
    s
}

/// The tray's title: the unread count when there is any.
pub open spec fn spec_tray_title(unread: u32) -> Seq<char> {
    if unread > 0 {
        "Fodder — "@ + decimal(unread as nat) + " unread"@
    } else {
        "Fodder"@
    }
}

/// The tray's title (see [`spec_tray_title`]).
pub fn tray_title(unread: u32) -> (s: String)
    ensures
        s@ == spec_tray_title(unread),
{
    let mut s = String::new();
    if unread > 0 {
        push_str(&mut s, "Fodder — ");
        push_decimal(&mut s, unread as u64);
        push_str(&mut s, " unread");
    } else {
        push_str(&mut s, "Fodder");
    }
    assert(s@ =~= spec_tray_title(unread));
    s
}

} // verus!
