//! The short texts that the viewer shows beside articles and feeds: an
//! article's meta line, a list row's byline, a discovered feed's title.

use vstd::prelude::*;

use crate::feed::opt_view;
use crate::models::{Item, ItemSummary};
use crate::text::{push_str, trim, trim_spec};

verus! {

/// The text that chrono writes for the UTC time `secs` seconds after the
/// epoch with the `strftime` pattern `pattern`, or `None` when the time lies
/// outside chrono's range.
pub uninterp spec fn utc_text(secs: i64, pattern: Seq<char>) -> Option<Seq<char>>;

/// The date patterns that the viewer uses: date and time, or date alone.
pub open spec fn known_pattern(pattern: Seq<char>) -> bool {
    pattern == "%b %e, %Y %H:%M"@ || pattern == "%b %e, %Y"@
}

/// `chrono::DateTime::from_timestamp(secs, 0)` (UTC), formatted with
/// `format(pattern)`. The contract claims only that the result is
/// [`utc_text`] of the two; the pattern is one whose items chrono can all
/// write (an invalid one makes `to_string` panic).
#[verifier::external_body]
fn format_utc(secs: i64, pattern: &str) -> (r: Option<String>)
    requires
        known_pattern(pattern@),
    ensures
        opt_view(r) == utc_text(secs, pattern@),
{
    chrono::DateTime::from_timestamp(secs, 0).map(|dt| dt.format(pattern).to_string())
}

/// What separates the parts of an article's meta line.
pub open spec fn meta_separator() -> Seq<char> {
    "  ·  "@
}

/// The meta line of an article: the feed's title, then the author if there
/// is one, then the publication time if there is one that chrono can write,
/// separated by [`meta_separator`].
pub open spec fn spec_format_meta(author: Option<Seq<char>>, published_at: Option<i64>, feed_title: Seq<char>) -> Seq<char> {
    let with_author = match author {
        Some(a) => feed_title + meta_separator() + a,
        None => feed_title,
    };
    let date = match published_at {
        Some(ts) => utc_text(ts, "%b %e, %Y %H:%M"@),
        None => None,
    };
    match date {
        Some(d) => with_author + meta_separator() + d,
        None => with_author,
    }
}

/// The meta line shown above an article.
pub fn format_meta(item: &Item, feed_title: &str) -> (meta: String)
    ensures
        meta@ == spec_format_meta(opt_view(item.author), item.published_at, feed_title@),
{
    let mut out = String::new();
    push_str(&mut out, feed_title);
    match &item.author {
        Some(a) => {
            push_str(&mut out, "  ·  ");
            push_str(&mut out, a.as_str());
        },
        None => {},
    }
    match item.published_at {
        Some(ts) => match format_utc(ts, "%b %e, %Y %H:%M") {
            Some(d) => {
                push_str(&mut out, "  ·  ");
                push_str(&mut out, d.as_str());
            },
            None => {},
        },
        None => {},
    }
    proof {
        assert(out@ =~= spec_format_meta(opt_view(item.author), item.published_at, feed_title@));
    }
    out
}

/// The byline of an article in a list: its date (publication time, else
/// fetch time; empty if chrono cannot write it), after the author and ` · `
/// when there is an author.
pub open spec fn spec_item_meta(author: Option<Seq<char>>, published_at: Option<i64>, fetched_at: i64) -> Seq<char> {
    let when = match published_at {
        Some(p) => p,
        None => fetched_at,
    };
    let date = match utc_text(when, "%b %e, %Y"@) {
        Some(d) => d,
        None => Seq::empty(),
    };
    match author {
        Some(a) => a + " · "@ + date,
        None => date,
    }
}

/// The byline of an article row.
pub fn item_meta(item: &ItemSummary) -> (meta: String)
    ensures
        meta@ == spec_item_meta(opt_view(item.author), item.published_at, item.fetched_at),
{
    let when = match item.published_at {
        Some(p) => p,
        None => item.fetched_at,
    };
    let date = match format_utc(when, "%b %e, %Y") {
        Some(d) => d,
        None => String::new(),
    };
    let mut out = String::new();
    match &item.author {
        Some(a) => {
            push_str(&mut out, a.as_str());
            push_str(&mut out, " · ");
        },
        None => {},
    }
    push_str(&mut out, date.as_str());
    proof {
        assert(out@ =~= spec_item_meta(opt_view(item.author), item.published_at, item.fetched_at));
    }
    out
}

/// A feed that discovery found on a page: its URL and the title it gives.
#[derive(Debug, Clone)]
pub struct DiscoveredFeed {
    pub url: String,
    pub title: Option<String>,
}

/// The title under which to subscribe to a discovered feed: its own title
/// unless blank, else its URL unless blank, else the URL the user entered.
pub open spec fn spec_title_for(title: Option<Seq<char>>, url: Seq<char>, user_url: Seq<char>) -> Seq<char> {
    match title {
        Some(t) if trim_spec(t).len() > 0 => t,
        _ => if trim_spec(url).len() == 0 { user_url } else { url },
    }
}

/// The title under which to subscribe to `feed`.
pub fn title_for(feed: &DiscoveredFeed, user_url: &str) -> (title: String)
    ensures
        title@ == spec_title_for(opt_view(feed.title), feed.url@, user_url@),
{
    match &feed.title {
        Some(t) => {
            if trim(t.as_str()).unicode_len() > 0 {
                return t.clone();
            }
        },
        None => {},
    }
    if trim(feed.url.as_str()).unicode_len() == 0 {
        let mut out = String::new();
        push_str(&mut out, user_url);
        out
    } else {
        feed.url.clone()
    }
}

} // verus!
