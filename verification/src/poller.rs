//! The poller's decisions: what a fetched response means for a feed, how
//! items are read from a fresh body, and the per-feed exponential backoff.

use vstd::prelude::*;
use vstd::arithmetic::power2::pow2;

use crate::dedupe::{guid_with_id, spec_stable_guid};
use crate::feed::{clone_opt, entry_id, opt_view, parse_document, parsed_document, spec_entry_id, RawEntry, RawFeed};
use crate::parse::{item_content, item_published, text_or_empty};
use crate::text::push_str;

verus! {

/// Nanoseconds per second.
pub const NANOS_PER_SEC: u64 = 1_000_000_000;

/// A span of time, as `std::time::Duration` holds it: whole seconds and the
/// nanoseconds below one second.
#[derive(Debug, Clone, Copy, PartialEq, Eq, Structural)]
pub struct Delay {
    pub secs: u64,
    pub nanos: u32,
}

impl Delay {
    /// Below one second of nanoseconds.
    pub open spec fn wf(self) -> bool {
        self.nanos < NANOS_PER_SEC
    }

    /// The whole span in nanoseconds.
    pub open spec fn total_nanos(self) -> nat {
        self.secs as nat * NANOS_PER_SEC as nat + self.nanos as nat
    }

    /// A span of whole seconds.
    pub fn from_secs(secs: u64) -> (d: Delay)
        ensures
            d.wf(),
            d.secs == secs,
            d.nanos == 0,
            d.total_nanos() == secs as nat * NANOS_PER_SEC as nat,
    {
        Delay { secs, nanos: 0 }
    }
}

/// The longest backoff: six hours.
pub const BACKOFF_CAP_SECS: u64 = 21600;

/// The backoff exponent: the error count, a negative count counting as none.
pub open spec fn backoff_exponent(error_count: i32) -> nat {
    if error_count < 0 {
        0
    } else {
        error_count as nat
    }
}

/// The longest backoff in nanoseconds.
pub open spec fn backoff_cap_nanos() -> nat {
    BACKOFF_CAP_SECS as nat * NANOS_PER_SEC as nat
}

/// The backoff after `error_count` failures from `base`: `base` doubled once
/// per failure, capped at six hours.
pub open spec fn backoff_nanos(error_count: i32, base: Delay) -> nat {
    let grown = base.total_nanos() * pow2(backoff_exponent(error_count));
    if grown <= backoff_cap_nanos() { grown } else { backoff_cap_nanos() }
}

/// Next backoff delay for a feed after `error_count` consecutive failures.
/// Exponential from `base`, doubling per failure, capped at 6 hours.
pub fn backoff_next(error_count: i32, base: Delay) -> (d: Delay)
    requires
        base.wf(),
    ensures
        d.wf(),
        d.total_nanos() == backoff_nanos(error_count, base),
{
    let exp: u32 = if error_count < 0 { 0 } else { error_count as u32 };
    let total: u128 = base.secs as u128 * 1_000_000_000u128 + base.nanos as u128;
    assert(total as nat == base.total_nanos());
    let cap: u128 = 21_600_000_000_000u128;
    let mut grown: u128 = total;
    let mut k: u32 = 0;
    proof {
        vstd::arithmetic::power2::lemma2_to64();
    }
    // Once the delay reaches the cap, or is zero, further doubling does not
    // change the capped result.
    while k < exp && 0 < grown && grown < cap
        invariant
            k <= exp,
            cap == 21_600_000_000_000u128,
            grown == total * pow2(k as nat),
        decreases exp - k,
    {
        proof {
            vstd::arithmetic::power2::lemma_pow2_unfold((k + 1) as nat);
            assert(total * pow2((k + 1) as nat) == 2 * (total * pow2(k as nat))) by (nonlinear_arith)
                requires
                    pow2((k + 1) as nat) == 2 * pow2(k as nat),
            ;
        }
        grown = grown * 2;
        k = k + 1;
    }
    proof {
        let e = exp as nat;
        assert(e == backoff_exponent(error_count));
        let full = total * pow2(e);
        if k < exp {
            vstd::arithmetic::power2::lemma_pow2_strictly_increases(k as nat, e);
            vstd::arithmetic::power2::lemma_pow2_pos(k as nat);
            if grown == 0 {
                assert(total == 0) by (nonlinear_arith)
                    requires
                        grown == total * pow2(k as nat),
                        grown == 0,
                        pow2(k as nat) > 0,
                ;
                assert(full == 0) by (nonlinear_arith)
                    requires
                        total == 0,
                        full == total * pow2(e),
                ;
            } else {
                assert(full >= grown) by (nonlinear_arith)
                    requires
                        grown == total * pow2(k as nat),
                        full == total * pow2(e),
                        pow2(k as nat) < pow2(e),
                ;
            }
        }
    }
    let t: u128 = if grown <= cap { grown } else { cap };
    assert(t == backoff_nanos(error_count, base));
    let secs: u64 = (t / 1_000_000_000u128) as u64;
    let nanos: u32 = (t % 1_000_000_000u128) as u32;
    let d = Delay { secs, nanos };
    assert(d.total_nanos() == t) by (nonlinear_arith)
        requires
            t <= cap,
            cap == 21600 * 1_000_000_000,
            secs == t / 1_000_000_000,
            nanos == t % 1_000_000_000,
            d.total_nanos() == secs * 1_000_000_000 + nanos,
    ;
    d
}

/// The backoff never exceeds six hours.
pub proof fn lemma_backoff_capped(error_count: i32, base: Delay)
    ensures
        backoff_nanos(error_count, base) <= backoff_cap_nanos(),
{
}

/// One more failure doubles the backoff, up to the cap.
pub proof fn lemma_backoff_doubles(error_count: i32, base: Delay)
    requires
        0 <= error_count < i32::MAX,
    ensures
        backoff_nanos((error_count + 1) as i32, base) == (if 2 * backoff_nanos(error_count, base)
            <= backoff_cap_nanos() {
            2 * backoff_nanos(error_count, base)
        } else {
            backoff_cap_nanos()
        }),
{
    let e = error_count as nat;
    vstd::arithmetic::power2::lemma_pow2_unfold(e + 1);
    let t = base.total_nanos();
    assert(t * pow2(e + 1) == 2 * (t * pow2(e))) by (nonlinear_arith)
        requires
            pow2(e + 1) == 2 * pow2(e),
    ;
}

/// A longer run of failures never backs off less.
pub proof fn lemma_backoff_monotone(e1: i32, e2: i32, base: Delay)
    requires
        e1 <= e2,
    ensures
        backoff_nanos(e1, base) <= backoff_nanos(e2, base),
{
    let x1 = backoff_exponent(e1);
    let x2 = backoff_exponent(e2);
    if x1 < x2 {
        vstd::arithmetic::power2::lemma_pow2_strictly_increases(x1, x2);
    }
    let t = base.total_nanos();
    assert(t * pow2(x1) <= t * pow2(x2)) by (nonlinear_arith)
        requires
            pow2(x1) <= pow2(x2),
    ;
}

/// A parsed item that has not been stored yet.
#[derive(Debug, Clone)]
pub struct NewArticle {
    /// The dedup key (see [`crate::dedupe::stable_guid`]).
    pub guid: String,
    pub title: String,
    pub url: Option<String>,
    pub content: Option<String>,
    /// Publication time (else last modification), unix seconds.
    pub published: Option<i64>,
}

/// An article carries its entry's full content when the entry has any; the
/// summary stands in only when there is no content.
pub proof fn lemma_article_prefers_content(a: NewArticle, e: RawEntry)
    requires
        is_article_of(a, e),
    ensures
        e.content matches Some(c) ==> opt_view(a.content) == Some(c@),
        e.content is None ==> opt_view(a.content) == opt_view(e.summary),
{
}

/// What a conditional GET of a feed answered.
#[derive(Debug)]
pub enum FetchResponse {
    /// 304: nothing changed.
    NotModified,
    /// The server asked us to wait before asking again.
    RateLimited { retry_after: Delay },
    /// Transport or status failure, with its message.
    Error(String),
    /// A fresh body, with the validators to send next time.
    Modified { etag: Option<String>, last_modified: Option<String>, body: Vec<u8> },
}

/// The result of polling one feed.
#[derive(Debug)]
pub enum PollOutcome {
    /// 304: nothing changed; just reschedule.
    NotModified,
    /// New content parsed. Carries fresh validators and the parsed items
    /// (already deduped by GUID at the DB layer on insert).
    Updated {
        title: Option<String>,
        etag: Option<String>,
        last_modified: Option<String>,
        items: Vec<NewArticle>,
    },
    /// Server rate-limited us; retry no sooner than `retry_after`.
    RateLimited { retry_after: Delay },
    /// Transport, status, or parse error.
    Error(String),
}

/// `a` is the article made of entry `e`.
pub open spec fn is_article_of(a: NewArticle, e: RawEntry) -> bool {
    &&& a.guid@ == spec_stable_guid(spec_entry_id(e), e)
    &&& a.title@ == text_or_empty(e.title)
    &&& opt_view(a.url) == (if e.links@.len() > 0 { Some(e.links@[0].href@) } else { None::<Seq<char>> })
    &&& opt_view(a.content) == item_content(e)
    &&& a.published == item_published(e)
}

/// `items` are the articles of the document `raw`, in order.
pub open spec fn are_articles_of(items: Seq<NewArticle>, raw: RawFeed) -> bool {
    &&& items.len() == raw.entries@.len()
    &&& forall|i: int| 0 <= i < items.len() ==> is_article_of(#[trigger] items[i], raw.entries@[i])
}

/// The article for one document entry: stable GUID (of the id feed-rs
/// assigns), title (empty if none), first link,
/// content body (else summary), publication (else update) time.
pub fn article_of(entry: &RawEntry) -> (a: NewArticle)
    ensures
        is_article_of(a, *entry),
{
    let id = entry_id(entry);
    let guid = guid_with_id(entry, id.as_str());
    let title = match &entry.title {
        Some(t) => t.clone(),
        None => String::new(),
    };
    let url = if entry.links.len() > 0 {
        Some(entry.links[0].href.clone())
    } else {
        None
    };
    let content = match &entry.content {
        Some(c) => Some(c.clone()),
        None => clone_opt(&entry.summary),
    };
    let published = match entry.published {
        Some(t) => Some(t),
        None => entry.updated,
    };
    NewArticle { guid, title, url, content, published }
}

/// The title and articles of a parsed document.
pub fn articles_from_document(raw: &RawFeed) -> (r: (Option<String>, Vec<NewArticle>))
    ensures
        opt_view(r.0) == opt_view(raw.title),
        are_articles_of(r.1@, *raw),
{
    let mut items: Vec<NewArticle> = Vec::new();
    let n = raw.entries.len();
    let mut i: usize = 0;
    while i < n
        invariant
            n == raw.entries@.len(),
            i <= n,
            items@.len() == i,
            forall|k: int| 0 <= k < i ==> is_article_of(#[trigger] items@[k], raw.entries@[k]),
        decreases n - i,
    {
        items.push(article_of(&raw.entries[i]));
        i = i + 1;
    }
    (clone_opt(&raw.title), items)
}

/// Parse raw feed bytes into a title and article list. Handles RSS/Atom/JSON
/// Feed via `feed-rs`'s auto-detection; a document it cannot read gives the
/// parser's message.
pub fn parse_items(bytes: &[u8]) -> (r: Result<(Option<String>, Vec<NewArticle>), String>)
    ensures
        match parsed_document(bytes@) {
            Ok(raw) => r is Ok && opt_view(r->Ok_0.0) == opt_view(raw.title) && are_articles_of(r->Ok_0.1@, raw),
            Err(m) => r is Err && r->Err_0@ == m,
        },
{
    match parse_document(bytes) {
        Ok(raw) => Ok(articles_from_document(&raw)),
        Err(e) => Err(e),
    }
}

/// `o` is what [`outcome_of`] makes of a response, given what parsing its
/// body (if any) gave.
pub open spec fn is_outcome_of(o: PollOutcome, resp: FetchResponse) -> bool {
    match resp {
        FetchResponse::NotModified => o is NotModified,
        FetchResponse::RateLimited { retry_after } => o == PollOutcome::RateLimited { retry_after },
        FetchResponse::Error(e) => o matches PollOutcome::Error(m) && m@ == e@,
        FetchResponse::Modified { etag, last_modified, body } => match parsed_document(body@) {
            Ok(raw) => o matches PollOutcome::Updated { title, etag: et, last_modified: lm, items }
                && opt_view(title) == opt_view(raw.title) && opt_view(et) == opt_view(etag)
                && opt_view(lm) == opt_view(last_modified) && are_articles_of(items@, raw),
            Err(m) => o matches PollOutcome::Error(msg) && msg@ == "parse: "@ + m,
        },
    }
}

/// What a fetched response means for the feed: 304, rate limit and errors
/// pass through; a fresh body is parsed into its title and articles, and a
/// body that is no feed becomes an error `"parse: ..."`.
pub fn outcome_of(resp: FetchResponse) -> (o: PollOutcome)
    ensures
        is_outcome_of(o, resp),
{
    match resp {
        FetchResponse::NotModified => PollOutcome::NotModified,
        FetchResponse::RateLimited { retry_after } => PollOutcome::RateLimited { retry_after },
        FetchResponse::Error(e) => PollOutcome::Error(e),
        FetchResponse::Modified { etag, last_modified, body } => match parse_items(body.as_slice()) {
            Ok((title, items)) => PollOutcome::Updated { title, etag, last_modified, items },
            Err(e) => {
                let mut m = String::new();
                push_str(&mut m, "parse: ");
                push_str(&mut m, e.as_str());
                PollOutcome::Error(m)
            },
        },
    }
}

} // verus!
