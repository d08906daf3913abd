//! The async daemon's scheduling decisions: when each feed is polled next
//! after an outcome, and how long the scheduler sleeps. Times are unix
//! seconds.

use vstd::prelude::*;

use vstd::arithmetic::power2::pow2;

use crate::poller::{backoff_nanos, backoff_next, Delay, NANOS_PER_SEC};

verus! {

/// Base unit for per-feed exponential backoff after errors: one minute.
pub const BACKOFF_BASE_SECS: u64 = 60;

/// Sleep when no feeds exist yet, so new subscriptions are still noticed.
pub const IDLE_SLEEP_SECS: u64 = 60;

/// The longest the scheduler sleeps between checks.
pub const MAX_SLEEP_SECS: u64 = 3600;

/// Retry delay used when a server's `Retry-After` is too large to add.
pub const RATE_LIMIT_FALLBACK_SECS: u64 = 300;

/// The largest span, in nanoseconds, that a calendar duration holds:
/// `i64::MAX` milliseconds.
pub const MAX_SPAN_NANOS: u128 = 9223372036854775807000000;

/// `now` plus the whole seconds of `d`.
pub open spec fn later(now: i64, d: Delay) -> int {
    now + d.secs
}

/// The next poll after success or a 304: one interval from now.
pub fn next_after_success(now: i64, interval: Delay) -> (t: i64)
    requires
        interval.secs <= i64::MAX,
        now + interval.secs <= i64::MAX,
    ensures
        t == later(now, interval),
{
    now + (interval.secs as i64)
}

/// The next poll after a rate limit: `retry_after` from now, or five minutes
/// when `retry_after` is beyond what a calendar duration holds.
pub open spec fn spec_after_rate_limit(now: i64, retry_after: Delay) -> int {
    if retry_after.total_nanos() > MAX_SPAN_NANOS {
        now + RATE_LIMIT_FALLBACK_SECS
    } else {
        now + retry_after.secs
    }
}

/// The next poll after a rate limit (see [`spec_after_rate_limit`]).
pub fn next_after_rate_limit(now: i64, retry_after: Delay) -> (t: i64)
    requires
        retry_after.wf(),
        now + RATE_LIMIT_FALLBACK_SECS <= i64::MAX,
        now + retry_after.secs <= i64::MAX || retry_after.total_nanos() > MAX_SPAN_NANOS,
    ensures
        t == spec_after_rate_limit(now, retry_after),
{
    let total: u128 = (retry_after.secs as u128) * 1_000_000_000 + (retry_after.nanos as u128);
    if total > MAX_SPAN_NANOS {
        now + (RATE_LIMIT_FALLBACK_SECS as i64)
    } else {
        now + (retry_after.secs as i64)
    }
}

/// What a failed poll records: the error count, one more than before, and
/// the next poll time, after the backoff for that count.
pub fn next_after_error(now: i64, error_count: i32) -> (r: (i32, i64))
    requires
        error_count < i32::MAX,
        now + 21600 <= i64::MAX,
    ensures
        r.0 == error_count + 1,
        r.1 == now + backoff_nanos((error_count + 1) as i32, Delay { secs: BACKOFF_BASE_SECS, nanos: 0 }) / (NANOS_PER_SEC as nat),
{
    let count = error_count + 1;
    let backoff = backoff_next(count, Delay::from_secs(BACKOFF_BASE_SECS));
    proof {
        crate::poller::lemma_backoff_capped(count, Delay { secs: BACKOFF_BASE_SECS, nanos: 0 });
        assert(backoff.secs as nat == backoff.total_nanos() / (NANOS_PER_SEC as nat)) by (nonlinear_arith)
            requires
                backoff.total_nanos() == backoff.secs as nat * 1_000_000_000 + backoff.nanos as nat,
                backoff.nanos < 1_000_000_000,
        ;
        assert(backoff.secs <= 21600) by (nonlinear_arith)
            requires
                backoff.total_nanos() == backoff.secs as nat * 1_000_000_000 + backoff.nanos as nat,
                backoff.total_nanos() <= 21600 * 1_000_000_000,
        ;
    }
    (count, now + (backoff.secs as i64))
}

/// How long the scheduler sleeps: until the soonest next poll, at most an
/// hour; nothing when one is overdue; a minute when there are no feeds.
pub open spec fn spec_next_wait(next_polls: Seq<i64>, now: i64) -> int {
    if next_polls.len() == 0 {
        IDLE_SLEEP_SECS as int
    } else {
        let soonest = seq_min(next_polls);
        if soonest > now {
            if soonest - now > MAX_SLEEP_SECS { MAX_SLEEP_SECS as int } else { soonest - now }
        } else {
            0
        }
    }
}

/// The smallest element of a non-empty sequence.
pub open spec fn seq_min(s: Seq<i64>) -> i64
    decreases s.len(),
{
    if s.len() <= 1 {
        s[0]
    } else {
        let m = seq_min(s.drop_last());
        if s.last() < m { s.last() } else { m }
    }
}

/// Seconds the scheduler sleeps (see [`spec_next_wait`]).
pub fn next_wait(next_polls: &Vec<i64>, now: i64) -> (w: u64)
    ensures
        w == spec_next_wait(next_polls@, now),
{
    let n = next_polls.len();
    if n == 0 {
        return IDLE_SLEEP_SECS;
    }
    let mut soonest: i64 = next_polls[0];
    let mut i: usize = 1;
    assert(next_polls@.take(1).drop_last().len() == 0);
    while i < n
        invariant
            n == next_polls@.len(),
            1 <= i <= n,
            soonest == seq_min(next_polls@.take(i as int)),
        decreases n - i,
    {
        assert(next_polls@.take(i + 1).drop_last() =~= next_polls@.take(i as int));
        if next_polls[i] < soonest {
            soonest = next_polls[i];
        }
        i = i + 1;
    }
    assert(next_polls@.take(n as int) =~= next_polls@);
    if soonest > now {
        let d: i128 = (soonest as i128) - (now as i128);
        if d > MAX_SLEEP_SECS as i128 { MAX_SLEEP_SECS } else { d as u64 }
    } else {
        0
    }
}

/// Whether a feed's stored title changes: the feed now advertises a
/// non-empty title that differs from it.
pub open spec fn spec_title_changes(advertised: Option<Seq<char>>, stored: Seq<char>) -> bool {
    match advertised {
        Some(t) => t.len() > 0 && t != stored,
        None => false,
    }
}

/// Whether to store the title a feed now advertises (see
/// [`spec_title_changes`]).
pub fn title_changes(advertised: &Option<String>, stored: &str) -> (b: bool)
    ensures
        b == spec_title_changes(crate::feed::opt_view(*advertised), stored@),
{
    match advertised {
        Some(t) => !t.as_str().is_empty() && !crate::text::same_text(t.as_str(), stored),
        None => false,
    }
}

/// The smallest element of a non-empty sequence is one of its elements and
/// is at most each of them.
pub proof fn lemma_seq_min_is_least(s: Seq<i64>)
    requires
        s.len() > 0,
    ensures
        s.contains(seq_min(s)),
        forall|i: int| 0 <= i < s.len() ==> seq_min(s) <= #[trigger] s[i],
    decreases s.len(),
{
    if s.len() == 1 {
        assert(s[0] == seq_min(s));
    } else {
        let t = s.drop_last();
        lemma_seq_min_is_least(t);
        let m = seq_min(t);
        let k = choose|k: int| 0 <= k < t.len() && t[k] == m;
        assert(s[k] == t[k]);
        if s.last() < m {
            assert(s[s.len() - 1] == seq_min(s));
        } else {
            assert(s[k] == seq_min(s));
        }
        assert forall|i: int| 0 <= i < s.len() implies seq_min(s) <= #[trigger] s[i] by {
            if i < s.len() - 1 {
                assert(s[i] == t[i]);
            }
        }
    }
}

/// The scheduler sleeps until the soonest next poll: never past any feed's
/// next poll time, never more than an hour, and exactly until some feed's
/// time (or not at all when one is overdue). Without feeds it idles.
pub proof fn lemma_next_wait_is_soonest(next_polls: Seq<i64>, now: i64)
    ensures
        next_polls.len() == 0 ==> spec_next_wait(next_polls, now) == IDLE_SLEEP_SECS,
        next_polls.len() > 0 ==> {
            let w = spec_next_wait(next_polls, now);
            &&& 0 <= w <= MAX_SLEEP_SECS
            &&& forall|i: int| 0 <= i < next_polls.len() ==> w <= (if #[trigger] next_polls[i] > now {
                next_polls[i] - now
            } else {
                0
            })
            &&& exists|i: int| 0 <= i < next_polls.len() && {
                let d = if #[trigger] next_polls[i] > now { next_polls[i] - now } else { 0 };
                w == (if d > MAX_SLEEP_SECS { MAX_SLEEP_SECS as int } else { d })
            }
        },
{
    if next_polls.len() > 0 {
        lemma_seq_min_is_least(next_polls);
        let m = seq_min(next_polls);
        let k = choose|k: int| 0 <= k < next_polls.len() && next_polls[k] == m;
        assert(next_polls[k] == m);
    }
}

/// After a failure the next poll is scheduled a minute doubled once per
/// failure so far from now, but never more than six hours away.
pub proof fn lemma_error_retry_delay(now: i64, error_count: i32)
    requires
        0 <= error_count < i32::MAX,
    ensures
        ({
            let e = (error_count + 1) as nat;
            let t = now + backoff_nanos((error_count + 1) as i32, Delay { secs: BACKOFF_BASE_SECS, nanos: 0 }) / (
            NANOS_PER_SEC as nat);
            t - now == (if 60 * pow2(e) <= 21600 { 60 * pow2(e) } else { 21600 })
        }),
{
    let e = (error_count + 1) as nat;
    let p = pow2(e);
    let grown = 60_000_000_000 * p;
    assert(Delay { secs: BACKOFF_BASE_SECS, nanos: 0 }.total_nanos() == 60_000_000_000);
    assert(grown == 1_000_000_000 * (60 * p)) by (nonlinear_arith)
        requires
            grown == 60_000_000_000 * p,
    ;
    if 60 * p <= 21600 {
        assert(grown <= 21_600_000_000_000) by (nonlinear_arith)
            requires
                grown == 1_000_000_000 * (60 * p),
                60 * p <= 21600,
        ;
        assert(grown / 1_000_000_000 == 60 * p) by (nonlinear_arith)
            requires
                grown == 1_000_000_000 * (60 * p),
        ;
    } else {
        assert(grown > 21_600_000_000_000) by (nonlinear_arith)
            requires
                grown == 1_000_000_000 * (60 * p),
                60 * p > 21600,
        ;
    }
}

} // verus!
