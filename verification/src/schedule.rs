//! Poll scheduling, free of clocks and I/O: whether a feed is due, and how
//! long until the earliest feed becomes due.

use vstd::prelude::*;

verus! {

/// The poll intervals offered in settings, in minutes.
pub const INTERVAL_CHOICES_MINUTES: [u32; 6] = [15, 30, 60, 240, 720, 1440];

/// Whether a feed polled at `last_polled_at` is due at `now`: never polled,
/// polled "in the future" (the clock went backwards), or its interval has
/// fully elapsed.
pub open spec fn spec_is_due(last_polled_at: Option<i64>, interval_minutes: u32, now: i64) -> bool {
    match last_polled_at {
        None => true,
        Some(t) => t > now || now >= t + interval_minutes * 60,
    }
}

/// Seconds until one feed becomes due (zero when it is due already).
pub open spec fn wait_secs(last_polled_at: Option<i64>, interval_minutes: u32, now: i64) -> int {
    match last_polled_at {
        None => 0,
        Some(t) => if t > now {
            0
        } else if t + interval_minutes * 60 - now > 0 {
            t + interval_minutes * 60 - now
        } else {
            0
        },
    }
}

/// The computation of the next poll time does not leave `i64`: the addition
/// would overflow (and panic) otherwise.
pub open spec fn schedule_fits(last_polled_at: Option<i64>, interval_minutes: u32, now: i64) -> bool {
    match last_polled_at {
        Some(t) => t <= now ==> t + interval_minutes * 60 <= i64::MAX,
        None => true,
    }
}

/// The wait computation of one feed does not leave `i64` either (the
/// subtraction would overflow otherwise).
pub open spec fn wait_fits(last_polled_at: Option<i64>, interval_minutes: u32, now: i64) -> bool {
    &&& schedule_fits(last_polled_at, interval_minutes, now)
    &&& match last_polled_at {
        Some(t) => t <= now ==> t + interval_minutes * 60 - now >= i64::MIN,
        None => true,
    }
}

/// The smallest wait over all feeds, or `None` when there are none.
pub open spec fn next_due_wait(last_polls: Seq<Option<i64>>, interval_minutes: u32, now: i64) -> Option<int>
    decreases last_polls.len(),
{
    if last_polls.len() == 0 {
        None
    } else {
        let w = wait_secs(last_polls.last(), interval_minutes, now);
        match next_due_wait(last_polls.drop_last(), interval_minutes, now) {
            None => Some(w),
            Some(m) => Some(if m <= w { m } else { w }),
        }
    }
}

/// A feed is due if it has never been polled, its interval has elapsed, or its
/// last-poll timestamp is in the future (clock moved backwards).
pub fn is_due(last_polled_at: Option<i64>, interval_minutes: u32, now: i64) -> (due: bool)
    requires
        schedule_fits(last_polled_at, interval_minutes, now),
    ensures
        due == spec_is_due(last_polled_at, interval_minutes, now),
{
    match last_polled_at {
        None => true,
        Some(t) => {
            if t > now {
                true
            } else {
                now >= t + (interval_minutes as i64) * 60
            }
        },
    }
}

/// Seconds until the earliest feed becomes due (0 if one is due now).
/// `None` when there are no feeds at all.
pub fn seconds_until_next_due(last_polls: Vec<Option<i64>>, interval_minutes: u32, now: i64) -> (res: Option<u64>)
    requires
        forall|i: int| 0 <= i < last_polls@.len() ==> wait_fits(#[trigger] last_polls@[i], interval_minutes, now),
    ensures
        match res {
            None => next_due_wait(last_polls@, interval_minutes, now) is None,
            Some(m) => next_due_wait(last_polls@, interval_minutes, now) == Some(m as int),
        },
{
    let mut best: Option<u64> = None;
    let mut i: usize = 0;
    while i < last_polls.len()
        invariant
            i <= last_polls@.len(),
            forall|k: int| 0 <= k < last_polls@.len() ==> wait_fits(#[trigger] last_polls@[k], interval_minutes, now),
            match best {
                None => next_due_wait(last_polls@.take(i as int), interval_minutes, now) is None,
                Some(m) => next_due_wait(last_polls@.take(i as int), interval_minutes, now) == Some(m as int),
            },
        decreases last_polls@.len() - i,
    {
        let lp = last_polls[i];
        let w: u64 = match lp {
            None => 0,
            Some(t) => {
                if t > now {
                    0
                } else {
                    let d = t + (interval_minutes as i64) * 60 - now;
                    if d > 0 { d as u64 } else { 0 }
                }
            },
        };
        assert(last_polls@.take(i + 1).drop_last() =~= last_polls@.take(i as int));
        assert(last_polls@.take(i + 1).last() == lp);
        best = match best {
            None => Some(w),
            Some(m) => Some(if m <= w { m } else { w }),
        };
        i = i + 1;
    }
    assert(last_polls@.take(last_polls@.len() as int) =~= last_polls@);
    best
}

/// Whether [`is_due`] can be asked about this feed: the next poll time
/// stays within `i64` (see [`schedule_fits`]).
pub fn can_schedule(last_polled_at: Option<i64>, interval_minutes: u32, now: i64) -> (b: bool)
    ensures
        b == schedule_fits(last_polled_at, interval_minutes, now),
{
    match last_polled_at {
        None => true,
        Some(t) => t > now || (t as i128) + (interval_minutes as i128) * 60 <= i64::MAX as i128,
    }
}

/// Whether this feed's wait can be computed within `i64` (see
/// [`wait_fits`]).
pub fn can_wait(last_polled_at: Option<i64>, interval_minutes: u32, now: i64) -> (b: bool)
    ensures
        b == wait_fits(last_polled_at, interval_minutes, now),
{
    match last_polled_at {
        None => true,
        Some(t) => t > now || ((t as i128) + (interval_minutes as i128) * 60 <= i64::MAX as i128
            && (t as i128) + (interval_minutes as i128) * 60 - (now as i128) >= i64::MIN as i128),
    }
}

/// A single feed is due exactly when it has nothing left to wait.
pub proof fn lemma_due_iff_no_wait(last_polled_at: Option<i64>, interval_minutes: u32, now: i64)
    ensures
        spec_is_due(last_polled_at, interval_minutes, now) <==> wait_secs(last_polled_at, interval_minutes, now) == 0,
{
}

/// The next-due wait is the smallest wait of any feed: it is at most every
/// feed's wait, and it is the wait of some feed; it is `None` only without feeds.
pub proof fn lemma_next_due_is_minimum(last_polls: Seq<Option<i64>>, interval_minutes: u32, now: i64)
    ensures
        next_due_wait(last_polls, interval_minutes, now) is None <==> last_polls.len() == 0,
        next_due_wait(last_polls, interval_minutes, now) matches Some(m) ==> {
            &&& forall|i: int| 0 <= i < last_polls.len() ==> m <= wait_secs(#[trigger] last_polls[i], interval_minutes, now)
            &&& exists|i: int| 0 <= i < last_polls.len() && m == wait_secs(#[trigger] last_polls[i], interval_minutes, now)
        },
    decreases last_polls.len(),
{
    if last_polls.len() > 0 {
        let rest = last_polls.drop_last();
        lemma_next_due_is_minimum(rest, interval_minutes, now);
        let n = last_polls.len() - 1;
        let w = wait_secs(last_polls[n], interval_minutes, now);
        match next_due_wait(rest, interval_minutes, now) {
            None => {
                assert(last_polls.len() == 1);
                assert(w == wait_secs(last_polls[0], interval_minutes, now));
            },
            Some(m) => {
                assert forall|i: int| 0 <= i < last_polls.len() implies
                    next_due_wait(last_polls, interval_minutes, now).unwrap() <= wait_secs(#[trigger] last_polls[i], interval_minutes, now) by {
                    if i < n {
                        assert(last_polls[i] == rest[i]);
                    }
                }
                if m <= w {
                    let j = choose|j: int| 0 <= j < rest.len() && m == wait_secs(#[trigger] rest[j], interval_minutes, now);
                    assert(last_polls[j] == rest[j]);
                } else {
                    assert(w == wait_secs(last_polls[n], interval_minutes, now));
                }
            },
        }
    }
}

/// The next poll is due immediately (a zero wait) exactly when some feed is
/// due now.
pub proof fn lemma_zero_wait_iff_some_feed_due(last_polls: Seq<Option<i64>>, interval_minutes: u32, now: i64)
    ensures
        next_due_wait(last_polls, interval_minutes, now) == Some(0int) <==>
            exists|i: int| 0 <= i < last_polls.len() && spec_is_due(#[trigger] last_polls[i], interval_minutes, now),
{
    lemma_next_due_is_minimum(last_polls, interval_minutes, now);
    if exists|i: int| 0 <= i < last_polls.len() && spec_is_due(#[trigger] last_polls[i], interval_minutes, now) {
        let i = choose|i: int| 0 <= i < last_polls.len() && spec_is_due(#[trigger] last_polls[i], interval_minutes, now);
        lemma_due_iff_no_wait(last_polls[i], interval_minutes, now);
        let m = next_due_wait(last_polls, interval_minutes, now).unwrap();
        assert(m <= wait_secs(last_polls[i], interval_minutes, now));
        let j = choose|j: int| 0 <= j < last_polls.len() && m == wait_secs(#[trigger] last_polls[j], interval_minutes, now);
        assert(wait_secs(last_polls[j], interval_minutes, now) >= 0);
    }
    if next_due_wait(last_polls, interval_minutes, now) == Some(0int) {
        let j = choose|j: int| 0 <= j < last_polls.len() && 0 == wait_secs(#[trigger] last_polls[j], interval_minutes, now);
        lemma_due_iff_no_wait(last_polls[j], interval_minutes, now);
    }
}

} // verus!
