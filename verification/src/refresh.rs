//! The one-line summary shown to the user when a refresh finishes.

use vstd::prelude::*;

use crate::text::{decimal, push_char, push_decimal, push_str};

verus! {

/// `1000 * 2^52`: a quotient `ms / 1000` with `ms` scaled by `2^s` into
/// `[1000 * 2^52, 1000 * 2^53)` has its binary64 significand as integer part.
pub const SIGNIFICAND_FLOOR: u64 = 4503599627370496000;

/// `ms` doubled until it reaches [`SIGNIFICAND_FLOOR`] (zero stays zero).
pub open spec fn scaled(v: nat) -> nat
    decreases (if v >= SIGNIFICAND_FLOOR { 0int } else { SIGNIFICAND_FLOOR - v }),
{
    if v == 0 || v >= SIGNIFICAND_FLOOR {
        v
    } else {
        scaled(2 * v)
    }
}

/// `ms / 1000` seconds rounded to tenths the way the binary64 quotient
/// `ms as f64 / 1000.0` prints with one decimal: to the nearest tenth, and on
/// an exact decimal half by where the binary64 quotient lies: above the half
/// (round up), below it (round down), or on it (round half to even).
/// Whether it lies above or below is the remainder of the scaled numerator
/// modulo 1000 that binary64 division rounds away.
pub open spec fn tenths(ms: nat) -> nat {
    let t = ms / 100;
    let r = ms % 100;
    if r < 50 {
        t
    } else if r > 50 {
        t + 1
    } else {
        let rem = scaled(ms) % 1000;
        if rem == 0 {
            if t % 2 == 0 { t } else { t + 1 }
        } else if rem > 500 {
            t + 1
        } else {
            t
        }
    }
}

/// `n` written with at least two digits (`{:02}`).
pub open spec fn pad2(n: nat) -> Seq<char> {
    if n < 10 { seq!['0'] + decimal(n) } else { decimal(n) }
}

/// A duration as shown to the user: `"1.8s"` below a minute, `"1m03s"` from a
/// minute on.
pub open spec fn duration_text(ms: nat) -> Seq<char> {
    if ms >= 60000 {
        let secs = ms / 1000;
        decimal(secs / 60) + seq!['m'] + pad2(secs % 60) + seq!['s']
    } else {
        let t = tenths(ms);
        decimal(t / 10) + seq!['.'] + decimal(t % 10) + seq!['s']
    }
}

/// The article count part of the summary.
pub open spec fn articles_text(n: nat) -> Seq<char> {
    if n == 0 {
        "Up to date"@
    } else if n == 1 {
        "1 new article"@
    } else {
        decimal(n) + " new articles"@
    }
}

/// The error count part of the summary (empty when there were none).
pub open spec fn errors_text(n: nat) -> Seq<char> {
    if n == 0 {
        Seq::empty()
    } else if n == 1 {
        " · "@ + "1 error"@
    } else {
        " · "@ + decimal(n) + " errors"@
    }
}

/// The whole summary: articles, errors if any, and the duration, joined by
/// `" · "`.
pub open spec fn refresh_summary(new_articles: nat, errors: nat, duration_ms: nat) -> Seq<char> {
    articles_text(new_articles) + errors_text(errors) + " · "@ + duration_text(duration_ms)
}

/// `scaled` keeps its value along the doubling.
proof fn lemma_scaled_step(v: nat)
    requires
        0 < v < SIGNIFICAND_FLOOR,
    ensures
        scaled(v) == scaled(2 * v),
{
}

/// The tenths of a second in `duration_ms`, rounded as the binary64 quotient
/// prints.
fn tenths_of(duration_ms: u64) -> (t: u64)
    requires
        duration_ms < 60000,
    ensures
        t == tenths(duration_ms as nat),
{
    let t = duration_ms / 100;
    let r = duration_ms % 100;
    if r < 50 {
        t
    } else if r > 50 {
        t + 1
    } else {
        let mut v: u64 = duration_ms;
        while v < SIGNIFICAND_FLOOR
            invariant
                0 < v < 2 * SIGNIFICAND_FLOOR,
                scaled(v as nat) == scaled(duration_ms as nat),
            decreases (if v >= SIGNIFICAND_FLOOR { 0int } else { SIGNIFICAND_FLOOR - v }),
        {
            proof {
                lemma_scaled_step(v as nat);
            }
            v = v * 2;
        }
        let rem = v % 1000;
        if rem == 0 {
            if t % 2 == 0 { t } else { t + 1 }
        } else if rem > 500 {
            t + 1
        } else {
            t
        }
    }
}

/// Format a poll duration for display. Sub-second and multi-second refreshes
/// read as `"0.6s"` / `"2.4s"`; anything past a minute switches to `"1m03s"`.
pub fn format_duration(duration_ms: u64) -> (s: String)
    ensures
        s@ == duration_text(duration_ms as nat),
{
    let mut s = String::new();
    if duration_ms >= 60000 {
        let secs = duration_ms / 1000;
        push_decimal(&mut s, secs / 60);
        push_char(&mut s, 'm');
        let rest = secs % 60;
        if rest < 10 {
            push_char(&mut s, '0');
        }
        push_decimal(&mut s, rest);
        push_char(&mut s, 's');
        proof {
            let secs_n = (duration_ms / 1000) as nat;
            assert(secs_n / 60 == (secs / 60) as nat);
            assert(secs_n % 60 == rest as nat);
        }
    } else {
        let t = tenths_of(duration_ms);
        push_decimal(&mut s, t / 10);
        push_char(&mut s, '.');
        push_decimal(&mut s, t % 10);
        push_char(&mut s, 's');
    }
    assert(s@ =~= duration_text(duration_ms as nat));
    s
}

/// Build the one-line summary shown when a refresh finishes, e.g.
/// `"Up to date · 1.8s"`, `"3 new articles · 2.4s"`, or
/// `"1 new article · 1 error · 0.6s"`.
///
/// - `new_articles`: genuinely new items inserted across the polled feed(s).
/// - `errors`: feeds whose poll hard-errored (rate limits and 304s are not errors).
/// - `duration_ms`: wall-clock time the refresh took.
pub fn format_refresh_summary(new_articles: usize, errors: usize, duration_ms: u64) -> (s: String)
    ensures
        s@ == refresh_summary(new_articles as nat, errors as nat, duration_ms as nat),
{
    let mut s = String::new();
    if new_articles == 0 {
        push_str(&mut s, "Up to date");
    } else if new_articles == 1 {
        push_str(&mut s, "1 new article");
    } else {
        push_decimal(&mut s, new_articles as u64);
        push_str(&mut s, " new articles");
    }
    let ghost after_articles = s@;
    assert(after_articles =~= articles_text(new_articles as nat));
    if errors == 1 {
        push_str(&mut s, " · ");
        push_str(&mut s, "1 error");
    } else if errors > 1 {
        push_str(&mut s, " · ");
        push_decimal(&mut s, errors as u64);
        push_str(&mut s, " errors");
    }
    assert(s@ =~= after_articles + errors_text(errors as nat));
    push_str(&mut s, " · ");
    let d = format_duration(duration_ms);
    push_str(&mut s, d.as_str());
    assert(s@ =~= refresh_summary(new_articles as nat, errors as nat, duration_ms as nat));
    s
}

} // verus!
