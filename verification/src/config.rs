//! The user configuration (`config.toml`): its defaults, its invariants, and
//! the parsing of the daily-reminder time.

use vstd::prelude::*;
use vstd::string::*;

use crate::text::{
    decimal, push_decimal, push_str, parse_u32, spec_parse_u32, trim, trim_spec,
};

use crate::poller::Delay;

verus! {

/// The minimum allowed poll interval, in minutes. Enforced on load and save so
/// a hand-edited config can never poll more aggressively than this.
pub const MIN_POLL_INTERVAL_MINUTES: u32 = 5;

/// Default poll interval when no config exists yet.
pub const DEFAULT_POLL_INTERVAL_MINUTES: u32 = 30;

/// Default daily-reminder time (local, 24-hour).
pub const DEFAULT_REMINDER_TIME: &'static str = "10:00";

/// Default number of concurrent feed fetches.
pub const DEFAULT_POLL_CONCURRENCY: usize = 8;

/// Why a configuration was refused or could not be read or written.
pub enum ConfigError {
    /// The poll interval is below [`MIN_POLL_INTERVAL_MINUTES`].
    PollIntervalTooSmall(u32),
    /// Reading or writing the file failed (the I/O error's text).
    Io(String),
    /// The file is not valid TOML for a configuration (the parser's text).
    Parse(String),
    /// The configuration could not be rendered as TOML (the serializer's text).
    Serialize(String),
}

/// The configuration file's contents.
pub struct Config {
    /// Poll interval in minutes; validated to be >= [`MIN_POLL_INTERVAL_MINUTES`].
    pub poll_interval_minutes: u32,
    /// Mirror of whether the autostart `.desktop` file is installed. The file
    /// on disk is the source of truth; this is a convenience cache for the UI.
    pub autostart: bool,
    /// Max concurrent feed fetches per poll cycle.
    pub poll_concurrency: usize,
    /// Master switch for all desktop notifications.
    pub notifications_enabled: bool,
    /// Notify (per feed) when polling finds new articles.
    pub notify_new_articles: bool,
    /// Send a once-a-day reminder to read, if there are unread articles.
    pub daily_reminder_enabled: bool,
    /// Local time of the daily reminder, as `"HH:MM"` (24-hour).
    pub daily_reminder_time: String,
}

/// The index of the first occurrence of `c` in `t`, if any.
pub open spec fn first_index_of(t: Seq<char>, c: char) -> Option<int> {
    if exists|i: int| 0 <= i < t.len() && t[i] == c && (forall|j: int| 0 <= j < i ==> t[j] != c) {
        Some(choose|i: int| 0 <= i < t.len() && t[i] == c && (forall|j: int| 0 <= j < i ==> t[j] != c))
    } else {
        None
    }
}

/// The reminder time `"HH:MM"` read as `(hour, minute)`: the text is split at
/// its first `:`, each side is trimmed and read as a `u32`, and the pair must
/// be a valid 24-hour time.
pub open spec fn spec_reminder_hm(t: Seq<char>) -> Option<(u32, u32)> {
    match first_index_of(t, ':') {
        None => None,
        Some(i) => match (spec_parse_u32(trim_spec(t.take(i))), spec_parse_u32(trim_spec(t.skip(i + 1)))) {
            (Some(h), Some(m)) => if h < 24 && m < 60 {
                Some((h, m))
            } else {
                None
            },
            _ => None,
        },
    }
}

/// What [`Config::normalized`] makes of a configuration read from disk.
pub open spec fn normalized_fields(c: Config) -> (u32, usize, Seq<char>) {
    (
        if c.poll_interval_minutes < MIN_POLL_INTERVAL_MINUTES { MIN_POLL_INTERVAL_MINUTES } else { c.poll_interval_minutes },
        if c.poll_concurrency == 0 { 1 } else { c.poll_concurrency },
        if spec_reminder_hm(c.daily_reminder_time@) is Some { c.daily_reminder_time@ } else { DEFAULT_REMINDER_TIME@ },
    )
}

/// Finds the first `c` in `s`.
fn find_char(s: &str, c: char) -> (res: Option<usize>)
    ensures
        match res {
            None => first_index_of(s@, c) is None,
            Some(i) => first_index_of(s@, c) == Some(i as int),
        },
{
    let n = s.unicode_len();
    let mut i: usize = 0;
    while i < n
        invariant
            n == s@.len(),
            i <= n,
            forall|j: int| 0 <= j < i ==> s@[j] != c,
        decreases n - i,
    {
        if s.get_char(i) == c {
            proof {
                let w = choose|k: int| 0 <= k < s@.len() && s@[k] == c && (forall|j: int| 0 <= j < k ==> s@[j] != c);
                if w < i {
                } else if w > i {
                    assert(s@[i as int] != c);
                }
            }
            return Some(i);
        }
        i = i + 1;
    }
    None
}

/// Reads a reminder time `"HH:MM"` into `(hour, minute)`.
pub fn parse_reminder_time(t: &str) -> (res: Option<(u32, u32)>)
    ensures
        res == spec_reminder_hm(t@),
{
    let n = t.unicode_len();
    match find_char(t, ':') {
        None => None,
        Some(i) => {
            let hs = trim(t.substring_char(0, i));
            let ms = trim(t.substring_char(i + 1, n));
            assert(t@.subrange(0, i as int) =~= t@.take(i as int));
            assert(t@.subrange(i + 1, n as int) =~= t@.skip(i + 1));
            let h = parse_u32(hs.as_str());
            let m = parse_u32(ms.as_str());
            match (h, m) {
                (Some(h), Some(m)) => {
                    if h < 24 && m < 60 {
                        Some((h, m))
                    } else {
                        None
                    }
                },
                _ => None,
            }
        },
    }
}

impl Config {
    /// The default configuration.
    pub open spec fn spec_default_fields(self) -> bool {
        &&& self.poll_interval_minutes == DEFAULT_POLL_INTERVAL_MINUTES
        &&& !self.autostart
        &&& self.poll_concurrency == DEFAULT_POLL_CONCURRENCY
        &&& self.notifications_enabled
        &&& self.notify_new_articles
        &&& !self.daily_reminder_enabled
        &&& self.daily_reminder_time@ == DEFAULT_REMINDER_TIME@
    }

    /// Whether the configuration satisfies its invariant.
    pub open spec fn is_valid(self) -> bool {
        self.poll_interval_minutes >= MIN_POLL_INTERVAL_MINUTES
    }

    /// Check the invariant. Returns an error if the interval is below the
    /// minimum rather than silently clamping, so the UI can surface it.
    pub fn validate(&self) -> (res: Result<(), ConfigError>)
        ensures
            res is Ok <==> self.is_valid(),
            res matches Err(e) ==> e == ConfigError::PollIntervalTooSmall(self.poll_interval_minutes),
    {
        if self.poll_interval_minutes < MIN_POLL_INTERVAL_MINUTES {
            return Err(ConfigError::PollIntervalTooSmall(self.poll_interval_minutes));
        }
        Ok(())
    }

    /// The poll interval as a span of whole seconds.
    pub fn poll_interval(&self) -> (d: Delay)
        ensures
            d.wf(),
            d.secs == self.poll_interval_minutes * 60,
            d.nanos == 0,
    {
        Delay::from_secs((self.poll_interval_minutes as u64) * 60)
    }

    /// Parse [`Config::daily_reminder_time`] into `(hour, minute)`, or `None` if
    /// it isn't a valid 24-hour `"HH:MM"`.
    pub fn reminder_hm(&self) -> (res: Option<(u32, u32)>)
        ensures
            res == spec_reminder_hm(self.daily_reminder_time@),
            res matches Some((h, m)) ==> h < 24 && m < 60,
    {
        parse_reminder_time(self.daily_reminder_time.as_str())
    }

    /// When the daily reminder fires, if at all: only with notifications and
    /// the reminder switched on and a readable time.
    pub fn reminder_schedule(&self) -> (res: Option<(u32, u32)>)
        ensures
            res == (if self.notifications_enabled && self.daily_reminder_enabled {
                spec_reminder_hm(self.daily_reminder_time@)
            } else {
                None
            }),
    {
        if self.notifications_enabled && self.daily_reminder_enabled {
            self.reminder_hm()
        } else {
            None
        }
    }

    /// Repair a configuration read from disk: an interval below the minimum
    /// is raised to it, a zero concurrency becomes one, and an unreadable
    /// reminder time is reset to the default. Everything else is kept.
    pub fn normalized(self) -> (c: Config)
        ensures
            (c.poll_interval_minutes, c.poll_concurrency, c.daily_reminder_time@) == normalized_fields(self),
            c.autostart == self.autostart,
            c.notifications_enabled == self.notifications_enabled,
            c.notify_new_articles == self.notify_new_articles,
            c.daily_reminder_enabled == self.daily_reminder_enabled,
    {
        let mut cfg = self;
        if cfg.poll_interval_minutes < MIN_POLL_INTERVAL_MINUTES {
            cfg.poll_interval_minutes = MIN_POLL_INTERVAL_MINUTES;
        }
        if cfg.poll_concurrency == 0 {
            cfg.poll_concurrency = 1;
        }
        if cfg.reminder_hm().is_none() {
            cfg.daily_reminder_time = String::from_str(DEFAULT_REMINDER_TIME);
        }
        cfg
    }
}

impl Default for Config {
    fn default() -> (c: Config)
        ensures
            c.spec_default_fields(),
    {
        Config {
            poll_interval_minutes: DEFAULT_POLL_INTERVAL_MINUTES,
            autostart: false,
            poll_concurrency: DEFAULT_POLL_CONCURRENCY,
            notifications_enabled: true,
            notify_new_articles: true,
            daily_reminder_enabled: false,
            daily_reminder_time: String::from_str(DEFAULT_REMINDER_TIME),
        }
    }
}

impl ConfigError {
    /// The human-readable text of the error.
    pub fn message(&self) -> (m: String)
        ensures
            self matches ConfigError::PollIntervalTooSmall(n) ==> m@ ==
                "poll interval must be at least "@ + decimal(MIN_POLL_INTERVAL_MINUTES as nat) + " minutes, got "@
                + decimal(n as nat),
            self matches ConfigError::Io(t) ==> m@ == "reading config: "@ + t@,
            self matches ConfigError::Parse(t) ==> m@ == "parsing config TOML: "@ + t@,
            self matches ConfigError::Serialize(t) ==> m@ == "serializing config TOML: "@ + t@,
    {
        let mut m = String::new();
        match self {
            ConfigError::PollIntervalTooSmall(n) => {
                push_str(&mut m, "poll interval must be at least ");
                push_decimal(&mut m, MIN_POLL_INTERVAL_MINUTES as u64);
                push_str(&mut m, " minutes, got ");
                push_decimal(&mut m, *n as u64);
            },
            ConfigError::Io(t) => {
                push_str(&mut m, "reading config: ");
                push_str(&mut m, t.as_str());
            },
            ConfigError::Parse(t) => {
                push_str(&mut m, "parsing config TOML: ");
                push_str(&mut m, t.as_str());
            },
            ConfigError::Serialize(t) => {
                push_str(&mut m, "serializing config TOML: ");
                push_str(&mut m, t.as_str());
            },
        }
        m
    }
}

/// A configuration repaired after loading always passes validation, so a bad
/// on-disk value can never poll more often than the minimum interval, and its
/// reminder time always parses.
pub proof fn lemma_normalized_is_valid(c: Config, n: Config)
    requires
        (n.poll_interval_minutes, n.poll_concurrency, n.daily_reminder_time@) == normalized_fields(c),
    ensures
        n.is_valid(),
        n.poll_concurrency >= 1,
        spec_reminder_hm(n.daily_reminder_time@) is Some,
{
    if spec_reminder_hm(c.daily_reminder_time@) is None {
        lemma_default_reminder_time_parses();
    }
}

/// The default reminder time reads as ten o'clock.
pub proof fn lemma_default_reminder_time_parses()
    ensures
        spec_reminder_hm(DEFAULT_REMINDER_TIME@) == Some((10u32, 0u32)),
{
    reveal_strlit("10:00");
    let t = DEFAULT_REMINDER_TIME@;
    assert(t[2] == ':');
    assert(t[0] != ':' && t[1] != ':');
    let w = choose|i: int| 0 <= i < t.len() && t[i] == ':' && (forall|j: int| 0 <= j < i ==> t[j] != ':');
    assert(w == 2) by {
        if w < 2 {
        } else if w > 2 {
            assert(t[2] == ':');
        }
    }
    assert(first_index_of(t, ':') == Some(2int));
    let h = t.take(2);
    let m = t.skip(3);
    assert(h =~= seq!['1', '0']);
    assert(m =~= seq!['0', '0']);
    assert(trim_spec(h) == h) by {
        reveal_with_fuel(crate::text::trim_start_spec, 2);
        reveal_with_fuel(crate::text::trim_end_spec, 2);
    }
    assert(trim_spec(m) == m) by {
        reveal_with_fuel(crate::text::trim_start_spec, 2);
        reveal_with_fuel(crate::text::trim_end_spec, 2);
    }
    assert(h.drop_last() =~= seq!['1']);
    assert(seq!['1'].drop_last() =~= Seq::<char>::empty());
    assert(m.drop_last() =~= seq!['0']);
    assert(seq!['0'].drop_last() =~= Seq::<char>::empty());
    assert(crate::text::digits_value(h) == 10) by {
        reveal_with_fuel(crate::text::digits_value, 3);
    }
    assert(crate::text::digits_value(m) == 0) by {
        reveal_with_fuel(crate::text::digits_value, 3);
    }
    assert(crate::text::unsigned_part(h) == h);
    assert(crate::text::unsigned_part(m) == m);
}

/// The default configuration is valid and its reminder time parses.
pub proof fn lemma_default_is_valid(c: Config)
    requires
        c.spec_default_fields(),
    ensures
        c.is_valid(),
        spec_reminder_hm(c.daily_reminder_time@) == Some((10u32, 0u32)),
{
    lemma_default_reminder_time_parses();
}

} // verus!
