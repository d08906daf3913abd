//! The viewer/daemon settings, stored as text key/value rows.

use vstd::prelude::*;

use crate::text::{decimal, decimal_string, parse_u32, spec_parse_u32, unsigned_part, same_text};

verus! {

/// The settings shared by the viewer and the daemon.
#[derive(Debug, Clone, Copy, PartialEq, Eq, Structural)]
pub struct Settings {
    /// One of `schedule::INTERVAL_CHOICES_MINUTES`.
    pub poll_interval_minutes: u32,
    pub run_in_background: bool,
    pub autostart: bool,
    pub notifications: bool,
}

impl Settings {
    /// The settings before anything is stored.
    pub open spec fn spec_default() -> Settings {
        Settings { poll_interval_minutes: 60, run_in_background: true, autostart: false, notifications: true }
    }
}

impl Default for Settings {
    fn default() -> (s: Settings)
        ensures
            s == Settings::spec_default(),
    {
        Settings { poll_interval_minutes: 60, run_in_background: true, autostart: false, notifications: true }
    }
}

/// Row key of the poll interval.
pub const KEY_POLL_INTERVAL: &'static str = "poll_interval_minutes";

/// Row key of the run-in-background switch.
pub const KEY_RUN_IN_BACKGROUND: &'static str = "run_in_background";

/// Row key of the autostart switch.
pub const KEY_AUTOSTART: &'static str = "autostart";

/// Row key of the notification switch.
pub const KEY_NOTIFICATIONS: &'static str = "notifications";

/// A stored switch: `"1"` is on, `"0"` is off, anything else (or nothing)
/// is the default.
pub open spec fn spec_flag_value(v: Option<Seq<char>>, default: bool) -> bool {
    match v {
        Some(t) => if t == "1"@ { true } else if t == "0"@ { false } else { default },
        None => default,
    }
}

/// The stored text of a switch.
pub open spec fn spec_flag_text(b: bool) -> Seq<char> {
    if b { "1"@ } else { "0"@ }
}

/// The view of an optional text.
pub open spec fn opt_str_view(o: Option<&str>) -> Option<Seq<char>> {
    match o {
        Some(s) => Some(s@),
        None => None,
    }
}

/// The settings that rows with these values give: a missing or unreadable
/// value falls back to its default.
pub open spec fn spec_from_values(
    poll: Option<Seq<char>>,
    run_in_background: Option<Seq<char>>,
    autostart: Option<Seq<char>>,
    notifications: Option<Seq<char>>,
) -> Settings {
    let d = Settings::spec_default();
    Settings {
        poll_interval_minutes: match poll {
            Some(t) => match spec_parse_u32(t) {
                Some(n) => n,
                None => d.poll_interval_minutes,
            },
            None => d.poll_interval_minutes,
        },
        run_in_background: spec_flag_value(run_in_background, d.run_in_background),
        autostart: spec_flag_value(autostart, d.autostart),
        notifications: spec_flag_value(notifications, d.notifications),
    }
}

/// A stored switch (see [`spec_flag_value`]).
fn flag_value(v: Option<&str>, default: bool) -> (b: bool)
    ensures
        b == spec_flag_value(opt_str_view(v), default),
{
    proof {
        reveal_strlit("1");
        reveal_strlit("0");
    }
    match v {
        Some(t) => if same_text(t, "1") {
            true
        } else if same_text(t, "0") {
            false
        } else {
            default
        },
        None => default,
    }
}

/// The settings read from the stored values of the four keys (`None` for a
/// key without a row).
pub fn settings_from_values(
    poll: Option<&str>,
    run_in_background: Option<&str>,
    autostart: Option<&str>,
    notifications: Option<&str>,
) -> (s: Settings)
    ensures
        s == spec_from_values(opt_str_view(poll), opt_str_view(run_in_background), opt_str_view(autostart), opt_str_view(notifications)),
{
    let d = Settings::default();
    let poll_interval_minutes = match poll {
        Some(t) => match parse_u32(t) {
            Some(n) => n,
            None => d.poll_interval_minutes,
        },
        None => d.poll_interval_minutes,
    };
    Settings {
        poll_interval_minutes,
        run_in_background: flag_value(run_in_background, d.run_in_background),
        autostart: flag_value(autostart, d.autostart),
        notifications: flag_value(notifications, d.notifications),
    }
}

/// The rows that store `s`, as (key, value) pairs: the interval in decimal,
/// each switch as `"1"` or `"0"`.
pub fn setting_rows(s: &Settings) -> (rows: Vec<(&'static str, String)>)
    ensures
        rows@.len() == 4,
        rows@[0].0@ == KEY_POLL_INTERVAL@ && rows@[0].1@ == decimal(s.poll_interval_minutes as nat),
        rows@[1].0@ == KEY_RUN_IN_BACKGROUND@ && rows@[1].1@ == spec_flag_text(s.run_in_background),
        rows@[2].0@ == KEY_AUTOSTART@ && rows@[2].1@ == spec_flag_text(s.autostart),
        rows@[3].0@ == KEY_NOTIFICATIONS@ && rows@[3].1@ == spec_flag_text(s.notifications),
{
    let mut rows: Vec<(&'static str, String)> = Vec::new();
    rows.push((KEY_POLL_INTERVAL, decimal_string(s.poll_interval_minutes as u64)));
    rows.push((KEY_RUN_IN_BACKGROUND, String::from_str(if s.run_in_background { "1" } else { "0" })));
    rows.push((KEY_AUTOSTART, String::from_str(if s.autostart { "1" } else { "0" })));
    rows.push((KEY_NOTIFICATIONS, String::from_str(if s.notifications { "1" } else { "0" })));
    rows
}

/// Parsing the decimal rendering of a number gives the number back.
pub proof fn lemma_parse_decimal(n: u32)
    ensures
        spec_parse_u32(decimal(n as nat)) == Some(n),
{
    crate::text::lemma_decimal_digits(n as nat);
    let d = decimal(n as nat);
    assert(d[0] != '+') by {
        assert(crate::text::is_digit(d[0]));
    }
    assert(unsigned_part(d) == d);
}

/// Storing settings and reading the rows back gives the same settings.
pub proof fn lemma_settings_roundtrip(s: Settings)
    ensures
        spec_from_values(
            Some(decimal(s.poll_interval_minutes as nat)),
            Some(spec_flag_text(s.run_in_background)),
            Some(spec_flag_text(s.autostart)),
            Some(spec_flag_text(s.notifications)),
        ) == s,
{
    lemma_parse_decimal(s.poll_interval_minutes);
    reveal_strlit("1");
    reveal_strlit("0");
    assert("1"@[0] != "0"@[0]);
}

/// With no rows stored, the settings are the defaults.
pub proof fn lemma_empty_is_default()
    ensures
        spec_from_values(None, None, None, None) == Settings::spec_default(),
{
}

} // verus!
