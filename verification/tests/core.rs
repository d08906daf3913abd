use fodder_core::autostart::portal_autostart_command;
use fodder_core::config::{Config, ConfigError};
use fodder_core::paths::flatpak_marker_path;
use fodder_core::poller::{backoff_next, Delay};
use fodder_core::refresh::format_refresh_summary;
use fodder_core::schedule::{is_due, seconds_until_next_due};
use fodder_core::version::{version_blurb, APP_DESCRIPTION, APP_NAME, LICENSE, REPOSITORY, VERSION};

const HOUR: u32 = 60;

#[test]
fn portal_command_starts_daemon_headless() {
    // The login autostart must bring up the daemon (tray + polling) WITHOUT
    // popping the viewer, matching the native `Exec=fodderd` entry.
    let cmd = portal_autostart_command();
    assert_eq!(cmd, vec!["fodderd".to_string()]);
    assert!(
        !cmd.iter().any(|a| a.contains("open-viewer")),
        "autostart must not open the viewer on every login"
    );
}

#[test]
fn default_is_valid() {
    assert!(Config::default().validate().is_ok());
}

#[test]
fn rejects_below_minimum_on_validate() {
    let cfg = Config { poll_interval_minutes: 1, ..Config::default() };
    assert!(matches!(cfg.validate(), Err(ConfigError::PollIntervalTooSmall(1))));
}

#[test]
fn flatpak_marker_lives_under_config_dir() {
    let config_dir = "/home/u/.config/fodder";
    let marker = flatpak_marker_path(config_dir);
    let marker = std::path::Path::new(&marker);
    assert_eq!(marker.parent().unwrap(), std::path::Path::new(config_dir));
    assert_eq!(marker.file_name().and_then(|n| n.to_str()), Some("autostart-requested"));
}

#[test]
fn reminder_time_parsing() {
    let mut cfg = Config::default();
    assert_eq!(cfg.reminder_hm(), Some((10, 0)));
    cfg.daily_reminder_time = "07:05".into();
    assert_eq!(cfg.reminder_hm(), Some((7, 5)));
    cfg.daily_reminder_time = "25:00".into();
    assert_eq!(cfg.reminder_hm(), None);
    cfg.daily_reminder_time = "garbage".into();
    assert_eq!(cfg.reminder_hm(), None);
}

#[test]
fn blurb_leads_with_binary_and_version() {
    let out = version_blurb("fodderd");
    // Conventional `--version` first line: "<bin> <semver>".
    let first = out.lines().next().unwrap();
    assert_eq!(first, format!("fodderd {VERSION}"));
}

#[test]
fn blurb_carries_app_metadata() {
    let out = version_blurb("fodder");
    assert!(out.contains(APP_NAME));
    assert!(out.contains(APP_DESCRIPTION));
    assert!(out.contains(REPOSITORY));
    assert!(out.contains(LICENSE));
    // The binary name is honored rather than hard-coded.
    assert!(out.starts_with("fodder "));
}

#[test]
fn backoff_grows_then_caps() {
    let base = Delay::from_secs(60);
    assert_eq!(backoff_next(0, base), Delay::from_secs(60));
    assert_eq!(backoff_next(1, base), Delay::from_secs(120));
    assert_eq!(backoff_next(3, base), Delay::from_secs(480));
    // Very large error counts saturate at the 6h cap, never overflow.
    assert_eq!(backoff_next(100, base), Delay::from_secs(6 * 60 * 60));
}

#[test]
fn backoff_keeps_doubling_past_sixteen_failures() {
    let one_nano = Delay { secs: 0, nanos: 1 };
    assert_eq!(backoff_next(16, one_nano), Delay { secs: 0, nanos: 65_536 });
    assert_eq!(backoff_next(17, one_nano), Delay { secs: 0, nanos: 131_072 });
    assert_eq!(backoff_next(30, one_nano), Delay { secs: 1, nanos: 73_741_824 });
    assert_eq!(backoff_next(-3, one_nano), one_nano);
    assert_eq!(backoff_next(i32::MAX, one_nano), Delay::from_secs(6 * 60 * 60));
    assert_eq!(backoff_next(i32::MAX, Delay { secs: 0, nanos: 0 }), Delay { secs: 0, nanos: 0 });
}

#[test]
fn no_new_articles_reads_up_to_date() {
    assert_eq!(format_refresh_summary(0, 0, 1800), "Up to date · 1.8s");
}

#[test]
fn singular_vs_plural_articles() {
    assert_eq!(format_refresh_summary(1, 0, 600), "1 new article · 0.6s");
    assert_eq!(format_refresh_summary(3, 0, 2400), "3 new articles · 2.4s");
}

#[test]
fn errors_are_included_and_pluralized() {
    assert_eq!(
        format_refresh_summary(1, 1, 600),
        "1 new article · 1 error · 0.6s"
    );
    assert_eq!(
        format_refresh_summary(0, 2, 900),
        "Up to date · 2 errors · 0.9s"
    );
}

#[test]
fn long_refresh_switches_to_minutes() {
    assert_eq!(format_refresh_summary(0, 0, 63_000), "Up to date · 1m03s");
}

#[test]
fn sub_100ms_still_shows_a_tenth() {
    // Never render "0.0s" as the whole story: it rounds, but the seconds
    // suffix keeps it readable for a near-instant 304-only refresh.
    assert_eq!(format_refresh_summary(0, 0, 40), "Up to date · 0.0s");
}

#[test]
fn never_polled_is_due() {
    assert!(is_due(None, HOUR, 1_000));
}

#[test]
fn due_exactly_at_interval() {
    assert!(!is_due(Some(1_000), HOUR, 1_000 + 3_599));
    assert!(is_due(Some(1_000), HOUR, 1_000 + 3_600));
}

#[test]
fn future_last_poll_is_due() {
    assert!(is_due(Some(10_000), HOUR, 1_000));
}

#[test]
fn next_due_picks_earliest() {
    let feeds = vec![Some(1_000), Some(2_000)];
    // 1h interval, now=3000: first due at 4600 (1600s), second at 5600 (2600s)
    assert_eq!(seconds_until_next_due(feeds, HOUR, 3_000), Some(1_600));
}

#[test]
fn next_due_zero_when_overdue() {
    assert_eq!(
        seconds_until_next_due(vec![Some(0), Some(9_999)], HOUR, 5_000),
        Some(0)
    );
}

#[test]
fn next_due_none_without_feeds() {
    assert_eq!(seconds_until_next_due(vec![], HOUR, 5_000), None);
}

#[test]
fn interval_change_reschedules() {
    // polled at 1000; at now=2000 a 15m interval is due, a 1h one is not
    assert!(is_due(Some(1_000), 15, 2_000));
    assert!(!is_due(Some(1_000), HOUR, 2_000));
}

#[test]
fn durations_below_a_minute_round_like_binary64_formatting() {
    for ms in 0u64..60_000 {
        let expected = format!("{:.1}s", ms as f64 / 1000.0);
        assert_eq!(fodder_core::refresh::format_duration(ms), expected, "{ms} ms");
    }
}

#[test]
fn durations_from_a_minute_use_minutes_and_padded_seconds() {
    assert_eq!(fodder_core::refresh::format_duration(60_000), "1m00s");
    assert_eq!(fodder_core::refresh::format_duration(125_999), "2m05s");
    assert_eq!(fodder_core::refresh::format_duration(3_599_999), "59m59s");
    assert_eq!(fodder_core::refresh::format_duration(7_200_000), "120m00s");
}
