use fodder_core::autostart::{portal_granted, portal_request_path};
use fodder_core::config::{Config, MIN_POLL_INTERVAL_MINUTES};
use fodder_core::daemon::Flags;
use fodder_core::discover::discover_feed_urls;
use fodder_core::ipc::{answers_alive, IpcMessage, OpenRequest};
use fodder_core::parse::parse_feed;
use fodder_core::render::{html_to_blocks, Block};
use fodder_core::schedule::{can_schedule, can_wait};
use fodder_core::text::{collapse_whitespace, parse_i64, parse_u32, trim, trim_char, trim_char_start};
use fodder_core::viewer::{parse_target, viewer_args, Target};

fn strings(v: &[&str]) -> Vec<String> {
    v.iter().map(|s| s.to_string()).collect()
}

#[test]
fn viewer_arguments_round_trip() {
    let req = OpenRequest::At { feed_id: 3, article_id: Some(-9) };
    let args = viewer_args(&req);
    assert_eq!(args, strings(&["--feed", "3", "--article", "-9"]));
    assert_eq!(parse_target(&args), Target { feed: Some(3), article: Some(-9), webkit: false });
    assert!(viewer_args(&OpenRequest::Show).is_empty());
    let min = OpenRequest::At { feed_id: i64::MIN, article_id: None };
    assert_eq!(parse_target(&viewer_args(&min)), Target { feed: Some(i64::MIN), article: None, webkit: false });
}

#[test]
fn viewer_arguments_are_forgiving() {
    assert_eq!(
        parse_target(&strings(&["--webkit", "--feed", "x", "--bogus", "--article"])),
        Target { feed: None, article: None, webkit: true }
    );
    assert_eq!(parse_target(&strings(&["--feed", "+12"])), Target { feed: Some(12), article: None, webkit: false });
}

#[test]
fn integers_parse_like_std() {
    for s in ["0", "+7", "-7", "9223372036854775807", "-9223372036854775808", "9223372036854775808", "", "-", "+", "1a", " 1", "00012"] {
        assert_eq!(parse_i64(s), s.parse::<i64>().ok(), "{s:?}");
    }
    for s in ["0", "+7", "-7", "4294967295", "4294967296", "", "12x"] {
        assert_eq!(parse_u32(s), s.parse::<u32>().ok(), "{s:?}");
    }
}

#[test]
fn text_helpers_match_std() {
    for s in ["", "  a b  ", "\u{a0}x\u{3000}", "\n\nx\n", "abc"] {
        assert_eq!(trim(s), s.trim());
        assert_eq!(trim_char(s, '\n'), s.trim_matches('\n'));
    }
    assert_eq!(trim_char_start("::1.42", ':'), "1.42");
    assert_eq!(collapse_whitespace("a \t\n b\u{2003}\u{2003}c"), "a b c");
}

#[test]
fn portal_decisions() {
    assert_eq!(
        portal_request_path(":1.42"),
        "/org/freedesktop/portal/desktop/request/1_42/fodder_autostart"
    );
    assert!(portal_granted(true, 0, Some(true)));
    assert!(!portal_granted(true, 0, Some(false)));
    assert!(portal_granted(true, 0, None));
    assert!(portal_granted(false, 0, Some(false)));
    assert!(!portal_granted(true, 1, Some(true)));
}

#[test]
fn only_pong_means_alive() {
    assert!(answers_alive(&Some(IpcMessage::Pong)));
    assert!(!answers_alive(&Some(IpcMessage::Ack)));
    assert!(!answers_alive(&None));
}

#[test]
fn reminder_needs_both_switches() {
    let mut c = Config::default();
    assert_eq!(c.reminder_schedule(), None);
    c.daily_reminder_enabled = true;
    assert_eq!(c.reminder_schedule(), Some((10, 0)));
    c.notifications_enabled = false;
    assert_eq!(c.reminder_schedule(), None);
}

#[test]
fn normalized_config_is_valid() {
    let mut c = Config::default();
    c.poll_interval_minutes = 1;
    c.poll_concurrency = 0;
    c.daily_reminder_time = "25:99".to_string();
    assert!(c.validate().is_err());
    let n = c.normalized();
    assert!(n.validate().is_ok());
    assert_eq!(n.poll_interval_minutes, MIN_POLL_INTERVAL_MINUTES);
    assert_eq!(n.poll_concurrency, 1);
    assert_eq!(n.daily_reminder_time, "10:00");
}

#[test]
fn dbus_requests_raise_flags() {
    let mut f = Flags::default();
    f.request_poll();
    f.request_settings_reload();
    assert!(f.poll_now && f.settings_changed && !f.quit);
    f.request_quit();
    assert!(f.quit);
}

#[test]
fn schedule_guards() {
    assert!(can_schedule(Some(0), 60, 10));
    assert!(!can_schedule(Some(i64::MAX - 10), 60, i64::MAX));
    assert!(can_schedule(Some(i64::MAX), 60, 0));
    assert!(can_wait(None, 60, 0));
    assert!(!can_wait(Some(i64::MIN), 60, i64::MAX));
}

#[test]
fn blank_markup_yields_no_blocks() {
    assert!(html_to_blocks("<p>   </p><div><b> </b></div><pre>\n\n</pre>", None).is_empty());
    for b in html_to_blocks("<p> x </p><ul><li> </li><li>y</li></ul>", None) {
        match b {
            Block::Paragraph(s) | Block::Quote(s) | Block::Heading(_, s) | Block::ListItem { spans: s, .. } => {
                assert!(!s.is_empty() && s.iter().all(|sp| !sp.text.is_empty()))
            }
            _ => {}
        }
    }
}

#[test]
fn linked_entries_without_id_get_feed_rs_ids() {
    let rss = r#"<?xml version="1.0"?><rss version="2.0"><channel><title>t</title>
        <item><title>a</title><link>https://example.org/a</link></item></channel></rss>"#;
    let feed = parse_feed(rss.as_bytes()).unwrap();
    let guid = &feed.items[0].guid;
    assert_ne!(guid, "https://example.org/a");
    assert!(guid.chars().all(|c| c.is_ascii_hexdigit()));
}

#[test]
fn invalid_utf8_pages_still_yield_feeds() {
    let mut page = b"<link rel=alternate type=application/rss+xml href=/r>\xff\xfe".to_vec();
    page.extend_from_slice(b"<p>x</p>");
    assert_eq!(discover_feed_urls(&page, "https://e.example/"), vec!["https://e.example/r"]);
}

#[test]
fn poll_interval_and_desktop_path() {
    let c = Config::default();
    assert_eq!(c.poll_interval(), fodder_core::poller::Delay::from_secs(30 * 60));
    assert_eq!(
        fodder_core::paths::desktop_path("/home/u/.config"),
        "/home/u/.config/autostart/fodder.desktop"
    );
}
