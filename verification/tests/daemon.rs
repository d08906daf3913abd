use fodder_core::autostart::{desktop_entry, is_enabled, set_enabled, AutostartChange};
use fodder_core::daemon::{
    new_items_text, poll_record, select_due, sleep_secs, tray_title, work_outcome, Flags, PollStats, Wake,
    WorkOutcome,
};
use fodder_core::discover::{SearchStep, SubscriptionSearch};
use fodder_core::fetch::{Answer, FetchOutcome, FetchedFeed, Redirects};
use fodder_core::icon::{rgb_to_argb, rgba_to_argb};
use fodder_core::ipc::{
    classify, decode_frame_len, encode_frame, immediate_reply, message_for, reaction_to, subscribe_reply, FrameError, FromDaemon,
    IpcMessage, OpenRequest, Reaction, MAX_FRAME_LEN,
};
use fodder_core::models::Error;
use fodder_core::notify::{feed_body, feed_summary, reminder_body, should_remind, sort_newest_first, NotifyItem};
use fodder_core::paths::{config_path, daemon_data_dir, daemon_socket_path, db_path, flatpak_marker_path, image_cache_dir, join};
use fodder_core::scheduler::{next_after_error, next_after_rate_limit, next_after_success, next_wait, title_changes};
use fodder_core::settings::{setting_rows, settings_from_values, Settings};
use fodder_core::poller::Delay;
use fodder_core::upgrade::BinarySignature;

#[test]
fn rgba_to_argb_reorders_channels() {
    // one opaque pixel [R,G,B,A] -> [A,R,G,B]
    assert_eq!(
        rgba_to_argb(&[0x11, 0x22, 0x33, 0xff]),
        vec![0xff, 0x11, 0x22, 0x33]
    );
}

#[test]
fn rgb_to_argb_is_opaque() {
    assert_eq!(
        rgb_to_argb(&[0x11, 0x22, 0x33]),
        vec![0xff, 0x11, 0x22, 0x33]
    );
}

#[test]
fn partial_trailing_pixels_are_dropped() {
    assert_eq!(rgba_to_argb(&[1, 2, 3, 4, 5, 6]), vec![4, 1, 2, 3]);
    assert_eq!(rgb_to_argb(&[1, 2, 3, 4]), vec![0xff, 1, 2, 3]);
}

#[test]
fn notification_texts() {
    assert_eq!(new_items_text(3, 1), "3 new article(s)");
    assert_eq!(new_items_text(5, 2), "5 new article(s) in 2 feeds");
    assert_eq!(tray_title(0), "Fodder");
    assert_eq!(tray_title(7), "Fodder — 7 unread");
    assert_eq!(feed_summary("Blog", 1), "Blog");
    assert_eq!(feed_summary("Blog", 3), "Blog — 3 new articles");
    assert_eq!(reminder_body(1), "You have 1 unread article.");
    assert_eq!(reminder_body(12), "You have 12 unread articles.");
}

#[test]
fn feed_body_lists_first_four_titles() {
    let items: Vec<NotifyItem> = (1..=6)
        .map(|i| NotifyItem { id: i, title: format!("t{i}") })
        .collect();
    assert_eq!(feed_body(&items), "• t1\n• t2\n• t3\n• t4");
    assert_eq!(feed_body(&items[..1].to_vec()), "• t1");
    assert_eq!(feed_body(&Vec::new()), "");
}

#[test]
fn newest_items_first() {
    let items = vec![
        NotifyItem { id: 2, title: "b".into() },
        NotifyItem { id: 9, title: "c".into() },
        NotifyItem { id: 5, title: "a".into() },
    ];
    let ids: Vec<i64> = sort_newest_first(items).iter().map(|i| i.id).collect();
    assert_eq!(ids, vec![9, 5, 2]);
}

#[test]
fn newest_first_keeps_equal_ids_in_order() {
    let item = |id: i64, title: &str| NotifyItem { id, title: title.to_string() };
    let items = vec![item(1, "a"), item(3, "b"), item(1, "c"), item(3, "d")];
    let got: Vec<(i64, String)> = sort_newest_first(items).into_iter().map(|i| (i.id, i.title)).collect();
    let want: Vec<(i64, String)> =
        vec![(3, "b".to_string()), (3, "d".to_string()), (1, "a".to_string()), (1, "c".to_string())];
    assert_eq!(got, want);
}

#[test]
fn reminder_only_when_useful() {
    assert!(should_remind(true, true, false, 3));
    assert!(!should_remind(true, true, true, 3));
    assert!(!should_remind(true, true, false, 0));
    assert!(!should_remind(false, true, false, 3));
}

#[test]
fn flags_take_the_most_urgent_request() {
    let mut f = Flags { quit: false, poll_now: true, settings_changed: true };
    assert_eq!(f.take_request(), Wake::PollNow);
    assert_eq!(f.take_request(), Wake::ReloadSettings);
    assert_eq!(f.take_request(), Wake::KeepWaiting);
    f.quit = true;
    assert_eq!(f.take_request(), Wake::Quit);
    assert_eq!(Flags::default(), Flags { quit: false, poll_now: false, settings_changed: false });
}

#[test]
fn due_selection_and_sleep() {
    let polls = vec![None, Some(1_000), Some(4_000)];
    assert_eq!(select_due(&polls, 60, 5_000, false), vec![true, true, false]);
    assert_eq!(select_due(&polls, 60, 5_000, true), vec![true, true, true]);
    assert_eq!(sleep_secs(vec![Some(4_000)], 60, 5_000), 2_600);
    assert_eq!(sleep_secs(vec![Some(0)], 60, 5_000), 1);
    assert_eq!(sleep_secs(vec![], 60, 5_000), 3_600);
}

#[test]
fn stats_count_feeds_with_new_items() {
    let mut s = PollStats::new();
    s.add_feed(0);
    s.add_feed(3);
    s.add_feed(2);
    assert_eq!(s, PollStats { new_items: 5, feeds_with_new: 2 });
}

#[test]
fn work_outcomes_and_records() {
    assert!(matches!(work_outcome(Ok(FetchOutcome::NotModified)), WorkOutcome::NotModified));
    match work_outcome(Err(Error::Http("boom".into()))) {
        WorkOutcome::Failed(m) => assert_eq!(m, "http error: boom"),
        _ => panic!("expected failure"),
    }
    let fetched = FetchedFeed {
        body: b"<html></html>".to_vec(),
        etag: None,
        last_modified: None,
        permanent_url: None,
    };
    match work_outcome(Ok(FetchOutcome::Fetched(fetched))) {
        WorkOutcome::Failed(m) => assert!(m.starts_with("feed parse error: ")),
        _ => panic!("expected failure"),
    }
    let rec = poll_record(&WorkOutcome::NotModified, &Some("e".into()), &None);
    assert_eq!(rec.etag.as_deref(), Some("e"));
    assert_eq!(rec.status, "ok");
    let rec = poll_record(&WorkOutcome::Failed("bad".into()), &Some("e".into()), &None);
    assert_eq!(rec.etag, None);
    assert_eq!(rec.status, "bad");
}

#[test]
fn scheduler_times() {
    assert_eq!(next_after_success(1_000, Delay::from_secs(1_800)), 2_800);
    assert_eq!(next_after_rate_limit(1_000, Delay::from_secs(120)), 1_120);
    assert_eq!(next_after_rate_limit(1_000, Delay::from_secs(u64::MAX)), 1_300);
    assert_eq!(next_after_error(1_000, 0), (1, 1_120));
    assert_eq!(next_after_error(1_000, 40), (41, 1_000 + 21_600));
    assert_eq!(next_wait(&vec![5_000, 2_000], 1_000), 1_000);
    assert_eq!(next_wait(&vec![900_000], 1_000), 3_600);
    assert_eq!(next_wait(&vec![500], 1_000), 0);
    assert_eq!(next_wait(&vec![], 1_000), 60);
    assert!(title_changes(&Some("New".into()), "Old"));
    assert!(!title_changes(&Some("".into()), "Old"));
    assert!(!title_changes(&Some("Old".into()), "Old"));
    assert!(!title_changes(&None, "Old"));
}

#[test]
fn defaults_when_table_empty() {
    assert_eq!(settings_from_values(None, None, None, None), Settings::default());
}

#[test]
fn round_trip() {
    let s = Settings {
        poll_interval_minutes: 240,
        run_in_background: false,
        autostart: true,
        notifications: false,
    };
    let rows = setting_rows(&s);
    let get = |k: &str| rows.iter().find(|(key, _)| *key == k).map(|(_, v)| v.as_str());
    assert_eq!(rows[0].1, "240");
    let back = settings_from_values(
        get("poll_interval_minutes"),
        get("run_in_background"),
        get("autostart"),
        get("notifications"),
    );
    assert_eq!(back, s);
}

#[test]
fn garbage_values_fall_back_to_defaults() {
    assert_eq!(
        settings_from_values(Some("soon"), None, None, Some("yes please")),
        Settings::default()
    );
}

#[test]
fn frames_round_trip_and_limits() {
    let frame = encode_frame(b"{\"Ping\":null}").unwrap();
    assert_eq!(&frame[..4], &[0, 0, 0, 13]);
    assert_eq!(decode_frame_len([frame[0], frame[1], frame[2], frame[3]]), Ok(13));
    assert_eq!(&frame[4..], b"{\"Ping\":null}");
    assert_eq!(decode_frame_len([0, 0x80, 0, 1]), Err(FrameError::FrameTooLong));
    assert_eq!(decode_frame_len([0, 0x80, 0, 0]), Ok(MAX_FRAME_LEN as usize));
    let big = vec![0u8; MAX_FRAME_LEN as usize + 1];
    assert_eq!(encode_frame(&big), Err(FrameError::MessageTooLong));
    assert_eq!(FrameError::FrameTooLong.message(), "frame length exceeds max");
}

#[test]
fn viewer_and_daemon_message_handling() {
    assert_eq!(message_for(&OpenRequest::Show), IpcMessage::OpenViewer);
    assert_eq!(
        message_for(&OpenRequest::At { feed_id: 3, article_id: Some(9) }),
        IpcMessage::OpenAt { feed_id: 3, article_id: Some(9) }
    );
    assert_eq!(classify(IpcMessage::OpenViewer), Some(FromDaemon::Open));
    assert_eq!(classify(IpcMessage::Error("viewer already running".into())), Some(FromDaemon::Duplicate));
    assert_eq!(classify(IpcMessage::Ack), None);
    assert!(matches!(reaction_to(IpcMessage::Ping, false), Reaction::Reply(IpcMessage::Pong)));
    assert!(matches!(reaction_to(IpcMessage::ViewerHello, true), Reaction::RejectDuplicate));
    assert!(matches!(reaction_to(IpcMessage::ViewerHello, false), Reaction::RegisterViewer));
    assert!(matches!(reaction_to(IpcMessage::RefreshNow { feed_id: None }, false), Reaction::Refresh(None)));
    assert!(matches!(reaction_to(IpcMessage::FeedsChanged, false), Reaction::Ignore));
    assert_eq!(subscribe_reply(Ok(4)), IpcMessage::Ack);
    assert_eq!(
        subscribe_reply(Err("duplicate".into())),
        IpcMessage::Error("subscribe failed: duplicate".into())
    );
}

#[test]
fn redirects_are_followed_and_classified() {
    let mut r = Redirects::new("https://a.example/feed");
    assert!(matches!(r.on_answer(301, Some("/moved")), Answer::Follow));
    assert_eq!(r.current, "https://a.example/moved");
    match r.on_answer(200, None) {
        Answer::ReadBody { permanent_url } => assert_eq!(permanent_url.as_deref(), Some("https://a.example/moved")),
        _ => panic!("expected body"),
    }
    let mut t = Redirects::new("https://a.example/feed");
    assert!(matches!(t.on_answer(302, Some("https://b.example/f")), Answer::Follow));
    assert!(matches!(t.on_answer(200, None), Answer::ReadBody { permanent_url: None }));
    let mut u = Redirects::new("https://a.example/feed");
    assert!(matches!(u.on_answer(304, None), Answer::NotModified));
    match u.on_answer(500, None) {
        Answer::Fail(Error::Http(m)) => assert_eq!(m, "unexpected status 500"),
        _ => panic!("expected failure"),
    }
    match u.on_answer(307, None) {
        Answer::Fail(Error::Http(m)) => assert_eq!(m, "307 without Location"),
        _ => panic!("expected failure"),
    }
}

#[test]
fn redirect_loop_gives_up() {
    let mut r = Redirects::new("https://a.example/feed");
    for _ in 0..5 {
        assert!(matches!(r.on_answer(301, Some("/loop")), Answer::Follow));
    }
    match r.on_answer(301, Some("/loop")) {
        Answer::Fail(Error::Http(m)) => assert_eq!(m, "too many redirects"),
        _ => panic!("expected failure"),
    }
}

const BASE: &str = "http://127.0.0.1:8080";

#[test]
fn fetch_200_with_etag_then_304() {
    let mut first = Redirects::new(BASE);
    assert!(matches!(first.on_answer(200, None), Answer::ReadBody { permanent_url: None }));
    let mut second = Redirects::new(BASE);
    assert!(matches!(second.on_answer(304, None), Answer::NotModified));
}

#[test]
fn permanent_redirect_reports_new_url() {
    let mut r = Redirects::new(&format!("{BASE}/old"));
    assert!(matches!(r.on_answer(301, Some("/new")), Answer::Follow));
    match r.on_answer(200, None) {
        Answer::ReadBody { permanent_url } => assert_eq!(permanent_url.as_deref(), Some(format!("{BASE}/new").as_str())),
        _ => panic!("expected the body"),
    }
}

#[test]
fn temporary_redirect_keeps_original_url() {
    let mut r = Redirects::new(&format!("{BASE}/old"));
    assert!(matches!(r.on_answer(302, Some("/new")), Answer::Follow));
    assert!(matches!(r.on_answer(200, None), Answer::ReadBody { permanent_url: None }));
}

#[test]
fn redirect_loop_errors_out() {
    let mut r = Redirects::new(&format!("{BASE}/loop"));
    let mut failed = false;
    for _ in 0..10 {
        match r.on_answer(301, Some("/loop")) {
            Answer::Follow => {}
            Answer::Fail(_) => {
                failed = true;
                break;
            }
            _ => panic!("unexpected answer"),
        }
    }
    assert!(failed);
}

#[test]
fn server_error_is_reported() {
    let mut r = Redirects::new(BASE);
    assert!(matches!(r.on_answer(500, None), Answer::Fail(_)));
}

const FEED: &[u8] = br#"<?xml version="1.0"?><rss version="2.0"><channel>
<title>t</title><item><guid>1</guid><title>a</title></item></channel></rss>"#;

#[test]
fn subscription_search_falls_back_to_advertised_feeds() {
    let page = br#"<link rel="alternate" type="application/rss+xml" href="/feed.xml">"#;
    let (mut search, first) = SubscriptionSearch::new("https://site.example/");
    assert!(matches!(first, SearchStep::Fetch(ref u) if u == "https://site.example/"));
    let step = search.on_fetched(Ok(FetchOutcome::Fetched(FetchedFeed {
        body: page.to_vec(),
        etag: None,
        last_modified: None,
        permanent_url: None,
    })));
    assert!(matches!(step, SearchStep::Fetch(ref u) if u == "https://site.example/feed.xml"));
    let step = search.on_fetched(Ok(FetchOutcome::Fetched(FetchedFeed {
        body: FEED.to_vec(),
        etag: Some("v1".into()),
        last_modified: None,
        permanent_url: None,
    })));
    match step {
        SearchStep::Done(Ok(sub)) => {
            assert_eq!(sub.url, "https://site.example/feed.xml");
            assert_eq!(sub.etag.as_deref(), Some("v1"));
            assert_eq!(sub.parsed.title, "t");
        }
        _ => panic!("expected a subscription"),
    }
}

#[test]
fn subscription_search_reports_the_first_parse_error() {
    let (mut search, _) = SubscriptionSearch::new("https://site.example/");
    let step = search.on_fetched(Ok(FetchOutcome::Fetched(FetchedFeed {
        body: b"<p>no feeds here</p>".to_vec(),
        etag: None,
        last_modified: None,
        permanent_url: None,
    })));
    assert!(matches!(step, SearchStep::Done(Err(Error::Parse(_)))));
    let (mut other, _) = SubscriptionSearch::new("https://site.example/");
    assert!(matches!(
        other.on_fetched(Ok(FetchOutcome::NotModified)),
        SearchStep::Done(Err(Error::Http(ref m))) if m == "empty 304 response"
    ));
}

#[test]
fn paths_are_joined_once() {
    assert_eq!(join("/home/u/.config/fodder", "config.toml"), "/home/u/.config/fodder/config.toml");
    assert_eq!(join("/run/", "x"), "/run/x");
    assert_eq!(join("", "x"), "x");
    assert_eq!(config_path("/c"), "/c/config.toml");
    assert_eq!(db_path("/d"), "/d/db.sqlite");
    assert_eq!(daemon_socket_path("/r/fodder"), "/r/fodder/daemon.sock");
    assert_eq!(flatpak_marker_path("/c"), "/c/autostart-requested");
    assert_eq!(daemon_data_dir(Some("/tmp/x"), Some("/h")), "/tmp/x");
    assert_eq!(daemon_data_dir(None, Some("/h")), "/h/fodder");
    assert_eq!(daemon_data_dir(None, None), "./fodder");
}

#[test]
fn autostart_decisions() {
    assert!(is_enabled(true, true, false));
    assert!(!is_enabled(true, false, true));
    assert!(is_enabled(false, false, true));
    match set_enabled(true, "/usr/bin/fodderd") {
        AutostartChange::Write(s) => {
            assert_eq!(s, desktop_entry("/usr/bin/fodderd"));
            assert!(s.contains("Exec=/usr/bin/fodderd\n"));
        }
        AutostartChange::Remove => panic!("expected a write"),
    }
    assert!(matches!(set_enabled(false, "fodderd"), AutostartChange::Remove));
}

#[test]
fn binary_replacement_is_detected() {
    let a = BinarySignature::new(1, 2, 3, 4);
    assert!(!a.replaced_by(&BinarySignature::new(1, 2, 3, 4)));
    assert!(a.replaced_by(&BinarySignature::new(1, 9, 3, 4)));
    assert!(a.replaced_by(&BinarySignature::new(1, 2, 30, 4)));
}

#[test]
fn rate_limit_fallback_starts_past_the_calendar_limit() {
    let edge = Delay { secs: 9_223_372_036_854_775, nanos: 807_000_000 };
    assert_eq!(next_after_rate_limit(1_000, edge), 1_000 + 9_223_372_036_854_775);
    let past = Delay { secs: 9_223_372_036_854_775, nanos: 807_000_001 };
    assert_eq!(next_after_rate_limit(1_000, past), 1_300);
}

#[test]
fn image_cache_lives_under_the_cache_home() {
    assert_eq!(image_cache_dir("/home/u/.cache"), "/home/u/.cache/fodder/images");
    assert_eq!(image_cache_dir("/home/u/.cache/"), "/home/u/.cache/fodder/images");
}

#[test]
fn a_second_viewer_is_told_one_is_running() {
    let r = reaction_to(IpcMessage::ViewerHello, true);
    assert!(matches!(r, Reaction::RejectDuplicate));
    assert_eq!(immediate_reply(r), Some(IpcMessage::Error("viewer already running".to_string())));
    assert_eq!(immediate_reply(reaction_to(IpcMessage::ViewerHello, false)), Some(IpcMessage::Ack));
    assert_eq!(immediate_reply(reaction_to(IpcMessage::Ping, false)), Some(IpcMessage::Pong));
    assert_eq!(immediate_reply(reaction_to(IpcMessage::RefreshNow { feed_id: None }, false)), Some(IpcMessage::Ack));
    assert_eq!(immediate_reply(reaction_to(IpcMessage::ViewerClosing, false)), None);
}
