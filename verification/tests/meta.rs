use fodder_core::meta::{format_meta, item_meta, title_for, DiscoveredFeed};
use fodder_core::models::{Item, ItemSummary};

fn item(author: Option<&str>, published_at: Option<i64>) -> Item {
    Item {
        id: 1,
        feed_id: 1,
        guid: "g".to_string(),
        title: "t".to_string(),
        link: None,
        author: author.map(|a| a.to_string()),
        published_at,
        fetched_at: 0,
        content_html: None,
        is_read: false,
    }
}

fn summary(author: Option<&str>, published_at: Option<i64>, fetched_at: i64) -> ItemSummary {
    ItemSummary {
        id: 1,
        feed_id: 1,
        title: "t".to_string(),
        link: None,
        author: author.map(|a| a.to_string()),
        published_at,
        fetched_at,
        is_read: false,
    }
}

#[test]
fn meta_line_joins_feed_author_and_time() {
    assert_eq!(format_meta(&item(Some("Ann"), Some(0)), "Feed"), "Feed  ·  Ann  ·  Jan  1, 1970 00:00");
    assert_eq!(format_meta(&item(None, Some(1_700_000_000)), "Feed"), "Feed  ·  Nov 14, 2023 22:13");
    assert_eq!(format_meta(&item(Some("Ann"), None), "Feed"), "Feed  ·  Ann");
    assert_eq!(format_meta(&item(None, None), "Feed"), "Feed");
}

#[test]
fn meta_line_skips_a_time_out_of_range() {
    assert_eq!(format_meta(&item(None, Some(i64::MAX)), "Feed"), "Feed");
}

#[test]
fn byline_prefers_publication_time() {
    assert_eq!(item_meta(&summary(Some("Ann"), Some(86_400), 0)), "Ann · Jan  2, 1970");
    assert_eq!(item_meta(&summary(None, None, 1_700_000_000)), "Nov 14, 2023");
    assert_eq!(item_meta(&summary(Some("Ann"), Some(i64::MIN), 0)), "Ann · ");
}

#[test]
fn discovered_title_falls_back_to_urls() {
    let feed = |url: &str, title: Option<&str>| DiscoveredFeed { url: url.to_string(), title: title.map(|t| t.to_string()) };
    assert_eq!(title_for(&feed("https://a/feed", Some("A feed")), "https://a"), "A feed");
    assert_eq!(title_for(&feed("https://a/feed", Some("  ")), "https://a"), "https://a/feed");
    assert_eq!(title_for(&feed(" ", None), "https://a"), "https://a");
}
