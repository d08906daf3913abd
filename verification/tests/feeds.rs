use fodder_core::dedupe::{hash_link_title, stable_guid};
use fodder_core::discover::{discover_feed_urls, MAX_CANDIDATES};
use fodder_core::feed::{RawEntry, RawLink};
use fodder_core::models::Error;
use fodder_core::parse::{entry_to_item, fnv1a64, looks_like_bare_uuid, parse_feed};
use fodder_core::poller::parse_items;
use fodder_core::render::{cache_key, html_to_blocks, Block, Span};

fn entry_with(id: &str, link: Option<&str>, title: Option<&str>) -> RawEntry {
    RawEntry {
        id: id.to_string(),
        title: title.map(|t| t.to_string()),
        links: link
            .map(|l| vec![RawLink { href: l.to_string(), rel: None }])
            .unwrap_or_default(),
        authors: vec![],
        content: None,
        summary: None,
        published: None,
        updated: None,
    }
}

#[test]
fn guid_used_when_present() {
    let e = entry_with("urn:uuid:123", Some("https://x/1"), Some("T"));
    assert_eq!(stable_guid(&e), "urn:uuid:123");
}

#[test]
fn hash_fallback_when_id_empty() {
    let e = entry_with("", Some("https://x/1"), Some("Title"));
    let g = stable_guid(&e);
    assert_eq!(g, hash_link_title("https://x/1", "Title"));
    assert_eq!(g.len(), 64, "sha-256 hex is 64 chars");
}

#[test]
fn hash_is_deterministic_and_distinct() {
    assert_eq!(
        hash_link_title("https://x/1", "A"),
        hash_link_title("https://x/1", "A")
    );
    assert_ne!(
        hash_link_title("https://x/1", "A"),
        hash_link_title("https://x/2", "A")
    );
}

#[test]
fn same_item_same_guid_idempotent() {
    let a = entry_with("id-1", Some("https://x/1"), Some("A"));
    let b = entry_with("id-1", Some("https://x/1"), Some("A"));
    assert_eq!(stable_guid(&a), stable_guid(&b));
}

#[test]
fn sha256_of_link_and_title_is_the_known_digest() {
    // sha256("\n") is the digest of an empty link and an empty title.
    assert_eq!(
        hash_link_title("", ""),
        "01ba4719c80b6fe911b091a7c05124b64eeece964e09c058ef8f9805daca546b"
    );
}

const RSS: &[u8] = br#"<?xml version="1.0"?>
        <rss version="2.0"><channel>
          <title>Example Feed</title>
          <item><guid>guid-1</guid><title>First</title>
            <link>https://e.com/1</link><description>Body one</description></item>
          <item><guid>guid-2</guid><title>Second</title>
            <link>https://e.com/2</link><description>Body two</description></item>
        </channel></rss>"#;

#[test]
fn parses_rss_title_and_items() {
    let (title, items) = parse_items(RSS).unwrap();
    assert_eq!(title.as_deref(), Some("Example Feed"));
    assert_eq!(items.len(), 2);
    assert_eq!(items[0].guid, "guid-1");
    assert_eq!(items[0].title, "First");
    assert_eq!(items[0].url.as_deref(), Some("https://e.com/1"));
}

#[test]
fn parse_items_reports_non_feed_bodies() {
    assert!(parse_items(b"<html><body>nope</body></html>").is_err());
}

const RSS2: &str = r#"<?xml version="1.0"?>
<rss version="2.0"><channel>
  <title>Example &amp; Sons</title>
  <link>https://example.org/</link>
  <description>News</description>
  <item>
    <guid>tag:example.org,2026:1</guid>
    <title>First post</title>
    <link>https://example.org/1</link>
    <author>alice@example.org (Alice)</author>
    <pubDate>Wed, 01 Jul 2026 12:00:00 GMT</pubDate>
    <description><![CDATA[<p>Hello <b>world</b></p>]]></description>
  </item>
  <item>
    <title>No guid, has link</title>
    <link>https://example.org/2</link>
  </item>
</channel></rss>"#;

const ATOM: &str = r#"<?xml version="1.0"?>
<feed xmlns="http://www.w3.org/2005/Atom">
  <title>Atom Feed</title>
  <link rel="self" href="https://example.org/atom.xml"/>
  <link rel="alternate" href="https://example.org/"/>
  <updated>2026-07-01T12:00:00Z</updated>
  <id>urn:uuid:feed</id>
  <entry>
    <id>urn:uuid:entry-1</id>
    <title>Entry one</title>
    <link href="https://example.org/e1"/>
    <updated>2026-07-01T12:00:00Z</updated>
    <content type="html">&lt;p&gt;body&lt;/p&gt;</content>
  </entry>
</feed>"#;

#[test]
fn parses_rss2_with_entities() {
    let feed = parse_feed(RSS2.as_bytes()).unwrap();
    assert_eq!(feed.title, "Example & Sons");
    assert_eq!(feed.site_url.as_deref(), Some("https://example.org/"));
    assert_eq!(feed.items.len(), 2);
    let first = &feed.items[0];
    assert_eq!(first.guid, "tag:example.org,2026:1");
    assert_eq!(first.title, "First post");
    assert!(first
        .content_html
        .as_deref()
        .unwrap()
        .contains("<b>world</b>"));
    assert!(first.published_at.is_some());
}

// feed-rs synthesizes a deterministic id when an entry lacks a guid; what
// matters for dedup is that the id is non-empty and stable across parses.
#[test]
fn missing_guid_gets_deterministic_id() {
    let a = parse_feed(RSS2.as_bytes()).unwrap();
    let b = parse_feed(RSS2.as_bytes()).unwrap();
    let second = &a.items[1];
    assert!(!second.guid.trim().is_empty());
    assert_eq!(second.guid, b.items[1].guid);
    assert_eq!(second.published_at, None);
}

// Without guid AND link, the content-hash fallback must kick in or repolls
// would duplicate items.
#[test]
fn missing_guid_and_link_falls_back_to_stable_hash() {
    let rss = r#"<?xml version="1.0"?><rss version="2.0"><channel>
            <title>t</title><item><title>only a title</title></item>
        </channel></rss>"#;
    let a = parse_feed(rss.as_bytes()).unwrap();
    let b = parse_feed(rss.as_bytes()).unwrap();
    assert!(a.items[0].guid.starts_with("fnv:"));
    assert_eq!(a.items[0].guid, b.items[0].guid);
}

#[test]
fn parses_atom_and_skips_self_link_for_site_url() {
    let feed = parse_feed(ATOM.as_bytes()).unwrap();
    assert_eq!(feed.title, "Atom Feed");
    assert_eq!(feed.site_url.as_deref(), Some("https://example.org/"));
    let entry = &feed.items[0];
    assert_eq!(entry.guid, "urn:uuid:entry-1");
    assert_eq!(entry.content_html.as_deref(), Some("<p>body</p>"));
    // Atom updated used when published is absent
    assert!(entry.published_at.is_some());
}

#[test]
fn non_feed_content_is_an_error() {
    assert!(matches!(
        parse_feed(b"<!DOCTYPE html><html><body>nope</body></html>"),
        Err(Error::Parse(_))
    ));
}

#[test]
fn fnv1a64_known_values() {
    assert_eq!(fnv1a64(b""), 0xcbf2_9ce4_8422_2325);
    assert_eq!(fnv1a64(b"a"), 0xaf63_dc4c_8601_ec8c);
}

#[test]
fn fnv_guid_is_the_hash_of_title_and_body() {
    let mut e = entry_with("", None, Some("only a title"));
    e.summary = Some("and a body".to_string());
    let item = entry_to_item(&e);
    assert_eq!(
        item.guid,
        format!("fnv:{:016x}", fnv1a64(b"only a titleand a body"))
    );
    assert_eq!(item.content_html.as_deref(), Some("and a body"));
}

#[test]
fn bare_uuid_without_link_is_replaced() {
    let e = entry_with("123e4567-e89b-12d3-a456-426614174000", None, Some("t"));
    assert!(entry_to_item(&e).guid.starts_with("fnv:"));
    let linked = entry_with("123e4567-e89b-12d3-a456-426614174000", Some("https://x/1"), Some("t"));
    assert_eq!(entry_to_item(&linked).guid, "123e4567-e89b-12d3-a456-426614174000");
}

#[test]
fn uuid_shape_is_checked_exactly() {
    assert!(looks_like_bare_uuid("123e4567-e89b-12d3-a456-426614174000"));
    assert!(looks_like_bare_uuid("123E4567-E89B-12D3-A456-426614174000"));
    assert!(!looks_like_bare_uuid("123e4567-e89b-12d3-a456-42661417400"));
    assert!(!looks_like_bare_uuid("123e4567xe89b-12d3-a456-426614174000"));
    assert!(!looks_like_bare_uuid("123e4567-e89b-12d3-a456-42661417400g"));
}

#[test]
fn item_prefers_alternate_link_and_first_nonblank_author() {
    let mut e = entry_with("id", None, Some("t"));
    e.links = vec![
        RawLink { href: "https://x/enc".into(), rel: Some("enclosure".into()) },
        RawLink { href: "https://x/page".into(), rel: Some("alternate".into()) },
    ];
    e.authors = vec!["   ".into(), "  Bob ".into()];
    e.updated = Some(42);
    let item = entry_to_item(&e);
    assert_eq!(item.link.as_deref(), Some("https://x/page"));
    assert_eq!(item.author.as_deref(), Some("Bob"));
    assert_eq!(item.published_at, Some(42));
}

const BASE: &str = "https://tonsky.me/";

const TONSKY_HEAD: &str = r#"<html><head>
      <link href="/atom.xml" rel="alternate" title="Nikita Prokopov’s blog" type="application/atom+xml">
      </head><body>hi</body></html>"#;

#[test]
fn discovers_relative_atom_link() {
    assert_eq!(
        discover_feed_urls(TONSKY_HEAD.as_bytes(), BASE),
        vec!["https://tonsky.me/atom.xml"]
    );
}

#[test]
fn absolute_hrefs_and_document_order() {
    let html = r#"<head>
          <link rel="alternate" type="application/rss+xml" href="https://example.org/rss">
          <link rel="alternate" type="application/atom+xml" href="/atom">
        </head>"#;
    assert_eq!(
        discover_feed_urls(html.as_bytes(), "https://example.org/blog/post"),
        vec!["https://example.org/rss", "https://example.org/atom"]
    );
}

#[test]
fn multi_value_rel_and_case_insensitivity() {
    let html = r#"<link rel="ALTERNATE home" TYPE="application/Atom+XML" href="feed.xml">"#;
    assert_eq!(
        discover_feed_urls(html.as_bytes(), "https://example.org/dir/"),
        vec!["https://example.org/dir/feed.xml"]
    );
}

#[test]
fn ignores_non_feed_alternates_and_stylesheets() {
    let html = r#"<head>
          <link rel="alternate" type="text/html" href="/en">
          <link rel="stylesheet" type="text/css" href="/style.css">
          <link rel="alternate" hreflang="de" href="/de">
        </head>"#;
    assert!(discover_feed_urls(html.as_bytes(), BASE).is_empty());
}

#[test]
fn dedups_and_caps_candidates() {
    let link = r#"<link rel="alternate" type="application/rss+xml" href="/rss">"#;
    let many: String = (0..10)
        .map(|i| format!(r#"<link rel="alternate" type="application/rss+xml" href="/rss{i}">"#))
        .collect();
    let html = format!("<head>{link}{link}{many}</head>");
    let found = discover_feed_urls(html.as_bytes(), BASE);
    assert_eq!(found.len(), MAX_CANDIDATES);
    assert_eq!(found[0], "https://tonsky.me/rss");
    // duplicate collapsed, then document order
    assert_eq!(found[1], "https://tonsky.me/rss0");
}

#[test]
fn plain_text_or_empty_input_yields_nothing() {
    assert!(discover_feed_urls(b"just some text", BASE).is_empty());
    assert!(discover_feed_urls(b"", BASE).is_empty());
}

#[test]
fn unparsable_base_yields_nothing() {
    assert!(discover_feed_urls(TONSKY_HEAD.as_bytes(), "not a url").is_empty());
}

fn text_of(spans: &[Span]) -> String {
    spans.iter().map(|s| s.text.as_str()).collect()
}

#[test]
fn paragraphs_with_inline_styles() {
    let blocks = html_to_blocks("<p>Hello <b>bold</b> and <em>italic</em>.</p>", None);
    assert_eq!(blocks.len(), 1);
    let Block::Paragraph(spans) = &blocks[0] else {
        panic!("expected paragraph, got {:?}", blocks[0]);
    };
    assert_eq!(text_of(spans), "Hello bold and italic.");
    assert!(spans.iter().any(|s| s.style.bold && s.text == "bold"));
    assert!(spans.iter().any(|s| s.style.italic && s.text == "italic"));
}

#[test]
fn headings_carry_level() {
    let blocks = html_to_blocks("<h2>Title</h2><p>body</p>", None);
    assert!(matches!(&blocks[0], Block::Heading(2, spans) if text_of(spans) == "Title"));
}

#[test]
fn script_and_event_handlers_are_stripped() {
    let blocks = html_to_blocks(
        r#"<p onclick="evil()">ok</p><script>alert(1)</script><style>p{}</style>"#,
        None,
    );
    assert_eq!(blocks.len(), 1);
    let Block::Paragraph(spans) = &blocks[0] else {
        panic!("expected paragraph");
    };
    assert_eq!(text_of(spans), "ok");
}

#[test]
fn relative_urls_resolved_against_base() {
    let blocks = html_to_blocks(
        r#"<p><a href="/page">go</a></p><img src="pic.png" alt="a pic">"#,
        Some("https://example.org/posts/1"),
    );
    let Block::Paragraph(spans) = &blocks[0] else {
        panic!("expected paragraph");
    };
    assert_eq!(
        spans[0].style.link.as_deref(),
        Some("https://example.org/page")
    );
    assert!(matches!(
        &blocks[1],
        Block::Image { url, alt } if url == "https://example.org/posts/pic.png" && alt == "a pic"
    ));
}

#[test]
fn nested_lists_track_depth_and_markers() {
    let html =
        "<ul><li>one<ul><li>inner</li></ul></li></ul><ol><li>first</li><li>second</li></ol>";
    let blocks = html_to_blocks(html, None);
    let items: Vec<_> = blocks
        .iter()
        .filter_map(|b| match b {
            Block::ListItem {
                depth,
                marker,
                spans,
            } => Some((*depth, marker.as_str(), text_of(spans))),
            _ => None,
        })
        .collect();
    assert_eq!(
        items,
        vec![
            (0, "•  ", "one".to_string()),
            (1, "•  ", "inner".to_string()),
            (0, "1. ", "first".to_string()),
            (0, "2. ", "second".to_string()),
        ]
    );
}

#[test]
fn pre_keeps_verbatim_text() {
    let blocks = html_to_blocks("<pre>let x = 1;\n  let y = 2;</pre>", None);
    assert!(matches!(
        &blocks[0],
        Block::Code(code) if code == "let x = 1;\n  let y = 2;"
    ));
}

#[test]
fn blockquote_becomes_quote() {
    let blocks = html_to_blocks("<blockquote><p>wise words</p></blockquote>", None);
    assert!(matches!(&blocks[0], Block::Quote(spans) if text_of(spans) == "wise words"));
}

#[test]
fn entities_and_whitespace_collapse() {
    let blocks = html_to_blocks("<p>a &amp;\n\n   b</p>", None);
    let Block::Paragraph(spans) = &blocks[0] else {
        panic!("expected paragraph");
    };
    assert_eq!(text_of(spans), "a & b");
}

#[test]
fn br_becomes_newline() {
    let blocks = html_to_blocks("<p>line one<br>line two</p>", None);
    let Block::Paragraph(spans) = &blocks[0] else {
        panic!("expected paragraph");
    };
    assert_eq!(text_of(spans), "line one\nline two");
}

#[test]
fn ordered_list_honours_start_and_rules_and_headings() {
    let blocks = html_to_blocks("<ol start=\"7\"><li>seven</li></ol><hr><h5>x</h5>", None);
    assert!(matches!(&blocks[0], Block::ListItem { marker, .. } if marker == "7. "));
    assert!(matches!(&blocks[1], Block::Rule));
    assert!(matches!(&blocks[2], Block::Heading(5, _)));
}

#[test]
fn image_cache_key_is_fnv1a_in_hex() {
    assert_eq!(cache_key(""), "cbf29ce484222325");
    assert_eq!(cache_key("a"), "af63dc4c8601ec8c");
    assert_eq!(cache_key("a").len(), 16);
}
