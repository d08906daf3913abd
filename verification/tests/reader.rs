use fodder_core::reader::{collapse_blank_lines, html_to_pango, markup_escape_text};

#[test]
fn strips_scripts_and_keeps_text() {
    let out = html_to_pango("<p>Hello <script>alert(1)</script>world</p>");
    assert!(out.contains("Hello"));
    assert!(out.contains("world"));
    assert!(!out.contains("alert"));
}

#[test]
fn converts_basic_formatting() {
    let out = html_to_pango("<p><b>bold</b> and <i>italic</i></p>");
    assert!(out.contains("<b>bold</b>"));
    assert!(out.contains("<i>italic</i>"));
}

#[test]
fn escapes_text_entities() {
    let out = html_to_pango("<p>a &lt; b &amp; c</p>");
    assert!(out.contains("a &lt; b &amp; c"));
}

#[test]
fn keeps_safe_links() {
    let out = html_to_pango(r#"<a href="https://example.com">link</a>"#);
    assert!(out.contains(r#"<a href="https://example.com">link</a>"#));
}

#[test]
fn markup_escape_covers_entities_and_controls() {
    assert_eq!(markup_escape_text(r#"a&b<c>d'e"f"#), "a&amp;b&lt;c&gt;d&#39;e&quot;f");
    assert_eq!(markup_escape_text("x\u{1}y\u{1f}z\u{7f}"), "x&#x1;y&#x1f;z&#x7f;");
    assert_eq!(markup_escape_text("\u{84}\u{85}\u{9f}\u{a0}"), "&#x84;\u{85}&#x9f;\u{a0}");
    assert_eq!(markup_escape_text("tab\tnl\ncr\r"), "tab\tnl\ncr\r");
    assert_eq!(markup_escape_text(""), "");
}

#[test]
fn blank_line_runs_collapse_to_one_break() {
    assert_eq!(collapse_blank_lines("a\n\n\n\nb"), "a\n\nb");
    assert_eq!(collapse_blank_lines("a\nb\n\nc"), "a\nb\n\nc");
    assert_eq!(collapse_blank_lines("\n\n\n"), "\n\n");
    assert_eq!(collapse_blank_lines("a\n\n\nb\n\n\n\nc"), "a\n\nb\n\nc");
    assert_eq!(collapse_blank_lines(""), "");
}

#[test]
fn pango_of_a_whole_article() {
    let out = html_to_pango(
        "<h2>Title</h2><p>One</p><p>Two</p><ul><li>x</li><li>y</li></ul><pre>code</pre><img src=\"i.png\" alt=\"a<b\">",
    );
    assert_eq!(
        out,
        "<big><b>Title</b></big>\n\nOne\n\nTwo\n\n• x\n• y\n\n<tt>code</tt>\n\n[a&lt;b]"
    );
}

#[test]
fn pango_drops_empty_alt_and_unlinked_anchors() {
    assert_eq!(html_to_pango("<p><img src=\"i.png\" alt=\"\">t<a>u</a></p>"), "tu");
    assert_eq!(html_to_pango("<p>a<br>b</p>"), "a\nb");
    assert_eq!(html_to_pango("<blockquote>q</blockquote>\n\n\n<p>z</p>"), "q\n\nz");
}
