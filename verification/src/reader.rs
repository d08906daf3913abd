//! The light reader: article HTML to the Pango markup that a label shows.
//!
//! The HTML is sanitized with ammonia, parsed as a fragment, and a small
//! whitelist walker turns the safe tree into the few tags that Pango
//! understands, escaping all text. Runs of three or more newlines are
//! collapsed to a paragraph break.

use vstd::prelude::*;

use crate::text::{hex_char, hex_digit, push_char, push_str, same_text, trim, trim_spec};

verus! {

/// An attribute of an element of a parsed fragment: its namespace prefix,
/// its namespace URL (empty for plain HTML attributes), its local name and
/// its value.
#[derive(Debug)]
pub struct FragmentAttr {
    pub prefix: Option<String>,
    pub namespace: String,
    pub name: String,
    pub value: String,
}

/// A node of a parsed HTML fragment.
#[derive(Debug)]
pub enum FragmentNode {
    /// An element: its local name, its attributes, and its children.
    Element { name: String, attrs: Vec<FragmentAttr>, children: Vec<FragmentNode> },
    /// A text node.
    Text(String),
    /// The fragment root, a comment, a doctype or a processing instruction,
    /// with its children.
    Other(Vec<FragmentNode>),
}

/// What `ammonia::clean` (the default sanitizer) makes of an HTML text.
pub uninterp spec fn cleaned_html(html: Seq<char>) -> Seq<char>;

/// `ammonia::clean`: scripts, styles, comments and event handlers removed,
/// links marked `noopener noreferrer`. The contract claims only that the
/// result is [`cleaned_html`] of the text.
#[verifier::external_body]
fn clean(html: &str) -> (s: String)
    ensures
        s@ == cleaned_html(html@),
{
    ammonia::clean(html)
}

/// The tree that `scraper::Html::parse_fragment` builds for a text, from its
/// fragment root down.
pub uninterp spec fn html_fragment(html: Seq<char>) -> FragmentNode;

/// An element of a scraper tree, carried to its conversion.
#[verifier::external_type_specification]
#[verifier::external_body]
pub struct ExScraperNode(scraper::Node);

/// A reference into an ego-tree, carried to its conversion.
#[verifier::external_type_specification]
#[verifier::external_body]
#[verifier::reject_recursive_types(T)]
pub struct ExNodeRef<'a, T: 'a>(ego_tree::NodeRef<'a, T>);

/// Parses an HTML fragment with `scraper::Html::parse_fragment` (html5ever
/// in a `<body>` context) and converts the tree from its root to plain
/// values. The contract claims only that the tree is [`html_fragment`] of
/// the text.
#[verifier::external_body]
fn parse_fragment(html: &str) -> (root: FragmentNode)
    ensures
        root == html_fragment(html@),
{
    let doc = scraper::Html::parse_fragment(html);
    fragment_node(doc.tree.root())
}

/// Conversion step of [`parse_fragment`]: one scraper node and its subtree.
#[verifier::external_body]
fn fragment_node(node: ego_tree::NodeRef<'_, scraper::Node>) -> FragmentNode {
    let children = node.children().map(fragment_node).collect();
    match node.value() {
        scraper::Node::Text(t) => FragmentNode::Text(t.text.to_string()),
        scraper::Node::Element(e) => FragmentNode::Element {
            name: e.name().to_string(),
            attrs: e.attrs.iter().map(|(q, v)| FragmentAttr {
                prefix: q.prefix.as_ref().map(|p| p.to_string()),
                namespace: q.ns.to_string(),
                name: q.local.to_string(),
                value: v.to_string(),
            }).collect(),
            children,
        },
        _ => FragmentNode::Other(children),
    }
}

/// Whether GLib's markup escaping writes `c` as a character reference: the
/// C0 controls but tab, newline and carriage return, DEL, and the C1
/// controls but NEL.
pub open spec fn is_escaped_control(c: char) -> bool {
    let u = c as u32;
    ||| 1 <= u <= 8
    ||| 0xb <= u <= 0xc
    ||| 0xe <= u <= 0x1f
    ||| 0x7f <= u <= 0x84
    ||| 0x86 <= u <= 0x9f
}

/// `&#x`, the lowercase hexadecimal code without leading zeros, `;`.
pub open spec fn char_reference(u: nat) -> Seq<char> {
    let digits = if u < 16 { seq![hex_char(u)] } else { seq![hex_char(u / 16), hex_char(u % 16)] };
    "&#x"@ + digits + ";"@
}

/// What one character becomes in Pango markup.
pub open spec fn escaped_char(c: char) -> Seq<char> {
    if c == '&' {
        "&amp;"@
    } else if c == '<' {
        "&lt;"@
    } else if c == '>' {
        "&gt;"@
    } else if c == '\'' {
        "&#39;"@
    } else if c == '"' {
        "&quot;"@
    } else if is_escaped_control(c) {
        char_reference(c as u32 as nat)
    } else {
        seq![c]
    }
}

/// `g_markup_escape_text`: each character of `s` escaped in turn.
pub open spec fn markup_escape(s: Seq<char>) -> Seq<char>
    decreases s.len(),
{
    if s.len() == 0 {
        Seq::empty()
    } else {
        markup_escape(s.drop_last()) + escaped_char(s.last())
    }
}

/// Appends `c` escaped for Pango markup (see [`escaped_char`]).
fn push_escaped(out: &mut String, c: char)
    ensures
        final(out)@ == old(out)@ + escaped_char(c),
{
    if c == '&' {
        push_str(out, "&amp;");
    } else if c == '<' {
        push_str(out, "&lt;");
    } else if c == '>' {
        push_str(out, "&gt;");
    } else if c == '\'' {
        push_str(out, "&#39;");
    } else if c == '"' {
        push_str(out, "&quot;");
    } else {
        let u: u32 = c as u32;
        if (1 <= u && u <= 8) || (0xb <= u && u <= 0xc) || (0xe <= u && u <= 0x1f) || (0x7f <= u && u <= 0x84)
            || (0x86 <= u && u <= 0x9f) {
            push_str(out, "&#x");
            if u < 16 {
                push_char(out, hex_digit(u as u64));
            } else {
                push_char(out, hex_digit((u / 16) as u64));
                push_char(out, hex_digit((u % 16) as u64));
            }
            push_str(out, ";");
            proof {
                let digits = if (u as nat) < 16 {
                    seq![hex_char(u as nat)]
                } else {
                    seq![hex_char(u as nat / 16), hex_char(u as nat % 16)]
                };
                assert(escaped_char(c) == "&#x"@ + digits + ";"@);
                assert(final(out)@ =~= old(out)@ + ("&#x"@ + digits + ";"@));
            }
        } else {
            push_char(out, c);
            assert(final(out)@ =~= old(out)@ + seq![c]);
        }
    }
}

/// Escapes `text` for Pango markup, as `glib::markup_escape_text` does:
/// `& < > ' "` become entities and control characters (but tab, newline and
/// carriage return) character references.
pub fn markup_escape_text(text: &str) -> (escaped: String)
    ensures
        escaped@ == markup_escape(text@),
{
    let mut out = String::new();
    let n = text.unicode_len();
    let mut i: usize = 0;
    while i < n
        invariant
            n == text@.len(),
            i <= n,
            out@ == markup_escape(text@.take(i as int)),
        decreases n - i,
    {
        let c = text.get_char(i);
        push_escaped(&mut out, c);
        assert(text@.take(i as int + 1).drop_last() =~= text@.take(i as int));
        i = i + 1;
    }
    assert(text@.take(n as int) =~= text@);
    out
}

/// The value of the attribute named `key` in no namespace, searching from
/// position `i` on.
pub open spec fn plain_attr_from(attrs: Seq<FragmentAttr>, i: int, key: Seq<char>) -> Option<Seq<char>>
    decreases attrs.len() - i,
{
    if i < 0 || i >= attrs.len() {
        None
    } else if attrs[i].prefix is None && attrs[i].namespace@.len() == 0 && attrs[i].name@ == key {
        Some(attrs[i].value@)
    } else {
        plain_attr_from(attrs, i + 1, key)
    }
}

/// The value of the element's attribute named `key` in no namespace.
pub open spec fn plain_attr(attrs: Seq<FragmentAttr>, key: Seq<char>) -> Option<Seq<char>> {
    plain_attr_from(attrs, 0, key)
}

/// Where the attribute named `key` in no namespace stands, if anywhere.
fn find_plain_attr(attrs: &Vec<FragmentAttr>, key: &str) -> (r: Option<usize>)
    ensures
        match r {
            Some(i) => i < attrs@.len() && plain_attr(attrs@, key@) == Some(attrs@[i as int].value@),
            None => plain_attr(attrs@, key@) is None,
        },
{
    let n = attrs.len();
    let mut i: usize = 0;
    while i < n
        invariant
            n == attrs@.len(),
            i <= n,
            plain_attr(attrs@, key@) == plain_attr_from(attrs@, i as int, key@),
        decreases n - i,
    {
        let a = &attrs[i];
        if a.prefix.is_none() && a.namespace.as_str().unicode_len() == 0 && same_text(a.name.as_str(), key) {
            return Some(i);
        }
        i = i + 1;
    }
    None
}

/// The Pango markup of a node: text escaped, a few inline tags mapped to
/// their Pango counterparts, blocks ended by blank lines, list items
/// bulleted, links kept with their target, images shown by their alt text,
/// unknown elements by their content, and everything else dropped.
pub open spec fn pango_of(n: FragmentNode) -> Seq<char>
    decreases n, 1int,
{
    match n {
        FragmentNode::Text(t) => markup_escape(t@),
        FragmentNode::Other(_) => Seq::empty(),
        FragmentNode::Element { name, attrs, children } => {
            let tag = name@;
            let inner = pango_upto(children@, children@.len() as int);
            if tag == "br"@ {
                "\n"@
            } else if tag == "p"@ || tag == "div"@ || tag == "section"@ || tag == "article"@ {
                inner + "\n\n"@
            } else if tag == "b"@ || tag == "strong"@ {
                "<b>"@ + inner + "</b>"@
            } else if tag == "i"@ || tag == "em"@ {
                "<i>"@ + inner + "</i>"@
            } else if tag == "u"@ {
                "<u>"@ + inner + "</u>"@
            } else if tag == "s"@ || tag == "del"@ || tag == "strike"@ {
                "<s>"@ + inner + "</s>"@
            } else if tag == "code"@ || tag == "tt"@ || tag == "kbd"@ || tag == "samp"@ {
                "<tt>"@ + inner + "</tt>"@
            } else if tag == "pre"@ {
                "<tt>"@ + inner + "</tt>\n\n"@
            } else if tag == "h1"@ || tag == "h2"@ || tag == "h3"@ || tag == "h4"@ || tag == "h5"@ || tag == "h6"@ {
                "<big><b>"@ + inner + "</b></big>\n\n"@
            } else if tag == "li"@ {
                "• "@ + inner + "\n"@
            } else if tag == "ul"@ || tag == "ol"@ {
                inner + "\n"@
            } else if tag == "blockquote"@ {
                inner + "\n\n"@
            } else if tag == "a"@ {
                match plain_attr(attrs@, "href"@) {
                    Some(href) => "<a href=\""@ + markup_escape(href) + "\">"@ + inner + "</a>"@,
                    None => inner,
                }
            } else if tag == "img"@ {
                match plain_attr(attrs@, "alt"@) {
                    Some(alt) => if alt.len() > 0 { "["@ + markup_escape(alt) + "]"@ } else { Seq::empty() },
                    None => Seq::empty(),
                }
            } else {
                inner
            }
        },
    }
}

/// The markup of the first `i` nodes of `ns`, in order.
pub open spec fn pango_upto(ns: Seq<FragmentNode>, i: int) -> Seq<char>
    decreases ns, 0int, i,
{
    if i <= 0 || i > ns.len() {
        Seq::empty()
    } else {
        pango_upto(ns, i - 1) + pango_of(ns[i - 1])
    }
}

/// Appends the escaped `text`.
fn push_markup_escaped(out: &mut String, text: &str)
    ensures
        final(out)@ == old(out)@ + markup_escape(text@),
{
    let e = markup_escape_text(text);
    push_str(out, e.as_str());
}

/// Appends the markup of `children` in order.
fn render_children(children: &Vec<FragmentNode>, out: &mut String)
    ensures
        final(out)@ == old(out)@ + pango_upto(children@, children@.len() as int),
    decreases children, 0int,
{
    let n = children.len();
    let mut i: usize = 0;
    while i < n
        invariant
            n == children@.len(),
            i <= n,
            out@ == old(out)@ + pango_upto(children@, i as int),
        decreases n - i,
    {
        render(&children[i], out);
        assert(out@ =~= old(out)@ + pango_upto(children@, i as int + 1));
        i = i + 1;
    }
}

/// Appends `open`, the markup of `children`, and `close`.
fn wrap(children: &Vec<FragmentNode>, out: &mut String, open: &str, close: &str)
    ensures
        final(out)@ == old(out)@ + (open@ + pango_upto(children@, children@.len() as int) + close@),
    decreases children, 1int,
{
    push_str(out, open);
    render_children(children, out);
    push_str(out, close);
    assert(final(out)@ =~= old(out)@ + (open@ + pango_upto(children@, children@.len() as int) + close@));
}

/// Appends the Pango markup of `node` (see [`pango_of`]).
fn render(node: &FragmentNode, out: &mut String)
    ensures
        final(out)@ == old(out)@ + pango_of(*node),
    decreases node, 2int,
{
    match node {
        FragmentNode::Text(t) => push_markup_escaped(out, t.as_str()),
        FragmentNode::Other(_) => {
            assert(out@ =~= old(out)@ + pango_of(*node));
        },
        FragmentNode::Element { name, attrs, children } => {
            let tag = name.as_str();
            if same_text(tag, "br") {
                push_str(out, "\n");
            } else if same_text(tag, "p") || same_text(tag, "div") || same_text(tag, "section") || same_text(
                tag,
                "article",
            ) {
                render_children(children, out);
                push_str(out, "\n\n");
                assert(out@ =~= old(out)@ + pango_of(*node));
            } else if same_text(tag, "b") || same_text(tag, "strong") {
                wrap(children, out, "<b>", "</b>");
            } else if same_text(tag, "i") || same_text(tag, "em") {
                wrap(children, out, "<i>", "</i>");
            } else if same_text(tag, "u") {
                wrap(children, out, "<u>", "</u>");
            } else if same_text(tag, "s") || same_text(tag, "del") || same_text(tag, "strike") {
                wrap(children, out, "<s>", "</s>");
            } else if same_text(tag, "code") || same_text(tag, "tt") || same_text(tag, "kbd") || same_text(tag, "samp") {
                wrap(children, out, "<tt>", "</tt>");
            } else if same_text(tag, "pre") {
                wrap(children, out, "<tt>", "</tt>\n\n");
            } else if same_text(tag, "h1") || same_text(tag, "h2") || same_text(tag, "h3") || same_text(tag, "h4")
                || same_text(tag, "h5") || same_text(tag, "h6") {
                wrap(children, out, "<big><b>", "</b></big>\n\n");
            } else if same_text(tag, "li") {
                wrap(children, out, "• ", "\n");
            } else if same_text(tag, "ul") || same_text(tag, "ol") {
                render_children(children, out);
                push_str(out, "\n");
                assert(out@ =~= old(out)@ + pango_of(*node));
            } else if same_text(tag, "blockquote") {
                render_children(children, out);
                push_str(out, "\n\n");
                assert(out@ =~= old(out)@ + pango_of(*node));
            } else if same_text(tag, "a") {
                match find_plain_attr(attrs, "href") {
                    Some(k) => {
                        push_str(out, "<a href=\"");
                        push_markup_escaped(out, attrs[k].value.as_str());
                        push_str(out, "\">");
                        render_children(children, out);
                        push_str(out, "</a>");
                        assert(out@ =~= old(out)@ + pango_of(*node));
                    },
                    None => render_children(children, out),
                }
            } else if same_text(tag, "img") {
                match find_plain_attr(attrs, "alt") {
                    Some(k) => {
                        if attrs[k].value.as_str().unicode_len() > 0 {
                            push_str(out, "[");
                            push_markup_escaped(out, attrs[k].value.as_str());
                            push_str(out, "]");
                            assert(out@ =~= old(out)@ + pango_of(*node));
                        } else {
                            assert(out@ =~= old(out)@ + pango_of(*node));
                        }
                    },
                    None => {
                        assert(out@ =~= old(out)@ + pango_of(*node));
                    },
                }
            } else {
                render_children(children, out);
            }
        },
    }
}

/// The number of newlines that end `s`.
pub open spec fn trailing_newlines(s: Seq<char>) -> nat
    decreases s.len(),
{
    if s.len() > 0 && s.last() == '\n' {
        trailing_newlines(s.drop_last()) + 1
    } else {
        0
    }
}

/// `s` with every newline that is the third or later of a run dropped.
pub open spec fn collapse_blank(s: Seq<char>) -> Seq<char>
    decreases s.len(),
{
    if s.len() == 0 {
        Seq::empty()
    } else if s.last() == '\n' && trailing_newlines(s) > 2 {
        collapse_blank(s.drop_last())
    } else {
        collapse_blank(s.drop_last()).push(s.last())
    }
}

/// Collapses runs of three or more newlines down to a paragraph break.
pub fn collapse_blank_lines(s: &str) -> (out: String)
    ensures
        out@ == collapse_blank(s@),
{
    let mut out = String::new();
    let n = s.unicode_len();
    let mut newlines: usize = 0;
    let mut i: usize = 0;
    while i < n
        invariant
            n == s@.len(),
            i <= n,
            newlines <= i,
            newlines == trailing_newlines(s@.take(i as int)),
            out@ == collapse_blank(s@.take(i as int)),
        decreases n - i,
    {
        let ch = s.get_char(i);
        let ghost next = s@.take(i as int + 1);
        assert(next.drop_last() =~= s@.take(i as int));
        if ch == '\n' {
            newlines = newlines + 1;
            if newlines <= 2 {
                push_char(&mut out, ch);
            }
        } else {
            newlines = 0;
            push_char(&mut out, ch);
        }
        i = i + 1;
    }
    assert(s@.take(n as int) =~= s@);
    out
}

/// The children of a fragment's root.
pub open spec fn root_children(root: FragmentNode) -> Seq<FragmentNode> {
    match root {
        FragmentNode::Element { children, .. } => children@,
        FragmentNode::Other(children) => children@,
        FragmentNode::Text(_) => Seq::empty(),
    }
}

/// The Pango markup of article HTML: sanitized, parsed as a fragment, the
/// root's children rendered in order, trimmed, and runs of blank lines
/// collapsed.
pub open spec fn spec_html_to_pango(html: Seq<char>) -> Seq<char> {
    let root = html_fragment(cleaned_html(html));
    collapse_blank(trim_spec(pango_upto(root_children(root), root_children(root).len() as int)))
}

/// Converts article HTML into Pango markup that is safe to hand to a label.
pub fn html_to_pango(html: &str) -> (markup: String)
    ensures
        markup@ == spec_html_to_pango(html@),
{
    let clean_html = clean(html);
    let root = parse_fragment(clean_html.as_str());
    let mut out = String::new();
    match &root {
        FragmentNode::Element { children, .. } => render_children(children, &mut out),
        FragmentNode::Other(children) => render_children(children, &mut out),
        FragmentNode::Text(_) => {},
    }
    assert(out@ =~= pango_upto(root_children(root), root_children(root).len() as int));
    let trimmed = trim(out.as_str());
    collapse_blank_lines(trimmed.as_str())
}

/// Escaped text holds no angle bracket and no quote character: what a text
/// node or an attribute value becomes can never open or close a tag, nor end
/// an attribute.
pub proof fn lemma_escaped_text_is_inert(s: Seq<char>)
    ensures
        forall|i: int|
            0 <= i < markup_escape(s).len() ==> {
                let c = #[trigger] markup_escape(s)[i];
                c != '<' && c != '>' && c != '"' && c != '\''
            },
    decreases s.len(),
{
    if s.len() > 0 {
        lemma_escaped_text_is_inert(s.drop_last());
        let c = s.last();
        let prev = markup_escape(s.drop_last());
        let e = escaped_char(c);
        reveal_strlit("&amp;");
        reveal_strlit("&lt;");
        reveal_strlit("&gt;");
        reveal_strlit("&#39;");
        reveal_strlit("&quot;");
        reveal_strlit("&#x");
        reveal_strlit(";");
        assert forall|j: int| 0 <= j < e.len() implies e[j] != '<' && e[j] != '>' && e[j] != '"' && e[j] != '\'' by {
            if c != '&' && c != '<' && c != '>' && c != '\'' && c != '"' && is_escaped_control(c) {
                let u = c as u32 as nat;
                assert(hex_char(u) != '<' && hex_char(u) != '>' && hex_char(u) != '"' && hex_char(u) != '\'');
                assert(hex_char(u / 16) != '<' && hex_char(u / 16) != '>' && hex_char(u / 16) != '"'
                    && hex_char(u / 16) != '\'');
                assert(hex_char(u % 16) != '<' && hex_char(u % 16) != '>' && hex_char(u % 16) != '"'
                    && hex_char(u % 16) != '\'');
            }
        }
        assert(markup_escape(s) == prev + e);
        assert forall|i: int| 0 <= i < markup_escape(s).len() implies {
            let c2 = #[trigger] markup_escape(s)[i];
            c2 != '<' && c2 != '>' && c2 != '"' && c2 != '\''
        } by {
            if i < prev.len() {
                assert(markup_escape(s)[i] == prev[i]);
            } else {
                assert(markup_escape(s)[i] == e[i - prev.len()]);
            }
        }
    }
}

/// Whether `s` holds three newlines in a row.
pub open spec fn has_triple_newline(s: Seq<char>) -> bool {
    exists|i: int| 0 <= i && i + 2 < s.len() && #[trigger] s[i] == '\n' && s[i + 1] == '\n' && s[i + 2] == '\n'
}

/// After collapsing, no three newlines stand in a row, and a text ends in as
/// many newlines as before, up to two.
pub proof fn lemma_collapsed_has_no_blank_run(s: Seq<char>)
    ensures
        !has_triple_newline(collapse_blank(s)),
        trailing_newlines(collapse_blank(s)) == if trailing_newlines(s) < 2 { trailing_newlines(s) } else { 2 },
    decreases s.len(),
{
    if s.len() > 0 {
        let prev = collapse_blank(s.drop_last());
        lemma_collapsed_has_no_blank_run(s.drop_last());
        lemma_trailing_newlines_bound(prev);
        let c = s.last();
        if c == '\n' && trailing_newlines(s) > 2 {
            assert(trailing_newlines(s) == trailing_newlines(s.drop_last()) + 1);
        } else {
            let r = prev.push(c);
            assert(r.drop_last() =~= prev);
            if c == '\n' {
                assert(trailing_newlines(s) == trailing_newlines(s.drop_last()) + 1);
                assert(trailing_newlines(r) == trailing_newlines(prev) + 1);
                assert(trailing_newlines(prev) <= 1);
                if has_triple_newline(r) {
                    let i = choose|i: int|
                        0 <= i && i + 2 < r.len() && #[trigger] r[i] == '\n' && r[i + 1] == '\n' && r[i + 2] == '\n';
                    if i + 2 < prev.len() {
                        assert(prev[i] == '\n' && prev[i + 1] == '\n' && prev[i + 2] == '\n');
                        assert(has_triple_newline(prev));
                    } else {
                        lemma_two_trailing_newlines(prev);
                    }
                }
            } else {
                assert(trailing_newlines(s) == 0);
                assert(trailing_newlines(r) == 0);
                if has_triple_newline(r) {
                    let i = choose|i: int|
                        0 <= i && i + 2 < r.len() && #[trigger] r[i] == '\n' && r[i + 1] == '\n' && r[i + 2] == '\n';
                    assert(prev[i] == '\n' && prev[i + 1] == '\n' && prev[i + 2] == '\n');
                    assert(has_triple_newline(prev));
                }
            }
        }
    }
}

/// A text ends in at most as many newlines as it is long.
proof fn lemma_trailing_newlines_bound(s: Seq<char>)
    ensures
        trailing_newlines(s) <= s.len(),
    decreases s.len(),
{
    if s.len() > 0 {
        lemma_trailing_newlines_bound(s.drop_last());
    }
}

/// A text whose last two characters are newlines ends in at least two.
proof fn lemma_two_trailing_newlines(s: Seq<char>)
    requires
        s.len() >= 2,
        s[s.len() - 1] == '\n',
        s[s.len() - 2] == '\n',
    ensures
        trailing_newlines(s) >= 2,
{
    let t = s.drop_last();
    assert(t.last() == '\n');
    assert(trailing_newlines(t) == trailing_newlines(t.drop_last()) + 1);
    assert(trailing_newlines(s) == trailing_newlines(t) + 1);
}

/// The inline elements keep their content inside the matching Pango tag:
/// code-like elements become monospace, bold and italic stay so, underline
/// and strike-through too, and a line break is a newline.
pub proof fn lemma_inline_markup(n: FragmentNode)
    ensures
        match n {
            FragmentNode::Element { name, attrs, children } => {
                let tag = name@;
                let inner = pango_upto(children@, children@.len() as int);
                &&& (tag == "code"@ || tag == "tt"@ || tag == "kbd"@ || tag == "samp"@) ==> pango_of(n) == "<tt>"@ + inner
                    + "</tt>"@
                &&& (tag == "b"@ || tag == "strong"@) ==> pango_of(n) == "<b>"@ + inner + "</b>"@
                &&& (tag == "i"@ || tag == "em"@) ==> pango_of(n) == "<i>"@ + inner + "</i>"@
                &&& tag == "u"@ ==> pango_of(n) == "<u>"@ + inner + "</u>"@
                &&& (tag == "s"@ || tag == "del"@ || tag == "strike"@) ==> pango_of(n) == "<s>"@ + inner + "</s>"@
                &&& tag == "br"@ ==> pango_of(n) == "\n"@
            },
            _ => true,
        },
{
    lemma_tag_names();
    match n {
        FragmentNode::Element { name, attrs, children } => {
            let tag = name@;
            if tag.len() > 0 {
                let c = tag[0];
                assert(c == c);
            }
            if tag.len() > 1 {
                let c = tag[1];
                assert(c == c);
            }
            if tag.len() > 3 {
                let c = tag[3];
                assert(c == c);
            }
        },
        _ => {},
    }
}

/// The characters of the tag names that [`pango_of`] tells apart.
proof fn lemma_tag_names()
    ensures
        "br"@ == seq!['b', 'r'],
        "p"@ == seq!['p'],
        "div"@ == seq!['d', 'i', 'v'],
        "section"@ == seq!['s', 'e', 'c', 't', 'i', 'o', 'n'],
        "article"@ == seq!['a', 'r', 't', 'i', 'c', 'l', 'e'],
        "b"@ == seq!['b'],
        "strong"@ == seq!['s', 't', 'r', 'o', 'n', 'g'],
        "i"@ == seq!['i'],
        "em"@ == seq!['e', 'm'],
        "u"@ == seq!['u'],
        "s"@ == seq!['s'],
        "del"@ == seq!['d', 'e', 'l'],
        "strike"@ == seq!['s', 't', 'r', 'i', 'k', 'e'],
        "code"@ == seq!['c', 'o', 'd', 'e'],
        "tt"@ == seq!['t', 't'],
        "kbd"@ == seq!['k', 'b', 'd'],
        "samp"@ == seq!['s', 'a', 'm', 'p'],
        "pre"@ == seq!['p', 'r', 'e'],
        "h1"@ == seq!['h', '1'],
        "h2"@ == seq!['h', '2'],
        "h3"@ == seq!['h', '3'],
        "h4"@ == seq!['h', '4'],
        "h5"@ == seq!['h', '5'],
        "h6"@ == seq!['h', '6'],
        "li"@ == seq!['l', 'i'],
        "ul"@ == seq!['u', 'l'],
        "ol"@ == seq!['o', 'l'],
        "blockquote"@ == seq!['b', 'l', 'o', 'c', 'k', 'q', 'u', 'o', 't', 'e'],
        "a"@ == seq!['a'],
        "img"@ == seq!['i', 'm', 'g'],
{
    reveal_strlit("br");
    reveal_strlit("p");
    reveal_strlit("div");
    reveal_strlit("section");
    reveal_strlit("article");
    reveal_strlit("b");
    reveal_strlit("strong");
    reveal_strlit("i");
    reveal_strlit("em");
    reveal_strlit("u");
    reveal_strlit("s");
    reveal_strlit("del");
    reveal_strlit("strike");
    reveal_strlit("code");
    reveal_strlit("tt");
    reveal_strlit("kbd");
    reveal_strlit("samp");
    reveal_strlit("pre");
    reveal_strlit("h1");
    reveal_strlit("h2");
    reveal_strlit("h3");
    reveal_strlit("h4");
    reveal_strlit("h5");
    reveal_strlit("h6");
    reveal_strlit("li");
    reveal_strlit("ul");
    reveal_strlit("ol");
    reveal_strlit("blockquote");
    reveal_strlit("a");
    reveal_strlit("img");
}

/// The block elements of an article: paragraphs and sections end in a blank
/// line, preformatted text is monospace and ends in a blank line, headings
/// are big and bold, list items are bulleted lines, lists and quotes end
/// their block, links keep their escaped target, images show their escaped
/// alt text when it is not empty, text is escaped, and comments and the like
/// show nothing.
pub proof fn lemma_block_markup(n: FragmentNode)
    ensures
        match n {
            FragmentNode::Text(t) => pango_of(n) == markup_escape(t@),
            FragmentNode::Other(_) => pango_of(n) == Seq::<char>::empty(),
            FragmentNode::Element { name, attrs, children } => {
                let tag = name@;
                let inner = pango_upto(children@, children@.len() as int);
                &&& (tag == "p"@ || tag == "div"@ || tag == "section"@ || tag == "article"@ || tag == "blockquote"@)
                    ==> pango_of(n) == inner + "\n\n"@
                &&& tag == "pre"@ ==> pango_of(n) == "<tt>"@ + inner + "</tt>\n\n"@
                &&& (tag == "h1"@ || tag == "h2"@ || tag == "h3"@ || tag == "h4"@ || tag == "h5"@ || tag == "h6"@)
                    ==> pango_of(n) == "<big><b>"@ + inner + "</b></big>\n\n"@
                &&& tag == "li"@ ==> pango_of(n) == "• "@ + inner + "\n"@
                &&& (tag == "ul"@ || tag == "ol"@) ==> pango_of(n) == inner + "\n"@
                &&& tag == "a"@ ==> pango_of(n) == match plain_attr(attrs@, "href"@) {
                    Some(h) => "<a href=\""@ + markup_escape(h) + "\">"@ + inner + "</a>"@,
                    None => inner,
                }
                &&& tag == "img"@ ==> pango_of(n) == match plain_attr(attrs@, "alt"@) {
                    Some(alt) => if alt.len() > 0 { "["@ + markup_escape(alt) + "]"@ } else { Seq::empty() },
                    None => Seq::empty(),
                }
            },
        },
{
    lemma_tag_names();
    match n {
        FragmentNode::Element { name, attrs, children } => {
            let tag = name@;
            if tag.len() > 0 {
                let c = tag[0];
                assert(c == c);
            }
            if tag.len() > 1 {
                let c = tag[1];
                assert(c == c);
            }
            if tag.len() > 2 {
                let c = tag[2];
                assert(c == c);
            }
            if tag.len() > 3 {
                let c = tag[3];
                assert(c == c);
            }
        },
        _ => {},
    }
}

} // verus!
