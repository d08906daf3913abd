//! HTML to render IR: a list of styled blocks that a text view can show.
//!
//! Pipeline: ammonia sanitizes (strips scripts and handlers, resolves
//! relative URLs against the article link), html5ever parses, and a walker
//! flattens the tree into blocks.

use vstd::prelude::*;
use vstd::utf8::encode_utf8;

use crate::feed::opt_view;
use crate::parse::{fnv1a64, fnv1a64_spec};
use crate::settings::opt_str_view;
use crate::text::{
    collapse_spec, collapse_whitespace, hex_fixed, push_hex16, decimal, push_char, push_decimal, push_str, same_text, spec_parse_u32, parse_u32,
    strip_end, strip_start, trim_char, trim_end, trim_end_spec, trim_start, trim_start_spec,
};
use crate::web::{html_document, parse_html, HtmlNode};

verus! {

/// The inline style of a run of text.
#[derive(Debug, Clone, PartialEq, Eq)]
pub struct SpanStyle {
    pub bold: bool,
    pub italic: bool,
    pub code: bool,
    pub strikethrough: bool,
    pub link: Option<String>,
}

/// A run of text in one style.
#[derive(Debug, Clone, PartialEq, Eq)]
pub struct Span {
    pub text: String,
    pub style: SpanStyle,
}

/// A block of an article.
#[derive(Debug, Clone, PartialEq, Eq)]
pub enum Block {
    Paragraph(Vec<Span>),
    Heading(u8, Vec<Span>),
    Quote(Vec<Span>),
    ListItem { depth: u8, marker: String, spans: Vec<Span> },
    Code(String),
    Image { url: String, alt: String },
    Rule,
}

/// A style in plain values.
pub struct StyleView {
    pub bold: bool,
    pub italic: bool,
    pub code: bool,
    pub strikethrough: bool,
    pub link: Option<Seq<char>>,
}

/// A span in plain values.
pub struct SpanView {
    pub text: Seq<char>,
    pub style: StyleView,
}

/// A block in plain values.
pub enum BlockView {
    Paragraph(Seq<SpanView>),
    Heading(u8, Seq<SpanView>),
    Quote(Seq<SpanView>),
    ListItem(u8, Seq<char>, Seq<SpanView>),
    Code(Seq<char>),
    Image(Seq<char>, Seq<char>),
    Rule,
}

impl View for SpanStyle {
    type V = StyleView;

    open spec fn view(&self) -> StyleView {
        StyleView {
            bold: self.bold,
            italic: self.italic,
            code: self.code,
            strikethrough: self.strikethrough,
            link: opt_view(self.link),
        }
    }
}

impl View for Span {
    type V = SpanView;

    open spec fn view(&self) -> SpanView {
        SpanView { text: self.text@, style: self.style@ }
    }
}

/// The views of a list of spans.
pub open spec fn spans_view(s: Seq<Span>) -> Seq<SpanView> {
    s.map_values(|x: Span| x@)
}

impl View for Block {
    type V = BlockView;

    open spec fn view(&self) -> BlockView {
        match self {
            Block::Paragraph(s) => BlockView::Paragraph(spans_view(s@)),
            Block::Heading(l, s) => BlockView::Heading(*l, spans_view(s@)),
            Block::Quote(s) => BlockView::Quote(spans_view(s@)),
            Block::ListItem { depth, marker, spans } => BlockView::ListItem(*depth, marker@, spans_view(spans@)),
            Block::Code(t) => BlockView::Code(t@),
            Block::Image { url, alt } => BlockView::Image(url@, alt@),
            Block::Rule => BlockView::Rule,
        }
    }
}

/// The views of a list of blocks.
pub open spec fn blocks_view(s: Seq<Block>) -> Seq<BlockView> {
    s.map_values(|x: Block| x@)
}

/// The plain style.
pub open spec fn plain_style() -> StyleView {
    StyleView { bold: false, italic: false, code: false, strikethrough: false, link: None }
}

impl Default for SpanStyle {
    fn default() -> (s: SpanStyle)
        ensures
            s@ == plain_style(),
    {
        SpanStyle { bold: false, italic: false, code: false, strikethrough: false, link: None }
    }
}

/// A copy of a style.
fn copy_style(s: &SpanStyle) -> (c: SpanStyle)
    ensures
        c@ == s@,
{
    SpanStyle {
        bold: s.bold,
        italic: s.italic,
        code: s.code,
        strikethrough: s.strikethrough,
        link: crate::feed::clone_opt(&s.link),
    }
}

/// Whether two styles are the same.
fn same_style(a: &SpanStyle, b: &SpanStyle) -> (r: bool)
    ensures
        r == (a@ == b@),
{
    let links = match (&a.link, &b.link) {
        (Some(x), Some(y)) => same_text(x.as_str(), y.as_str()),
        (None, None) => true,
        _ => false,
    };
    a.bold == b.bold && a.italic == b.italic && a.code == b.code && a.strikethrough == b.strikethrough && links
}

/// The walker's state in plain values.
pub struct WalkView {
    pub blocks: Seq<BlockView>,
    pub spans: Seq<SpanView>,
    pub style: StyleView,
    pub quote_depth: u8,
    pub li_depth: u8,
    pub list_stack: Seq<Option<u32>>,
    pub li_marker: Option<Seq<char>>,
    pub in_pre: bool,
    pub pre_text: Seq<char>,
}

/// Flattens an HTML tree into blocks: inline text gathers into spans, and
/// block elements close the current block.
pub struct Walker {
    pub blocks: Vec<Block>,
    pub spans: Vec<Span>,
    pub style: SpanStyle,
    pub quote_depth: u8,
    pub li_depth: u8,
    /// One entry per open list; `Some(n)` is an ordered list's counter.
    pub list_stack: Vec<Option<u32>>,
    /// Marker for the current list item, consumed by its first flush.
    pub li_marker: Option<String>,
    pub in_pre: bool,
    pub pre_text: String,
}

impl View for Walker {
    type V = WalkView;

    open spec fn view(&self) -> WalkView {
        WalkView {
            blocks: blocks_view(self.blocks@),
            spans: spans_view(self.spans@),
            style: self.style@,
            quote_depth: self.quote_depth,
            li_depth: self.li_depth,
            list_stack: self.list_stack@,
            li_marker: opt_view(self.li_marker),
            in_pre: self.in_pre,
            pre_text: self.pre_text@,
        }
    }
}

/// The walker before the first node.
pub open spec fn initial_walk() -> WalkView {
    WalkView {
        blocks: Seq::empty(),
        spans: Seq::empty(),
        style: plain_style(),
        quote_depth: 0,
        li_depth: 0,
        list_stack: Seq::empty(),
        li_marker: None,
        in_pre: false,
        pre_text: Seq::empty(),
    }
}

/// Adds `text` to the last span when it has the current style, else as a
/// new span.
pub open spec fn sp_append_span(w: WalkView, text: Seq<char>) -> WalkView {
    if w.spans.len() > 0 && w.spans.last().style == w.style {
        WalkView {
            spans: w.spans.update(w.spans.len() - 1, SpanView { text: w.spans.last().text + text, style: w.spans.last().style }),
            ..w
        }
    } else {
        WalkView { spans: w.spans.push(SpanView { text, style: w.style }), ..w }
    }
}

/// A span text that ends in a separator (a space or a newline).
pub open spec fn ends_with_separator(t: Seq<char>) -> bool {
    t.len() > 0 && (t.last() == ' ' || t.last() == '\n')
}

/// Text inside `pre` is kept verbatim; elsewhere whitespace runs collapse,
/// and a lone space after a separator (or at the start) is dropped.
pub open spec fn sp_push_text(w: WalkView, text: Seq<char>) -> WalkView {
    if w.in_pre {
        WalkView { pre_text: w.pre_text + text, ..w }
    } else {
        let c = collapse_spec(text);
        if c.len() == 0 {
            w
        } else if c == seq![' '] && (w.spans.len() == 0 || ends_with_separator(w.spans.last().text)) {
            w
        } else {
            sp_append_span(w, c)
        }
    }
}

/// A line break, unless nothing is gathered yet.
pub open spec fn sp_push_newline(w: WalkView) -> WalkView {
    if w.spans.len() > 0 { sp_append_span(w, seq!['\n']) } else { w }
}

/// The spans with the first one's leading and the last one's trailing
/// whitespace removed.
pub open spec fn edges_trimmed(spans: Seq<SpanView>) -> Seq<SpanView> {
    let s1 = if spans.len() > 0 {
        spans.update(0, SpanView { text: trim_start_spec(spans[0].text), style: spans[0].style })
    } else {
        spans
    };
    if s1.len() > 0 {
        s1.update(s1.len() - 1, SpanView { text: trim_end_spec(s1.last().text), style: s1.last().style })
    } else {
        s1
    }
}

/// A span worth keeping: it has text.
pub open spec fn keep_span() -> spec_fn(SpanView) -> bool {
    |s: SpanView| s.text.len() > 0
}

/// The spans with the first one's leading and the last one's trailing
/// whitespace removed, and then every empty span dropped.
pub open spec fn sp_trim_edges(spans: Seq<SpanView>) -> Seq<SpanView> {
    edges_trimmed(spans).filter(keep_span())
}

/// The marker text, empty when there is none.
pub open spec fn marker_text(m: Option<Seq<char>>) -> Seq<char> {
    match m {
        Some(t) => t,
        None => Seq::empty(),
    }
}

/// Emits the gathered spans as a block chosen from the context: a list item
/// (taking the item's marker), a quote, or a paragraph. Without spans, only
/// the marker is dropped.
pub open spec fn sp_flush(w: WalkView) -> WalkView {
    let spans = sp_trim_edges(w.spans);
    if spans.len() == 0 {
        WalkView { spans, li_marker: None, ..w }
    } else if w.li_depth > 0 {
        WalkView {
            blocks: w.blocks.push(BlockView::ListItem((w.li_depth - 1) as u8, marker_text(w.li_marker), spans)),
            spans: Seq::empty(),
            li_marker: None,
            ..w
        }
    } else if w.quote_depth > 0 {
        WalkView { blocks: w.blocks.push(BlockView::Quote(spans)), spans: Seq::empty(), ..w }
    } else {
        WalkView { blocks: w.blocks.push(BlockView::Paragraph(spans)), spans: Seq::empty(), ..w }
    }
}

/// Emits the gathered spans, if any, as a heading of `level`.
pub open spec fn sp_flush_heading(w: WalkView, level: u8) -> WalkView {
    let spans = sp_trim_edges(w.spans);
    if spans.len() == 0 {
        WalkView { spans, ..w }
    } else {
        WalkView { blocks: w.blocks.push(BlockView::Heading(level, spans)), spans: Seq::empty(), ..w }
    }
}

impl Walker {
    /// The walker before the first node.
    pub fn new() -> (w: Walker)
        ensures
            w@ == initial_walk(),
    {
        let w = Walker {
            blocks: Vec::new(),
            spans: Vec::new(),
            style: SpanStyle::default(),
            quote_depth: 0,
            li_depth: 0,
            list_stack: Vec::new(),
            li_marker: None,
            in_pre: false,
            pre_text: String::new(),
        };
        assert(w@.blocks =~= Seq::<BlockView>::empty());
        assert(w@.spans =~= Seq::<SpanView>::empty());
        w
    }

    /// Adds `text` to the last span when it has the current style, else as a
    /// new span.
    pub fn append_span(&mut self, text: String)
        ensures
            final(self)@ == sp_append_span(old(self)@, text@),
    {
        let ghost before = self.spans@;
        match self.spans.pop() {
            Some(last) => {
                assert(self.spans@ == before.drop_last());
                if same_style(&last.style, &self.style) {
                    let mut merged = last;
                    push_str(&mut merged.text, text.as_str());
                    self.spans.push(merged);
                    assert(spans_view(self.spans@) =~= spans_view(before).update(
                        before.len() - 1,
                        SpanView { text: before.last()@.text + text@, style: before.last()@.style },
                    ));
                } else {
                    self.spans.push(last);
                    let style = copy_style(&self.style);
                    self.spans.push(Span { text, style });
                    assert(self.spans@.drop_last() =~= before);
                    assert(spans_view(self.spans@) =~= spans_view(before).push(SpanView { text: text@, style: old(self)@.style }));
                }
            },
            None => {
                let style = copy_style(&self.style);
                self.spans.push(Span { text, style });
                assert(spans_view(self.spans@) =~= spans_view(before).push(SpanView { text: text@, style: old(self)@.style }));
            },
        }
    }

    /// Text inside `pre` is kept verbatim; elsewhere whitespace runs
    /// collapse, and a lone space after a separator is dropped.
    pub fn push_text(&mut self, text: &str)
        ensures
            final(self)@ == sp_push_text(old(self)@, text@),
    {
        if self.in_pre {
            push_str(&mut self.pre_text, text);
            return;
        }
        let collapsed = collapse_whitespace(text);
        if collapsed.as_str().is_empty() {
            return;
        }
        if same_text(collapsed.as_str(), " ") {
            proof {
                reveal_strlit(" ");
                assert(collapsed@ =~= seq![' ']);
            }
            let n = self.spans.len();
            if n == 0 {
                assert(self@.spans.len() == 0);
                return;
            }
            let last_text = self.spans[n - 1].text.as_str();
            assert(self@.spans.last().text == last_text@);
            let k = last_text.unicode_len();
            if k > 0 {
                let c = last_text.get_char(k - 1);
                if c == ' ' || c == '\n' {
                    assert(ends_with_separator(self@.spans.last().text));
                    return;
                }
            }
        }
        proof {
            reveal_strlit(" ");
            assert(" "@ =~= seq![' ']);
        }
        self.append_span(collapsed);
    }

    /// A line break, unless nothing is gathered yet.
    pub fn push_newline(&mut self)
        ensures
            final(self)@ == sp_push_newline(old(self)@),
    {
        if self.spans.len() > 0 {
            let mut nl = String::new();
            push_char(&mut nl, '\n');
            self.append_span(nl);
        }
    }
}

/// The value of the first attribute `name` of an element.
pub open spec fn attr_of(n: HtmlNode, name: Seq<char>) -> Option<Seq<char>> {
    match n {
        HtmlNode::Element { name: _, attrs, children: _ } => crate::discover::attr_value(attrs@, name),
        _ => None,
    }
}

/// The first number of an ordered list: its `start` attribute, else one.
pub open spec fn list_start(n: HtmlNode) -> u32 {
    match attr_of(n, "start"@) {
        Some(t) => match spec_parse_u32(t) {
            Some(v) => v,
            None => 1,
        },
        None => 1,
    }
}

/// Elements that are blocks of their own.
pub open spec fn is_block_tag(t: Seq<char>) -> bool {
    t == "p"@ || t == "div"@ || t == "section"@ || t == "article"@ || t == "figure"@ || t == "figcaption"@
        || t == "summary"@ || t == "details"@ || t == "tr"@ || t == "dt"@ || t == "dd"@
}

/// The level of a heading element.
pub open spec fn heading_level(t: Seq<char>) -> Option<u8> {
    if t == "h1"@ {
        Some(1u8)
    } else if t == "h2"@ {
        Some(2u8)
    } else if t == "h3"@ {
        Some(3u8)
    } else if t == "h4"@ {
        Some(4u8)
    } else if t == "h5"@ {
        Some(5u8)
    } else if t == "h6"@ {
        Some(6u8)
    } else {
        None
    }
}

/// Bold elements.
pub open spec fn is_bold_tag(t: Seq<char>) -> bool {
    t == "strong"@ || t == "b"@
}

/// Italic elements.
pub open spec fn is_italic_tag(t: Seq<char>) -> bool {
    t == "em"@ || t == "i"@ || t == "cite"@ || t == "var"@
}

/// Monospace elements.
pub open spec fn is_code_tag(t: Seq<char>) -> bool {
    t == "code"@ || t == "kbd"@ || t == "samp"@ || t == "tt"@
}

/// Struck-through elements.
pub open spec fn is_strike_tag(t: Seq<char>) -> bool {
    t == "s"@ || t == "del"@ || t == "strike"@
}

/// The list-item marker for the innermost list, and the list stack after it:
/// an ordered list gives its counter and counts on; otherwise a bullet.
pub open spec fn next_marker(stack: Seq<Option<u32>>) -> (Seq<char>, Seq<Option<u32>>) {
    if stack.len() > 0 && stack.last() is Some {
        let c = stack.last()->0;
        (decimal(c as nat) + ". "@, stack.update(stack.len() - 1, Some(vstd::wrapping::u32_specs::wrapping_add(c, 1))))
    } else {
        ("•  "@, stack)
    }
}

/// Walks the children of a node with a changed style, then restores it.
pub open spec fn sp_with_style(children: Seq<HtmlNode>, w: WalkView, style: StyleView) -> WalkView
    decreases children, 0int, children.len() + 1,
{
    let inner = sp_walk_children(children, 0, WalkView { style, ..w });
    WalkView { style: w.style, ..inner }
}

/// The walker after the children of a node from position `i` on.
pub open spec fn sp_walk_children(ns: Seq<HtmlNode>, i: int, w: WalkView) -> WalkView
    decreases ns, 0int, ns.len() - i,
{
    if i < 0 || i >= ns.len() {
        w
    } else {
        sp_walk_children(ns, i + 1, sp_walk(ns[i], w))
    }
}

/// The walker after an element named `tag` with `children`.
pub open spec fn sp_walk(n: HtmlNode, w: WalkView) -> WalkView
    decreases n, 1int,
{
    match n {
        HtmlNode::Text(t) => sp_push_text(w, t@),
        HtmlNode::Other(children) => sp_walk_children(children@, 0, w),
        HtmlNode::Element { name, attrs, children } => {
            let tag = name@;
            let kids = children@;
            if is_block_tag(tag) {
                sp_flush(sp_walk_children(kids, 0, sp_flush(w)))
            } else if heading_level(tag) is Some {
                sp_flush_heading(sp_walk_children(kids, 0, sp_flush(w)), heading_level(tag)->0)
            } else if is_bold_tag(tag) {
                sp_with_style(kids, w, StyleView { bold: true, ..w.style })
            } else if is_italic_tag(tag) {
                sp_with_style(kids, w, StyleView { italic: true, ..w.style })
            } else if is_code_tag(tag) && !w.in_pre {
                sp_with_style(kids, w, StyleView { code: true, ..w.style })
            } else if is_strike_tag(tag) {
                sp_with_style(kids, w, StyleView { strikethrough: true, ..w.style })
            } else if tag == "a"@ {
                sp_with_style(kids, w, StyleView { link: attr_of(n, "href"@), ..w.style })
            } else if tag == "br"@ {
                sp_push_newline(w)
            } else if tag == "ul"@ || tag == "ol"@ {
                let f = sp_flush(w);
                let entry = if tag == "ol"@ { Some(list_start(n)) } else { None };
                let inner = sp_walk_children(kids, 0, WalkView { list_stack: f.list_stack.push(entry), ..f });
                sp_flush(WalkView {
                    list_stack: if inner.list_stack.len() > 0 { inner.list_stack.drop_last() } else { inner.list_stack },
                    ..inner
                })
            } else if tag == "li"@ {
                let f = sp_flush(w);
                let (marker, stack) = next_marker(f.list_stack);
                let inner = sp_walk_children(
                    kids,
                    0,
                    WalkView {
                        li_marker: Some(marker),
                        li_depth: vstd::wrapping::u8_specs::wrapping_add(f.li_depth, 1),
                        list_stack: stack,
                        ..f
                    },
                );
                let g = sp_flush(inner);
                WalkView { li_depth: vstd::wrapping::u8_specs::wrapping_sub(g.li_depth, 1), ..g }
            } else if tag == "blockquote"@ {
                let f = sp_flush(w);
                let inner = sp_walk_children(
                    kids,
                    0,
                    WalkView { quote_depth: vstd::wrapping::u8_specs::wrapping_add(f.quote_depth, 1), ..f },
                );
                let g = sp_flush(inner);
                WalkView { quote_depth: vstd::wrapping::u8_specs::wrapping_sub(g.quote_depth, 1), ..g }
            } else if tag == "pre"@ {
                let f = sp_flush(w);
                let inner = sp_walk_children(kids, 0, WalkView { in_pre: true, pre_text: Seq::empty(), ..f });
                let text = strip_end(strip_start(inner.pre_text, '\n'), '\n');
                let g = WalkView { in_pre: false, pre_text: Seq::empty(), ..inner };
                if text.len() > 0 {
                    WalkView { blocks: g.blocks.push(BlockView::Code(text)), ..g }
                } else {
                    g
                }
            } else if tag == "img"@ {
                match attr_of(n, "src"@) {
                    Some(url) => {
                        let f = sp_flush(w);
                        WalkView {
                            blocks: f.blocks.push(BlockView::Image(url, crate::discover::or_empty(attr_of(n, "alt"@)))),
                            ..f
                        }
                    },
                    None => w,
                }
            } else if tag == "hr"@ {
                let f = sp_flush(w);
                WalkView { blocks: f.blocks.push(BlockView::Rule), ..f }
            } else if tag == "td"@ || tag == "th"@ {
                sp_push_text(sp_walk_children(kids, 0, w), " "@)
            } else {
                sp_walk_children(kids, 0, w)
            }
        },
    }
}

/// Trims the outer edges of a run of spans and drops the spans left empty
/// (see [`sp_trim_edges`]).
pub fn trim_edges(spans: &mut Vec<Span>)
    ensures
        spans_view(final(spans)@) == sp_trim_edges(spans_view(old(spans)@)),
{
    let n = spans.len();
    let ghost trimmed = edges_trimmed(spans_view(spans@));
    let mut out: Vec<Span> = Vec::new();
    let mut i: usize = 0;
    while i < n
        invariant
            n == spans@.len(),
            i <= n,
            trimmed == edges_trimmed(spans_view(spans@)),
            spans_view(out@) == trimmed.take(i as int).filter(keep_span()),
        decreases n - i,
    {
        let sp = &spans[i];
        let mut text = String::from_str(sp.text.as_str());
        if i == 0 {
            text = trim_start(text.as_str());
        }
        if i == n - 1 {
            text = trim_end(text.as_str());
        }
        proof {
            assert(trimmed[i as int].text == text@);
            assert(trimmed[i as int].style == sp.style@);
            assert(trimmed.take(i + 1).drop_last() =~= trimmed.take(i as int));
            assert(trimmed.take(i + 1).last() == trimmed[i as int]);
        }
        let ghost prefix = trimmed.take(i + 1);
        proof {
            reveal(Seq::filter);
        }
        assert(prefix.filter(keep_span()) == (if keep_span()(prefix.last()) {
            prefix.drop_last().filter(keep_span()).push(prefix.last())
        } else {
            prefix.drop_last().filter(keep_span())
        }));
        if !text.as_str().is_empty() {
            let style = copy_style(&sp.style);
            let ghost before = out@;
            out.push(Span { text, style });
            assert(spans_view(out@) =~= spans_view(before).push(trimmed[i as int]));
        }
        i = i + 1;
    }
    assert(trimmed.take(n as int) =~= trimmed);
    proof {
        reveal(Seq::filter);
    }
    *spans = out;
}

impl Walker {
    /// Emits the gathered spans as a block chosen from the context (see
    /// [`sp_flush`]).
    pub fn flush(&mut self)
        ensures
            final(self)@ == sp_flush(old(self)@),
    {
        trim_edges(&mut self.spans);
        if self.spans.len() == 0 {
            self.li_marker = None;
            return;
        }
        let mut spans: Vec<Span> = Vec::new();
        std::mem::swap(&mut spans, &mut self.spans);
        let block = if self.li_depth > 0 {
            let marker = match self.li_marker.take() {
                Some(m) => m,
                None => String::new(),
            };
            Block::ListItem { depth: self.li_depth - 1, marker, spans }
        } else if self.quote_depth > 0 {
            Block::Quote(spans)
        } else {
            Block::Paragraph(spans)
        };
        let ghost before = self.blocks@;
        self.blocks.push(block);
        assert(blocks_view(self.blocks@) =~= blocks_view(before).push(block@));
        assert(spans_view(self.spans@) =~= Seq::<SpanView>::empty());
    }

    /// Emits the gathered spans, if any, as a heading of `level`.
    pub fn flush_heading(&mut self, level: u8)
        ensures
            final(self)@ == sp_flush_heading(old(self)@, level),
    {
        trim_edges(&mut self.spans);
        if self.spans.len() > 0 {
            let mut spans: Vec<Span> = Vec::new();
            std::mem::swap(&mut spans, &mut self.spans);
            let block = Block::Heading(level, spans);
            let ghost before = self.blocks@;
            self.blocks.push(block);
            assert(blocks_view(self.blocks@) =~= blocks_view(before).push(block@));
            assert(spans_view(self.spans@) =~= Seq::<SpanView>::empty());
        }
    }
}

/// Whether `t` names a block element.
fn block_tag(t: &str) -> (b: bool)
    ensures
        b == is_block_tag(t@),
{
    same_text(t, "p") || same_text(t, "div") || same_text(t, "section") || same_text(t, "article") || same_text(t, "figure")
        || same_text(t, "figcaption") || same_text(t, "summary") || same_text(t, "details") || same_text(t, "tr")
        || same_text(t, "dt") || same_text(t, "dd")
}

/// The level of a heading element named `t`.
fn heading_of(t: &str) -> (l: Option<u8>)
    ensures
        l == heading_level(t@),
{
    if same_text(t, "h1") {
        Some(1)
    } else if same_text(t, "h2") {
        Some(2)
    } else if same_text(t, "h3") {
        Some(3)
    } else if same_text(t, "h4") {
        Some(4)
    } else if same_text(t, "h5") {
        Some(5)
    } else if same_text(t, "h6") {
        Some(6)
    } else {
        None
    }
}

/// The first number of an ordered list (see [`list_start`]).
fn start_of(attrs: &Vec<(String, String)>) -> (v: u32)
    ensures
        match crate::discover::attr_value(attrs@, "start"@) {
            Some(t) => match spec_parse_u32(t) {
                Some(x) => v == x,
                None => v == 1,
            },
            None => v == 1,
        },
{
    match crate::discover::find_attr(attrs, "start") {
        Some(t) => match parse_u32(t.as_str()) {
            Some(x) => x,
            None => 1,
        },
        None => 1,
    }
}

impl Walker {
    /// Walks `children` in `style`, then restores the style.
    pub fn with_style(&mut self, children: &Vec<HtmlNode>, style: SpanStyle)
        ensures
            final(self)@ == sp_with_style(children@, old(self)@, style@),
        decreases children, 1int,
    {
        let saved = copy_style(&self.style);
        self.style = style;
        walk_children(children, self);
        self.style = saved;
    }
}

/// Walks the nodes of `children` in order.
pub fn walk_children(children: &Vec<HtmlNode>, w: &mut Walker)
    ensures
        final(w)@ == sp_walk_children(children@, 0, old(w)@),
    decreases children, 0int,
{
    let n = children.len();
    let mut i: usize = 0;
    while i < n
        invariant
            n == children@.len(),
            i <= n,
            sp_walk_children(children@, 0, old(w)@) == sp_walk_children(children@, i as int, w@),
        decreases n - i,
    {
        walk(&children[i], w);
        i = i + 1;
    }
}

/// Walks one node and its subtree (see [`sp_walk`]).
pub fn walk(node: &HtmlNode, w: &mut Walker)
    ensures
        final(w)@ == sp_walk(*node, old(w)@),
    decreases node, 2int,
{
    match node {
        HtmlNode::Text(t) => w.push_text(t.as_str()),
        HtmlNode::Other(children) => walk_children(children, w),
        HtmlNode::Element { name, attrs, children } => {
            let tag = name.as_str();
            proof {
                reveal_strlit("a");
                reveal_strlit("br");
                reveal_strlit("ul");
                reveal_strlit("ol");
                reveal_strlit("li");
                reveal_strlit("blockquote");
                reveal_strlit("pre");
                reveal_strlit("img");
                reveal_strlit("hr");
                reveal_strlit("td");
                reveal_strlit("th");
            }
            if block_tag(tag) {
                w.flush();
                walk_children(children, w);
                w.flush();
            } else if let Some(level) = heading_of(tag) {
                w.flush();
                walk_children(children, w);
                w.flush_heading(level);
            } else if same_text(tag, "strong") || same_text(tag, "b") {
                let style = SpanStyle { bold: true, ..copy_style(&w.style) };
                w.with_style(children, style);
            } else if same_text(tag, "em") || same_text(tag, "i") || same_text(tag, "cite") || same_text(tag, "var") {
                let style = SpanStyle { italic: true, ..copy_style(&w.style) };
                w.with_style(children, style);
            } else if (same_text(tag, "code") || same_text(tag, "kbd") || same_text(tag, "samp") || same_text(tag, "tt")) && !w.in_pre {
                let style = SpanStyle { code: true, ..copy_style(&w.style) };
                w.with_style(children, style);
            } else if same_text(tag, "s") || same_text(tag, "del") || same_text(tag, "strike") {
                let style = SpanStyle { strikethrough: true, ..copy_style(&w.style) };
                w.with_style(children, style);
            } else if same_text(tag, "a") {
                let href = crate::discover::find_attr(attrs, "href");
                let style = SpanStyle { link: href, ..copy_style(&w.style) };
                w.with_style(children, style);
            } else if same_text(tag, "br") {
                w.push_newline();
            } else if same_text(tag, "ul") || same_text(tag, "ol") {
                w.flush();
                let entry = if same_text(tag, "ol") { Some(start_of(attrs)) } else { None };
                w.list_stack.push(entry);
                walk_children(children, w);
                w.list_stack.pop();
                w.flush();
            } else if same_text(tag, "li") {
                w.flush();
                let ghost stack = w.list_stack@;
                let marker = match w.list_stack.pop() {
                    Some(Some(counter)) => {
                        let mut m = String::new();
                        push_decimal(&mut m, counter as u64);
                        push_str(&mut m, ". ");
                        w.list_stack.push(Some(counter.wrapping_add(1)));
                        assert(w.list_stack@ =~= next_marker(stack).1);
                        assert(m@ =~= next_marker(stack).0);
                        m
                    },
                    Some(None) => {
                        w.list_stack.push(None);
                        assert(w.list_stack@ =~= next_marker(stack).1);
                        String::from_str("•  ")
                    },
                    None => String::from_str("•  "),
                };
                w.li_marker = Some(marker);
                w.li_depth = w.li_depth.wrapping_add(1);
                walk_children(children, w);
                w.flush();
                w.li_depth = w.li_depth.wrapping_sub(1);
            } else if same_text(tag, "blockquote") {
                w.flush();
                w.quote_depth = w.quote_depth.wrapping_add(1);
                walk_children(children, w);
                w.flush();
                w.quote_depth = w.quote_depth.wrapping_sub(1);
            } else if same_text(tag, "pre") {
                w.flush();
                w.in_pre = true;
                w.pre_text = String::new();
                walk_children(children, w);
                w.in_pre = false;
                let mut text = String::new();
                std::mem::swap(&mut text, &mut w.pre_text);
                let code = trim_char(text.as_str(), '\n');
                if !code.as_str().is_empty() {
                    let ghost before = w.blocks@;
                    let block = Block::Code(code);
                    w.blocks.push(block);
                    assert(blocks_view(w.blocks@) =~= blocks_view(before).push(block@));
                }
            } else if same_text(tag, "img") {
                match crate::discover::find_attr(attrs, "src") {
                    Some(url) => {
                        w.flush();
                        let alt = match crate::discover::find_attr(attrs, "alt") {
                            Some(a) => a,
                            None => String::new(),
                        };
                        let ghost before = w.blocks@;
                        let block = Block::Image { url, alt };
                        w.blocks.push(block);
                        assert(blocks_view(w.blocks@) =~= blocks_view(before).push(block@));
                    },
                    None => {},
                }
            } else if same_text(tag, "hr") {
                w.flush();
                let ghost before = w.blocks@;
                w.blocks.push(Block::Rule);
                assert(blocks_view(w.blocks@) =~= blocks_view(before).push(BlockView::Rule));
            } else if same_text(tag, "td") || same_text(tag, "th") {
                walk_children(children, w);
                w.push_text(" ");
            } else {
                walk_children(children, w);
            }
        },
    }
}

/// What ammonia's default cleaner makes of an HTML text, with relative URLs
/// resolved against `base` when it parses as a URL.
pub uninterp spec fn sanitized_html(html: Seq<char>, base: Option<Seq<char>>) -> Seq<char>;

/// Sanitizes article HTML with `ammonia::Builder::default()` (scripts,
/// styles and event handlers removed), rewriting relative URLs against
/// `base_url` when it parses (`UrlRelative::RewriteWithBase`). The contract
/// claims only that the result is [`sanitized_html`] of the two.
#[verifier::external_body]
fn sanitize(html: &str, base_url: Option<&str>) -> (s: String)
    ensures
        s@ == sanitized_html(html@, opt_str_view(base_url)),
{
    let mut builder = ammonia::Builder::default();
    if let Some(base) = base_url.and_then(|b| ammonia::Url::parse(b).ok()) {
        builder.url_relative(ammonia::UrlRelative::RewriteWithBase(base));
    }
    builder.clean(html).to_string()
}

/// The blocks of an article: its HTML sanitized, parsed, walked, and the
/// last gathered spans flushed.
pub open spec fn spec_html_to_blocks(html: Seq<char>, base: Option<Seq<char>>) -> Seq<BlockView> {
    sp_flush(sp_walk(html_document(sanitized_html(html, base)), initial_walk())).blocks
}

/// Converts article HTML into render blocks; relative links and images are
/// resolved against `base_url` (the article link).
pub fn html_to_blocks(html: &str, base_url: Option<&str>) -> (blocks: Vec<Block>)
    ensures
        blocks_view(blocks@) == spec_html_to_blocks(html@, opt_str_view(base_url)),
{
    let clean = sanitize(html, base_url);
    let dom = parse_html(clean.as_str());
    let mut walker = Walker::new();
    walk(&dom, &mut walker);
    walker.flush();
    walker.blocks
}

/// Spans worth showing: at least one, none of them empty.
pub open spec fn spans_ok(s: Seq<SpanView>) -> bool {
    s.len() > 0 && forall|i: int| 0 <= i < s.len() ==> (#[trigger] s[i]).text.len() > 0
}

/// A block worth showing: text blocks have spans with text, code has text.
pub open spec fn block_ok(b: BlockView) -> bool {
    match b {
        BlockView::Paragraph(s) => spans_ok(s),
        BlockView::Heading(_, s) => spans_ok(s),
        BlockView::Quote(s) => spans_ok(s),
        BlockView::ListItem(_, _, s) => spans_ok(s),
        BlockView::Code(t) => t.len() > 0,
        BlockView::Image(_, _) => true,
        BlockView::Rule => true,
    }
}

/// Every block is worth showing.
pub open spec fn blocks_ok(bs: Seq<BlockView>) -> bool {
    forall|i: int| 0 <= i < bs.len() ==> block_ok(#[trigger] bs[i])
}

proof fn lemma_trim_edges_ok(spans: Seq<SpanView>)
    ensures
        sp_trim_edges(spans).len() > 0 ==> spans_ok(sp_trim_edges(spans)),
{
    let t = edges_trimmed(spans);
    assert forall|i: int| 0 <= i < t.filter(keep_span()).len() implies (#[trigger] t.filter(keep_span())[i]).text.len() > 0 by {
        t.lemma_filter_pred(keep_span(), i);
    }
}

proof fn lemma_push_ok(bs: Seq<BlockView>, b: BlockView)
    requires
        blocks_ok(bs),
        block_ok(b),
    ensures
        blocks_ok(bs.push(b)),
{
    assert forall|i: int| 0 <= i < bs.push(b).len() implies block_ok(#[trigger] bs.push(b)[i]) by {
        if i < bs.len() {
            assert(bs.push(b)[i] == bs[i]);
        }
    }
}

proof fn lemma_flush_ok(w: WalkView)
    requires
        blocks_ok(w.blocks),
    ensures
        blocks_ok(sp_flush(w).blocks),
        forall|level: u8| blocks_ok(#[trigger] sp_flush_heading(w, level).blocks),
{
    lemma_trim_edges_ok(w.spans);
    let spans = sp_trim_edges(w.spans);
    if spans.len() > 0 {
        lemma_push_ok(w.blocks, BlockView::ListItem((w.li_depth - 1) as u8, marker_text(w.li_marker), spans));
        lemma_push_ok(w.blocks, BlockView::Quote(spans));
        lemma_push_ok(w.blocks, BlockView::Paragraph(spans));
        assert forall|level: u8| blocks_ok(#[trigger] sp_flush_heading(w, level).blocks) by {
            lemma_push_ok(w.blocks, BlockView::Heading(level, spans));
        }
    }
}

proof fn lemma_walk_ok(n: HtmlNode, w: WalkView)
    requires
        blocks_ok(w.blocks),
    ensures
        blocks_ok(sp_walk(n, w).blocks),
    decreases n, 1int,
{
    match n {
        HtmlNode::Text(t) => {},
        HtmlNode::Other(children) => lemma_walk_children_ok(children@, 0, w),
        HtmlNode::Element { name, attrs, children } => {
            let tag = name@;
            let kids = children@;
            lemma_flush_ok(w);
            let f = sp_flush(w);
            if is_block_tag(tag) || heading_level(tag) is Some {
                lemma_walk_children_ok(kids, 0, f);
                lemma_flush_ok(sp_walk_children(kids, 0, f));
            } else if is_bold_tag(tag) || is_italic_tag(tag) || (is_code_tag(tag) && !w.in_pre) || is_strike_tag(tag)
                || tag == "a"@ {
                lemma_walk_children_ok(kids, 0, WalkView { style: StyleView { bold: true, ..w.style }, ..w });
                lemma_walk_children_ok(kids, 0, WalkView { style: StyleView { italic: true, ..w.style }, ..w });
                lemma_walk_children_ok(kids, 0, WalkView { style: StyleView { code: true, ..w.style }, ..w });
                lemma_walk_children_ok(kids, 0, WalkView { style: StyleView { strikethrough: true, ..w.style }, ..w });
                lemma_walk_children_ok(kids, 0, WalkView { style: StyleView { link: attr_of(n, "href"@), ..w.style }, ..w });
            } else if tag == "br"@ {
            } else if tag == "ul"@ || tag == "ol"@ {
                let entry = if tag == "ol"@ { Some(list_start(n)) } else { None };
                let start = WalkView { list_stack: f.list_stack.push(entry), ..f };
                lemma_walk_children_ok(kids, 0, start);
                let inner = sp_walk_children(kids, 0, start);
                lemma_flush_ok(WalkView {
                    list_stack: if inner.list_stack.len() > 0 { inner.list_stack.drop_last() } else { inner.list_stack },
                    ..inner
                });
            } else if tag == "li"@ {
                let (marker, stack) = next_marker(f.list_stack);
                let start = WalkView {
                    li_marker: Some(marker),
                    li_depth: vstd::wrapping::u8_specs::wrapping_add(f.li_depth, 1),
                    list_stack: stack,
                    ..f
                };
                lemma_walk_children_ok(kids, 0, start);
                lemma_flush_ok(sp_walk_children(kids, 0, start));
            } else if tag == "blockquote"@ {
                let start = WalkView { quote_depth: vstd::wrapping::u8_specs::wrapping_add(f.quote_depth, 1), ..f };
                lemma_walk_children_ok(kids, 0, start);
                lemma_flush_ok(sp_walk_children(kids, 0, start));
            } else if tag == "pre"@ {
                let start = WalkView { in_pre: true, pre_text: Seq::empty(), ..f };
                lemma_walk_children_ok(kids, 0, start);
                let inner = sp_walk_children(kids, 0, start);
                let text = strip_end(strip_start(inner.pre_text, '\n'), '\n');
                if text.len() > 0 {
                    lemma_push_ok(inner.blocks, BlockView::Code(text));
                }
            } else if tag == "img"@ {
                match attr_of(n, "src"@) {
                    Some(url) => lemma_push_ok(f.blocks, BlockView::Image(url, crate::discover::or_empty(attr_of(n, "alt"@)))),
                    None => {},
                }
            } else if tag == "hr"@ {
                lemma_push_ok(f.blocks, BlockView::Rule);
            } else {
                lemma_walk_children_ok(kids, 0, w);
            }
        },
    }
}

proof fn lemma_walk_children_ok(ns: Seq<HtmlNode>, i: int, w: WalkView)
    requires
        blocks_ok(w.blocks),
    ensures
        blocks_ok(sp_walk_children(ns, i, w).blocks),
    decreases ns, 0int, ns.len() - i,
{
    if 0 <= i < ns.len() {
        lemma_walk_ok(ns[i], w);
        lemma_walk_children_ok(ns, i + 1, sp_walk(ns[i], w));
    }
}

/// Every block of an article is worth showing: text blocks hold at least
/// one span and no empty span, code blocks hold text.
pub proof fn lemma_blocks_never_empty(html: Seq<char>, base: Option<Seq<char>>)
    ensures
        blocks_ok(spec_html_to_blocks(html, base)),
{
    let w = sp_walk(html_document(sanitized_html(html, base)), initial_walk());
    lemma_walk_ok(html_document(sanitized_html(html, base)), initial_walk());
    lemma_flush_ok(w);
}

/// The file name under which an image fetched from `url` is cached: the
/// FNV-1a hash of the URL's UTF-8 bytes in sixteen lowercase hex digits.
pub fn cache_key(url: &str) -> (key: String)
    ensures
        key@ == hex_fixed(fnv1a64_spec(encode_utf8(url@)) as nat, 16),
{
    let mut key = String::new();
    push_hex16(&mut key, fnv1a64(url.as_bytes()));
    key
}

/// Exactly the six tags `h1` to `h6` are headings, each of its own level.
pub proof fn lemma_heading_levels(t: Seq<char>)
    ensures
        heading_level("h1"@) == Some(1u8),
        heading_level("h2"@) == Some(2u8),
        heading_level("h3"@) == Some(3u8),
        heading_level("h4"@) == Some(4u8),
        heading_level("h5"@) == Some(5u8),
        heading_level("h6"@) == Some(6u8),
        heading_level(t) is Some <==> (t == "h1"@ || t == "h2"@ || t == "h3"@ || t == "h4"@ || t == "h5"@ || t
            == "h6"@),
{
    reveal_strlit("h1");
    reveal_strlit("h2");
    reveal_strlit("h3");
    reveal_strlit("h4");
    reveal_strlit("h5");
    reveal_strlit("h6");
    assert("h1"@[1] == '1' && "h2"@[1] == '2' && "h3"@[1] == '3' && "h4"@[1] == '4' && "h5"@[1] == '5');
}

/// Walking a heading element `h1` to `h6` ends the text gathered before it,
/// walks its content, and then adds one `Heading` of the tag's level holding
/// the content's trimmed spans, if any text is left: a section title never
/// becomes body text.
pub proof fn lemma_heading_walk(
    name: String,
    attrs: Vec<(String, String)>,
    children: Vec<HtmlNode>,
    w: WalkView,
    level: u8,
)
    requires
        (level == 1 && name@ == "h1"@) || (level == 2 && name@ == "h2"@) || (level == 3 && name@ == "h3"@) || (
        level == 4 && name@ == "h4"@) || (level == 5 && name@ == "h5"@) || (level == 6 && name@ == "h6"@),
    ensures
        ({
            let inner = sp_walk_children(children@, 0, sp_flush(w));
            let spans = sp_trim_edges(inner.spans);
            let after = sp_walk(HtmlNode::Element { name, attrs, children }, w);
            &&& after.blocks == (if spans.len() > 0 {
                inner.blocks.push(BlockView::Heading(level, spans))
            } else {
                inner.blocks
            })
            &&& spans.len() > 0 ==> after.blocks.last() == BlockView::Heading(level, spans)
        }),
{
    reveal_strlit("h1");
    reveal_strlit("h2");
    reveal_strlit("h3");
    reveal_strlit("h4");
    reveal_strlit("h5");
    reveal_strlit("h6");
    reveal_strlit("p");
    reveal_strlit("div");
    reveal_strlit("section");
    reveal_strlit("article");
    reveal_strlit("figure");
    reveal_strlit("figcaption");
    reveal_strlit("summary");
    reveal_strlit("details");
    reveal_strlit("tr");
    reveal_strlit("dt");
    reveal_strlit("dd");
    assert(name@[0] == 'h');
    assert("p"@[0] != 'h' && "div"@[0] != 'h' && "section"@[0] != 'h' && "article"@[0] != 'h' && "figure"@[0] != 'h'
        && "figcaption"@[0] != 'h' && "summary"@[0] != 'h' && "details"@[0] != 'h' && "tr"@[0] != 'h' && "dt"@[0]
        != 'h' && "dd"@[0] != 'h');
    assert(!is_block_tag(name@));
    lemma_heading_levels(name@);
    assert(heading_level(name@) == Some(level));
}

/// The characters of the tag names that the walker tells apart.
proof fn lemma_tag_names()
    ensures
        "p"@ == seq!['p'],
        "div"@ == seq!['d', 'i', 'v'],
        "section"@ == seq!['s', 'e', 'c', 't', 'i', 'o', 'n'],
        "article"@ == seq!['a', 'r', 't', 'i', 'c', 'l', 'e'],
        "figure"@ == seq!['f', 'i', 'g', 'u', 'r', 'e'],
        "figcaption"@ == seq!['f', 'i', 'g', 'c', 'a', 'p', 't', 'i', 'o', 'n'],
        "summary"@ == seq!['s', 'u', 'm', 'm', 'a', 'r', 'y'],
        "details"@ == seq!['d', 'e', 't', 'a', 'i', 'l', 's'],
        "tr"@ == seq!['t', 'r'],
        "dt"@ == seq!['d', 't'],
        "dd"@ == seq!['d', 'd'],
        "h1"@ == seq!['h', '1'],
        "h2"@ == seq!['h', '2'],
        "h3"@ == seq!['h', '3'],
        "h4"@ == seq!['h', '4'],
        "h5"@ == seq!['h', '5'],
        "h6"@ == seq!['h', '6'],
        "strong"@ == seq!['s', 't', 'r', 'o', 'n', 'g'],
        "b"@ == seq!['b'],
        "em"@ == seq!['e', 'm'],
        "i"@ == seq!['i'],
        "cite"@ == seq!['c', 'i', 't', 'e'],
        "var"@ == seq!['v', 'a', 'r'],
        "code"@ == seq!['c', 'o', 'd', 'e'],
        "kbd"@ == seq!['k', 'b', 'd'],
        "samp"@ == seq!['s', 'a', 'm', 'p'],
        "tt"@ == seq!['t', 't'],
        "s"@ == seq!['s'],
        "del"@ == seq!['d', 'e', 'l'],
        "strike"@ == seq!['s', 't', 'r', 'i', 'k', 'e'],
        "a"@ == seq!['a'],
        "br"@ == seq!['b', 'r'],
        "ul"@ == seq!['u', 'l'],
        "ol"@ == seq!['o', 'l'],
        "li"@ == seq!['l', 'i'],
        "blockquote"@ == seq!['b', 'l', 'o', 'c', 'k', 'q', 'u', 'o', 't', 'e'],
        "pre"@ == seq!['p', 'r', 'e'],
        "img"@ == seq!['i', 'm', 'g'],
        "hr"@ == seq!['h', 'r'],
        "td"@ == seq!['t', 'd'],
        "th"@ == seq!['t', 'h'],
{
    reveal_strlit("p");
    reveal_strlit("div");
    reveal_strlit("section");
    reveal_strlit("article");
    reveal_strlit("figure");
    reveal_strlit("figcaption");
    reveal_strlit("summary");
    reveal_strlit("details");
    reveal_strlit("tr");
    reveal_strlit("dt");
    reveal_strlit("dd");
    reveal_strlit("h1");
    reveal_strlit("h2");
    reveal_strlit("h3");
    reveal_strlit("h4");
    reveal_strlit("h5");
    reveal_strlit("h6");
    reveal_strlit("strong");
    reveal_strlit("b");
    reveal_strlit("em");
    reveal_strlit("i");
    reveal_strlit("cite");
    reveal_strlit("var");
    reveal_strlit("code");
    reveal_strlit("kbd");
    reveal_strlit("samp");
    reveal_strlit("tt");
    reveal_strlit("s");
    reveal_strlit("del");
    reveal_strlit("strike");
    reveal_strlit("a");
    reveal_strlit("br");
    reveal_strlit("ul");
    reveal_strlit("ol");
    reveal_strlit("li");
    reveal_strlit("blockquote");
    reveal_strlit("pre");
    reveal_strlit("img");
    reveal_strlit("hr");
    reveal_strlit("td");
    reveal_strlit("th");
}

/// A bold element (`strong`, `b`) walks its content in bold, then restores the style.
#[verifier::rlimit(40)]
pub proof fn lemma_walk_bold(name: String, attrs: Vec<(String, String)>, children: Vec<HtmlNode>, w: WalkView)
    requires
        name@ == "strong"@ || name@ == "b"@,
    ensures
        sp_walk(HtmlNode::Element { name, attrs, children }, w) == sp_with_style(children@, w, StyleView { bold: true, ..w.style }),
{
    lemma_tag_names();
    let tag = name@;
    if tag.len() > 0 {
        let c = tag[0];
        assert(c == c);
    }
    if tag.len() > 1 {
        let c = tag[1];
        assert(c == c);
    }
    if tag.len() > 2 {
        let c = tag[2];
        assert(c == c);
    }
    if tag.len() > 3 {
        let c = tag[3];
        assert(c == c);
    }
    assert(!is_block_tag(tag));
    assert(heading_level(tag) is None);
}

/// An italic element (`em`, `i`, `cite`, `var`) walks its content in italics, then
/// restores the style.
#[verifier::rlimit(40)]
pub proof fn lemma_walk_italic(name: String, attrs: Vec<(String, String)>, children: Vec<HtmlNode>, w: WalkView)
    requires
        name@ == "em"@ || name@ == "i"@ || name@ == "cite"@ || name@ == "var"@,
    ensures
        sp_walk(HtmlNode::Element { name, attrs, children }, w) == sp_with_style(children@, w, StyleView { italic: true, ..w.style }),
{
    lemma_tag_names();
    let tag = name@;
    if tag.len() > 0 {
        let c = tag[0];
        assert(c == c);
    }
    if tag.len() > 1 {
        let c = tag[1];
        assert(c == c);
    }
    if tag.len() > 2 {
        let c = tag[2];
        assert(c == c);
    }
    if tag.len() > 3 {
        let c = tag[3];
        assert(c == c);
    }
    assert(!is_block_tag(tag));
    assert(heading_level(tag) is None);
}

/// Outside preformatted text, a code element (`code`, `kbd`, `samp`, `tt`) walks its
/// content in monospace, then restores the style.
#[verifier::rlimit(40)]
pub proof fn lemma_walk_code(name: String, attrs: Vec<(String, String)>, children: Vec<HtmlNode>, w: WalkView)
    requires
        (name@ == "code"@ || name@ == "kbd"@ || name@ == "samp"@ || name@ == "tt"@) && !w.in_pre,
    ensures
        sp_walk(HtmlNode::Element { name, attrs, children }, w) == sp_with_style(children@, w, StyleView { code: true, ..w.style }),
{
    lemma_tag_names();
    let tag = name@;
    if tag.len() > 0 {
        let c = tag[0];
        assert(c == c);
    }
    if tag.len() > 1 {
        let c = tag[1];
        assert(c == c);
    }
    if tag.len() > 2 {
        let c = tag[2];
        assert(c == c);
    }
    if tag.len() > 3 {
        let c = tag[3];
        assert(c == c);
    }
    assert(!is_block_tag(tag));
    assert(heading_level(tag) is None);
}

/// A struck-through element (`s`, `del`, `strike`) walks its content struck through,
/// then restores the style.
#[verifier::rlimit(40)]
pub proof fn lemma_walk_strike(name: String, attrs: Vec<(String, String)>, children: Vec<HtmlNode>, w: WalkView)
    requires
        name@ == "s"@ || name@ == "del"@ || name@ == "strike"@,
    ensures
        sp_walk(HtmlNode::Element { name, attrs, children }, w) == sp_with_style(children@, w, StyleView { strikethrough: true, ..w.style }),
{
    lemma_tag_names();
    let tag = name@;
    if tag.len() > 0 {
        let c = tag[0];
        assert(c == c);
    }
    if tag.len() > 1 {
        let c = tag[1];
        assert(c == c);
    }
    if tag.len() > 2 {
        let c = tag[2];
        assert(c == c);
    }
    if tag.len() > 3 {
        let c = tag[3];
        assert(c == c);
    }
    assert(!is_block_tag(tag));
    assert(heading_level(tag) is None);
}

/// A link walks its content linked to its `href`, then restores the style.
#[verifier::rlimit(40)]
pub proof fn lemma_walk_link(name: String, attrs: Vec<(String, String)>, children: Vec<HtmlNode>, w: WalkView)
    requires
        name@ == "a"@,
    ensures
        sp_walk(HtmlNode::Element { name, attrs, children }, w) == sp_with_style(children@, w, StyleView { link: attr_of(HtmlNode::Element { name, attrs, children }, "href"@), ..w.style }),
{
    lemma_tag_names();
    let tag = name@;
    if tag.len() > 0 {
        let c = tag[0];
        assert(c == c);
    }
    if tag.len() > 1 {
        let c = tag[1];
        assert(c == c);
    }
    if tag.len() > 2 {
        let c = tag[2];
        assert(c == c);
    }
    if tag.len() > 3 {
        let c = tag[3];
        assert(c == c);
    }
    assert(!is_block_tag(tag));
    assert(heading_level(tag) is None);
}

/// A line break adds a newline to the text.
#[verifier::rlimit(40)]
pub proof fn lemma_walk_line_break(name: String, attrs: Vec<(String, String)>, children: Vec<HtmlNode>, w: WalkView)
    requires
        name@ == "br"@,
    ensures
        sp_walk(HtmlNode::Element { name, attrs, children }, w) == sp_push_newline(w),
{
    lemma_tag_names();
    let tag = name@;
    if tag.len() > 0 {
        let c = tag[0];
        assert(c == c);
    }
    if tag.len() > 1 {
        let c = tag[1];
        assert(c == c);
    }
    if tag.len() > 2 {
        let c = tag[2];
        assert(c == c);
    }
    if tag.len() > 3 {
        let c = tag[3];
        assert(c == c);
    }
    assert(!is_block_tag(tag));
    assert(heading_level(tag) is None);
}

/// A rule ends the text before it and adds a `Rule` block.
#[verifier::rlimit(40)]
pub proof fn lemma_walk_rule(name: String, attrs: Vec<(String, String)>, children: Vec<HtmlNode>, w: WalkView)
    requires
        name@ == "hr"@,
    ensures
        sp_walk(HtmlNode::Element { name, attrs, children }, w).blocks == sp_flush(w).blocks.push(BlockView::Rule),
{
    lemma_tag_names();
    let tag = name@;
    if tag.len() > 0 {
        let c = tag[0];
        assert(c == c);
    }
    if tag.len() > 1 {
        let c = tag[1];
        assert(c == c);
    }
    if tag.len() > 2 {
        let c = tag[2];
        assert(c == c);
    }
    if tag.len() > 3 {
        let c = tag[3];
        assert(c == c);
    }
    assert(!is_block_tag(tag));
    assert(heading_level(tag) is None);
}

/// A block element ends the text before it and the text of its content.
#[verifier::rlimit(40)]
pub proof fn lemma_walk_block(name: String, attrs: Vec<(String, String)>, children: Vec<HtmlNode>, w: WalkView)
    requires
        name@ == "p"@ || name@ == "div"@ || name@ == "section"@ || name@ == "article"@ || name@ == "figure"@ || name@ == "figcaption"@ || name@ == "summary"@ || name@ == "details"@ || name@ == "tr"@ || name@ == "dt"@ || name@ == "dd"@,
    ensures
        sp_walk(HtmlNode::Element { name, attrs, children }, w) == sp_flush(sp_walk_children(children@, 0, sp_flush(w))),
{
    lemma_tag_names();
    let tag = name@;
    if tag.len() > 0 {
        let c = tag[0];
        assert(c == c);
    }
    if tag.len() > 1 {
        let c = tag[1];
        assert(c == c);
    }
    if tag.len() > 2 {
        let c = tag[2];
        assert(c == c);
    }
    if tag.len() > 3 {
        let c = tag[3];
        assert(c == c);
    }
}

} // verus!
