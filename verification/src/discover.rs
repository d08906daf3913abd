//! HTML feed autodiscovery: when a subscribed URL turns out to be an HTML
//! page (e.g. a blog homepage), find the feed it advertises via
//! `<link rel="alternate" type="application/atom+xml" ...>` and subscribe to
//! that instead.

use vstd::prelude::*;

use crate::feed::parsed_document;
use crate::fetch::FetchOutcome;
use crate::models::{same_error, Error};
use crate::parse::{is_parsed_feed_of, parse_feed, ParsedFeed};
use crate::text::{same_text, trim, trim_spec};
use crate::web::{decode_lossy, html_document, join_url, joined_url, parse_html, utf8_lossy, HtmlNode};

verus! {

/// The most feed URLs taken from one page.
pub const MAX_CANDIDATES: usize = 5;

/// The views of a list of strings.
pub open spec fn views(v: Seq<String>) -> Seq<Seq<char>> {
    v.map_values(|s: String| s@)
}

/// The value of the first attribute named `name`.
pub open spec fn attr_value(attrs: Seq<(String, String)>, name: Seq<char>) -> Option<Seq<char>>
    decreases attrs.len(),
{
    if attrs.len() == 0 {
        None
    } else if attrs[0].0@ == name {
        Some(attrs[0].1@)
    } else {
        attr_value(attrs.drop_first(), name)
    }
}

/// ASCII lowercase of one character.
pub open spec fn lower_char(c: char) -> char {
    if 'A' <= c <= 'Z' { ((c as u32) + 32) as char } else { c }
}

/// ASCII lowercase (`to_ascii_lowercase`).
pub open spec fn ascii_lower(s: Seq<char>) -> Seq<char> {
    s.map_values(|c: char| lower_char(c))
}

/// ASCII whitespace, as `split_ascii_whitespace` splits on.
pub open spec fn is_ascii_ws(c: char) -> bool {
    c == ' ' || c == '\t' || c == '\n' || c == '\x0C' || c == '\r'
}

/// `w` occurs in `s` at `i` as a whole whitespace-separated token.
pub open spec fn token_at(s: Seq<char>, i: int, w: Seq<char>) -> bool {
    &&& 0 <= i
    &&& i + w.len() <= s.len()
    &&& s.subrange(i, i + w.len()) == w
    &&& (i == 0 || is_ascii_ws(s[i - 1]))
    &&& (i + w.len() == s.len() || is_ascii_ws(s[i + w.len()]))
}

/// One of the whitespace-separated tokens of `s` is `w`.
pub open spec fn has_token(s: Seq<char>, w: Seq<char>) -> bool {
    exists|i: int| token_at(s, i, w)
}

/// The media types of feeds.
pub open spec fn is_feed_type(m: Seq<char>) -> bool {
    m == "application/rss+xml"@ || m == "application/atom+xml"@ || m == "application/feed+json"@
        || m == "application/json"@
}

/// The text of an optional attribute, empty when absent.
pub open spec fn or_empty(o: Option<Seq<char>>) -> Seq<char> {
    match o {
        Some(s) => s,
        None => Seq::empty(),
    }
}

/// The feed URL that a node advertises, resolved against `base`: a `link`
/// element whose `rel` has the token `alternate` and whose `type` is a feed
/// type (both compared in ASCII lowercase, the type trimmed), with an `href`
/// that resolves.
pub open spec fn advertised_feed(n: HtmlNode, base: Seq<char>) -> Option<Seq<char>> {
    match n {
        HtmlNode::Element { name, attrs, children } => {
            let rel = ascii_lower(or_empty(attr_value(attrs@, "rel"@)));
            let mime = ascii_lower(or_empty(attr_value(attrs@, "type"@)));
            if name@ == "link"@ && has_token(rel, "alternate"@) && is_feed_type(trim_spec(mime)) {
                match attr_value(attrs@, "href"@) {
                    Some(h) => match joined_url(base, trim_spec(h)) {
                        Ok(u) => Some(u),
                        Err(_) => None,
                    },
                    None => None,
                }
            } else {
                None
            }
        },
        _ => None,
    }
}

/// `found` after visiting `n` and its subtree in document order: stop once
/// [`MAX_CANDIDATES`] are found, add each advertised feed URL not yet found.
pub open spec fn visit_node(n: HtmlNode, base: Seq<char>, found: Seq<Seq<char>>) -> Seq<Seq<char>>
    decreases n, 1int,
{
    if found.len() >= MAX_CANDIDATES {
        found
    } else {
        let here = match advertised_feed(n, base) {
            Some(u) => if found.contains(u) { found } else { found.push(u) },
            None => found,
        };
        match n {
            HtmlNode::Element { name, attrs, children } => visit_forest(children@, 0, base, here),
            HtmlNode::Text(_) => here,
            HtmlNode::Other(children) => visit_forest(children@, 0, base, here),
        }
    }
}

/// `found` after visiting the nodes of `ns` from position `i` on.
pub open spec fn visit_forest(ns: Seq<HtmlNode>, i: int, base: Seq<char>, found: Seq<Seq<char>>) -> Seq<Seq<char>>
    decreases ns, 0int, ns.len() - i,
{
    if i < 0 || i >= ns.len() {
        found
    } else {
        visit_forest(ns, i + 1, base, visit_node(ns[i], base, found))
    }
}

/// The feed URLs that an HTML document advertises.
pub open spec fn discovered(html: Seq<u8>, base: Seq<char>) -> Seq<Seq<char>> {
    visit_node(html_document(utf8_lossy(html)), base, Seq::empty())
}

/// The value of the first attribute named `name`.
pub(crate) fn find_attr(attrs: &Vec<(String, String)>, name: &str) -> (r: Option<String>)
    ensures
        match r {
            Some(v) => attr_value(attrs@, name@) == Some(v@),
            None => attr_value(attrs@, name@) is None,
        },
{
    let n = attrs.len();
    let mut i: usize = 0;
    assert(attrs@.skip(0) =~= attrs@);
    while i < n
        invariant
            n == attrs@.len(),
            i <= n,
            attr_value(attrs@, name@) == attr_value(attrs@.skip(i as int), name@),
        decreases n - i,
    {
        assert(attrs@.skip(i as int).drop_first() =~= attrs@.skip(i + 1));
        if same_text(attrs[i].0.as_str(), name) {
            return Some(attrs[i].1.clone());
        }
        i = i + 1;
    }
    None
}

/// `to_ascii_lowercase`.
fn lowercase_ascii(s: &str) -> (r: String)
    ensures
        r@ == ascii_lower(s@),
{
    let n = s.unicode_len();
    let mut out = String::new();
    let mut i: usize = 0;
    while i < n
        invariant
            n == s@.len(),
            i <= n,
            out@ == ascii_lower(s@.take(i as int)),
        decreases n - i,
    {
        let c = s.get_char(i);
        let l = if 'A' <= c && c <= 'Z' { ((c as u8) + 32) as char } else { c };
        crate::text::push_char(&mut out, l);
        i = i + 1;
        assert(out@ =~= ascii_lower(s@.take(i as int)));
    }
    assert(s@.take(n as int) =~= s@);
    out
}

/// Whether `c` is ASCII whitespace.
fn ascii_ws(c: char) -> (b: bool)
    ensures
        b == is_ascii_ws(c),
{
    c == ' ' || c == '\t' || c == '\n' || c == '\x0C' || c == '\r'
}

/// Whether the whitespace-separated tokens of `s` include `w`.
fn contains_token(s: &str, w: &str) -> (b: bool)
    requires
        w@.len() > 0,
    ensures
        b == has_token(s@, w@),
{
    let n = s.unicode_len();
    let m = w.unicode_len();
    if m > n {
        assert forall|i: int| !token_at(s@, i, w@) by {}
        return false;
    }
    let mut i: usize = 0;
    while i <= n - m
        invariant
            n == s@.len(),
            m == w@.len(),
            0 < m <= n,
            i <= n - m + 1,
            forall|k: int| 0 <= k < i ==> !token_at(s@, k, w@),
        decreases n - m + 1 - i,
    {
        let before = i == 0 || ascii_ws(s.get_char(i - 1));
        let after = i + m == n || ascii_ws(s.get_char(i + m));
        if before && after {
            let mut j: usize = 0;
            let mut same = true;
            while j < m
                invariant
                    n == s@.len(),
                    m == w@.len(),
                    i + m <= n,
                    j <= m,
                    same == (forall|k: int| 0 <= k < j ==> s@[i + k] == w@[k]),
                decreases m - j,
            {
                if s.get_char(i + j) != w.get_char(j) {
                    same = false;
                }
                j = j + 1;
            }
            if same {
                assert(s@.subrange(i as int, i + m) =~= w@);
                assert(token_at(s@, i as int, w@));
                return true;
            }
            assert(s@.subrange(i as int, i + m) != w@) by {
                if s@.subrange(i as int, i + m) == w@ {
                    assert forall|k: int| 0 <= k < m implies s@[i + k] == w@[k] by {
                        assert(s@.subrange(i as int, i + m)[k] == s@[i + k]);
                    }
                }
            }
        }
        i = i + 1;
    }
    assert forall|k: int| !token_at(s@, k, w@) by {
        if 0 <= k && k + m <= n {
            assert(k < i);
        }
    }
    false
}

/// Whether `mime` is one of the feed media types.
fn feed_type(mime: &str) -> (b: bool)
    ensures
        b == is_feed_type(mime@),
{
    same_text(mime, "application/rss+xml") || same_text(mime, "application/atom+xml") || same_text(mime, "application/feed+json")
        || same_text(mime, "application/json")
}

/// The feed URL a node advertises (see [`advertised_feed`]).
fn advertised(node: &HtmlNode, base: &str) -> (r: Option<String>)
    ensures
        match r {
            Some(u) => advertised_feed(*node, base@) == Some(u@),
            None => advertised_feed(*node, base@) is None,
        },
{
    match node {
        HtmlNode::Element { name, attrs, children } => {
            proof {
                reveal_strlit("link");
            }
            if !same_text(name.as_str(), "link") {
                return None;
            }
            let rel = match find_attr(attrs, "rel") {
                Some(v) => lowercase_ascii(v.as_str()),
                None => lowercase_ascii(""),
            };
            let mime = match find_attr(attrs, "type") {
                Some(v) => lowercase_ascii(v.as_str()),
                None => lowercase_ascii(""),
            };
            proof {
                reveal_strlit("");
            }
            proof {
                reveal_strlit("alternate");
            }
            let tok = contains_token(rel.as_str(), "alternate");
            let tm = trim(mime.as_str());
            let ft = feed_type(tm.as_str());
            assert(rel@ == ascii_lower(or_empty(attr_value(attrs@, "rel"@))));
            assert(mime@ == ascii_lower(or_empty(attr_value(attrs@, "type"@))));
            assert(tok == has_token(ascii_lower(or_empty(attr_value(attrs@, "rel"@))), "alternate"@));
            assert(ft == is_feed_type(trim_spec(ascii_lower(or_empty(attr_value(attrs@, "type"@))))));
            if !(tok && ft) {
                return None;
            }
            match find_attr(attrs, "href") {
                Some(h) => match join_url(base, trim(h.as_str()).as_str()) {
                    Ok(u) => Some(u),
                    Err(_) => None,
                },
                None => None,
            }
        },
        _ => None,
    }
}

/// Whether `found` already holds `u`.
fn already_found(found: &Vec<String>, u: &str) -> (b: bool)
    ensures
        b == views(found@).contains(u@),
{
    let n = found.len();
    let mut i: usize = 0;
    while i < n
        invariant
            n == found@.len(),
            i <= n,
            forall|k: int| 0 <= k < i ==> found@[k]@ != u@,
        decreases n - i,
    {
        if same_text(found[i].as_str(), u) {
            assert(views(found@)[i as int] == u@);
            return true;
        }
        i = i + 1;
    }
    assert forall|k: int| 0 <= k < views(found@).len() implies views(found@)[k] != u@ by {
        assert(views(found@)[k] == found@[k]@);
    }
    false
}

/// Adds the feed URLs that `node` and its subtree advertise to `out`.
fn collect_links(node: &HtmlNode, base: &str, out: &mut Vec<String>)
    ensures
        views(final(out)@) == visit_node(*node, base@, views(old(out)@)),
    decreases node, 1int,
{
    if out.len() >= MAX_CANDIDATES {
        return;
    }
    match advertised(node, base) {
        Some(u) => {
            if !already_found(out, u.as_str()) {
                out.push(u);
                assert(views(out@) =~= views(old(out)@).push(u@));
            }
        },
        None => {},
    }
    match node {
        HtmlNode::Element { name, attrs, children } => collect_forest(children, base, out),
        HtmlNode::Text(_) => {},
        HtmlNode::Other(children) => collect_forest(children, base, out),
    }
}

/// Adds the feed URLs that the nodes of `nodes` advertise to `out`.
fn collect_forest(nodes: &Vec<HtmlNode>, base: &str, out: &mut Vec<String>)
    ensures
        views(final(out)@) == visit_forest(nodes@, 0, base@, views(old(out)@)),
    decreases nodes, 0int,
{
    let n = nodes.len();
    let mut i: usize = 0;
    while i < n
        invariant
            n == nodes@.len(),
            i <= n,
            visit_forest(nodes@, 0, base@, views(old(out)@)) == visit_forest(nodes@, i as int, base@, views(out@)),
        decreases n - i,
    {
        collect_links(&nodes[i], base, out);
        i = i + 1;
    }
}

/// Feed URLs advertised by an HTML document via `<link rel="alternate">`,
/// resolved against `base_url`, deduped, in document order, at most
/// [`MAX_CANDIDATES`].
pub fn discover_feed_urls(html: &[u8], base_url: &str) -> (urls: Vec<String>)
    ensures
        views(urls@) == discovered(html@, base_url@),
{
    let text = decode_lossy(html);
    let doc = parse_html(text.as_str());
    let mut found: Vec<String> = Vec::new();
    collect_links(&doc, base_url, &mut found);
    assert(views(Seq::<String>::empty()) =~= Seq::<Seq<char>>::empty());
    found
}

/// Visiting a node never takes the list past [`MAX_CANDIDATES`] and never
/// adds a URL twice.
proof fn lemma_visit_node_bounded(n: HtmlNode, base: Seq<char>, found: Seq<Seq<char>>)
    requires
        found.len() <= MAX_CANDIDATES,
        found.no_duplicates(),
    ensures
        visit_node(n, base, found).len() <= MAX_CANDIDATES,
        visit_node(n, base, found).no_duplicates(),
    decreases n, 1int,
{
    if found.len() < MAX_CANDIDATES {
        let here = match advertised_feed(n, base) {
            Some(u) => if found.contains(u) { found } else { found.push(u) },
            None => found,
        };
        match advertised_feed(n, base) {
            Some(u) => if !found.contains(u) {
                assert forall|i: int, j: int| 0 <= i < j < here.len() implies here[i] != here[j] by {
                    if j == here.len() - 1 {
                        assert(here[j] == u);
                        assert(here[i] == found[i]);
                    }
                }
            },
            None => {},
        }
        match n {
            HtmlNode::Element { name, attrs, children } => lemma_visit_forest_bounded(children@, 0, base, here),
            HtmlNode::Text(_) => {},
            HtmlNode::Other(children) => lemma_visit_forest_bounded(children@, 0, base, here),
        }
    }
}

/// Visiting the nodes of a forest keeps the same bounds.
proof fn lemma_visit_forest_bounded(ns: Seq<HtmlNode>, i: int, base: Seq<char>, found: Seq<Seq<char>>)
    requires
        found.len() <= MAX_CANDIDATES,
        found.no_duplicates(),
    ensures
        visit_forest(ns, i, base, found).len() <= MAX_CANDIDATES,
        visit_forest(ns, i, base, found).no_duplicates(),
    decreases ns, 0int, ns.len() - i,
{
    if 0 <= i < ns.len() {
        lemma_visit_node_bounded(ns[i], base, found);
        lemma_visit_forest_bounded(ns, i + 1, base, visit_node(ns[i], base, found));
    }
}

/// A page yields at most [`MAX_CANDIDATES`] feed URLs, none of them twice.
pub proof fn lemma_discovered_capped_and_distinct(html: Seq<u8>, base: Seq<char>)
    ensures
        discovered(html, base).len() <= MAX_CANDIDATES,
        discovered(html, base).no_duplicates(),
{
    lemma_visit_node_bounded(html_document(utf8_lossy(html)), base, Seq::empty());
}

/// Visiting a node only ever appends to what was found.
proof fn lemma_visit_node_extends(n: HtmlNode, base: Seq<char>, found: Seq<Seq<char>>)
    ensures
        visit_node(n, base, found).len() >= found.len(),
        forall|i: int| 0 <= i < found.len() ==> #[trigger] visit_node(n, base, found)[i] == found[i],
    decreases n, 1int,
{
    if found.len() < MAX_CANDIDATES {
        let here = match advertised_feed(n, base) {
            Some(u) => if found.contains(u) { found } else { found.push(u) },
            None => found,
        };
        assert(here.len() >= found.len() && forall|i: int| 0 <= i < found.len() ==> here[i] == found[i]);
        match n {
            HtmlNode::Element { name, attrs, children } => lemma_visit_forest_extends(children@, 0, base, here),
            HtmlNode::Text(_) => {},
            HtmlNode::Other(children) => lemma_visit_forest_extends(children@, 0, base, here),
        }
    }
}

/// Visiting a forest only ever appends to what was found.
proof fn lemma_visit_forest_extends(ns: Seq<HtmlNode>, i: int, base: Seq<char>, found: Seq<Seq<char>>)
    ensures
        visit_forest(ns, i, base, found).len() >= found.len(),
        forall|k: int| 0 <= k < found.len() ==> #[trigger] visit_forest(ns, i, base, found)[k] == found[k],
    decreases ns, 0int, ns.len() - i,
{
    if 0 <= i < ns.len() {
        let next = visit_node(ns[i], base, found);
        lemma_visit_node_extends(ns[i], base, found);
        lemma_visit_forest_extends(ns, i + 1, base, next);
        assert forall|k: int| 0 <= k < found.len() implies #[trigger] visit_forest(ns, i, base, found)[k] == found[k] by {
            assert(visit_forest(ns, i + 1, base, next)[k] == next[k]);
            assert(next[k] == found[k]);
        }
    }
}

/// Lowercasing keeps the length, turns each ASCII capital into its small
/// letter, and leaves every other character alone.
pub proof fn lemma_ascii_lower(s: Seq<char>)
    ensures
        ascii_lower(s).len() == s.len(),
        forall|i: int|
            0 <= i < s.len() ==> if 'A' <= #[trigger] s[i] <= 'Z' {
                ascii_lower(s)[i] as u32 == s[i] as u32 + 32
            } else {
                ascii_lower(s)[i] == s[i]
            },
{
}

/// The feed media types are exactly RSS, Atom, JSON Feed and plain JSON.
pub proof fn lemma_feed_types(m: Seq<char>)
    ensures
        is_feed_type(m) <==> (m == "application/rss+xml"@ || m == "application/atom+xml"@ || m
            == "application/feed+json"@ || m == "application/json"@),
{
}

/// A `link` element with `rel` holding `alternate`, a feed media type, and
/// an `href` that resolves is discovered: its resolved URL is among the
/// URLs found, unless the limit was already reached.
pub proof fn lemma_advertised_link_is_found(
    attrs: Vec<(String, String)>,
    children: Vec<HtmlNode>,
    name: String,
    base: Seq<char>,
    found: Seq<Seq<char>>,
    href: Seq<char>,
    url: Seq<char>,
)
    requires
        name@ == "link"@,
        has_token(ascii_lower(or_empty(attr_value(attrs@, "rel"@))), "alternate"@),
        ({
            let mime = trim_spec(ascii_lower(or_empty(attr_value(attrs@, "type"@))));
            mime == "application/rss+xml"@ || mime == "application/atom+xml"@ || mime == "application/feed+json"@
                || mime == "application/json"@
        }),
        attr_value(attrs@, "href"@) == Some(href),
        joined_url(base, trim_spec(href)) == Ok::<Seq<char>, Seq<char>>(url),
        found.len() < MAX_CANDIDATES,
    ensures
        advertised_feed(HtmlNode::Element { name, attrs, children }, base) == Some(url),
        visit_node(HtmlNode::Element { name, attrs, children }, base, found).contains(url),
{
    let n = HtmlNode::Element { name, attrs, children };
    let here = if found.contains(url) { found } else { found.push(url) };
    assert(here.contains(url)) by {
        if !found.contains(url) {
            assert(here[found.len() as int] == url);
        }
    }
    let k = choose|k: int| 0 <= k < here.len() && here[k] == url;
    lemma_visit_forest_extends(children@, 0, base, here);
    assert(visit_node(n, base, found) == visit_forest(children@, 0, base, here));
    assert(visit_node(n, base, found)[k] == url);
}

/// Everything needed to store a validated subscription. `url` is the real
/// feed URL: the discovered one when the entered URL was an HTML page.
#[derive(Debug)]
pub struct Subscription {
    pub parsed: ParsedFeed,
    pub etag: Option<String>,
    pub last_modified: Option<String>,
    pub url: String,
}

/// The search for a subscribable feed behind a URL: the URL itself first,
/// then each feed URL its page advertises.
#[derive(Debug)]
pub struct SubscriptionSearch {
    /// The URL the user entered.
    pub url: String,
    /// Why the entered URL itself is no feed, once it has been fetched.
    pub parse_error: Option<Error>,
    /// The advertised feed URLs.
    pub candidates: Vec<String>,
    /// The candidate being fetched.
    pub next: usize,
}

/// The next thing to do in a search.
#[derive(Debug)]
pub enum SearchStep {
    /// Fetch this URL (with no validators) and report what came back.
    Fetch(String),
    /// The search is over.
    Done(Result<Subscription, Error>),
}

/// `sub` is the subscription made of fetched `f`, parsed as document `raw`,
/// found at `url` (unless the fetch reported a permanent move).
pub open spec fn is_subscription_of(sub: Subscription, f: crate::fetch::FetchedFeed, raw: crate::feed::RawFeed, url: Seq<char>) -> bool {
    &&& is_parsed_feed_of(sub.parsed, raw)
    &&& crate::feed::opt_view(sub.etag) == crate::feed::opt_view(f.etag)
    &&& crate::feed::opt_view(sub.last_modified) == crate::feed::opt_view(f.last_modified)
    &&& sub.url@ == match f.permanent_url {
        Some(p) => p@,
        None => url,
    }
}

impl SubscriptionSearch {
    /// Well-formed: the candidate position stays within the candidates.
    pub open spec fn wf(self) -> bool {
        self.next <= self.candidates@.len()
    }

    /// The search is not over: the entered URL is being fetched, or a
    /// candidate is.
    pub open spec fn searching(self) -> bool {
        self.parse_error is None || self.next < self.candidates@.len()
    }

    /// Starts a search for `url`; the first step is to fetch it.
    pub fn new(url: &str) -> (r: (SubscriptionSearch, SearchStep))
        ensures
            r.0.wf(),
            r.0.searching(),
            r.0.url@ == url@,
            r.0.parse_error is None,
            r.1 matches SearchStep::Fetch(u) && u@ == url@,
    {
        let search = SubscriptionSearch { url: String::from_str(url), parse_error: None, candidates: Vec::new(), next: 0 };
        (search, SearchStep::Fetch(String::from_str(url)))
    }

    /// The subscription for a fetched feed, if its body parses.
    fn subscribe(fetched: crate::fetch::FetchedFeed, url: &String) -> (r: Result<Subscription, Error>)
        ensures
            match parsed_document(fetched.body@) {
                Ok(raw) => r is Ok && is_subscription_of(r->Ok_0, fetched, raw, url@),
                Err(m) => r matches Err(Error::Parse(e)) && e@ == m,
            },
    {
        match parse_feed(fetched.body.as_slice()) {
            Ok(parsed) => {
                let u = match fetched.permanent_url {
                    Some(p) => p,
                    None => url.clone(),
                };
                Ok(Subscription { parsed, etag: fetched.etag, last_modified: fetched.last_modified, url: u })
            },
            Err(e) => Err(e),
        }
    }

    /// What to do after the fetch of the current URL gave `result`. The
    /// entered URL: a failed fetch or a 304 ends the search; a feed is
    /// subscribed to; otherwise its page's advertised feeds are tried in
    /// order. A candidate: a feed that parses is subscribed to; anything else
    /// moves on to the next. When none is left, the entered URL's parse error
    /// ends the search.
    pub fn on_fetched(&mut self, result: Result<FetchOutcome, Error>) -> (step: SearchStep)
        requires
            old(self).wf(),
            old(self).searching(),
        ensures
            final(self).wf(),
            step is Fetch ==> final(self).searching(),
            final(self).url == old(self).url,
            old(self).parse_error is None ==> match result {
                Err(e) => step == SearchStep::Done(Err(e)),
                Ok(FetchOutcome::NotModified) => step matches SearchStep::Done(Err(Error::Http(m))) && m@ == "empty 304 response"@,
                Ok(FetchOutcome::Fetched(f)) => match parsed_document(f.body@) {
                    Ok(raw) => step matches SearchStep::Done(Ok(sub)) && is_subscription_of(sub, f, raw, old(self).url@),
                    Err(m) => {
                        &&& final(self).parse_error matches Some(Error::Parse(pe)) && pe@ == m
                        &&& views(final(self).candidates@) == discovered(f.body@, old(self).url@)
                        &&& final(self).next == 0
                        &&& if final(self).candidates@.len() > 0 {
                            step matches SearchStep::Fetch(u) && u@ == final(self).candidates@[0]@
                        } else {
                            step matches SearchStep::Done(Err(e)) && same_error(e, final(self).parse_error.unwrap())
                        }
                    },
                },
            },
            old(self).parse_error is Some ==> {
                let candidate = old(self).candidates@[old(self).next as int]@;
                let found = match result {
                    Ok(FetchOutcome::Fetched(f)) => match parsed_document(f.body@) {
                        Ok(raw) => step matches SearchStep::Done(Ok(sub)) && is_subscription_of(sub, f, raw, candidate),
                        Err(_) => false,
                    },
                    _ => false,
                };
                ||| found
                ||| {
                    &&& !(result matches Ok(FetchOutcome::Fetched(f)) && parsed_document(f.body@) is Ok)
                    &&& final(self).parse_error is Some
                    &&& same_error(final(self).parse_error.unwrap(), old(self).parse_error.unwrap())
                    &&& final(self).candidates == old(self).candidates
                    &&& final(self).next == old(self).next + 1
                    &&& if final(self).next < final(self).candidates@.len() {
                        step matches SearchStep::Fetch(u) && u@ == final(self).candidates@[final(self).next as int]@
                    } else {
                        step matches SearchStep::Done(Err(e)) && same_error(e, old(self).parse_error.unwrap())
                    }
                }
            },
    {
        if self.parse_error.is_none() {
            let fetched = match result {
                Err(e) => return SearchStep::Done(Err(e)),
                Ok(FetchOutcome::NotModified) => return SearchStep::Done(Err(Error::Http(String::from_str("empty 304 response")))),
                Ok(FetchOutcome::Fetched(f)) => f,
            };
            let candidates = discover_feed_urls(fetched.body.as_slice(), self.url.as_str());
            match Self::subscribe(fetched, &self.url) {
                Ok(sub) => SearchStep::Done(Ok(sub)),
                Err(e) => {
                    let first = if candidates.len() > 0 { Some(candidates[0].clone()) } else { None };
                    self.candidates = candidates;
                    self.next = 0;
                    match first {
                        Some(u) => {
                            self.parse_error = Some(e);
                            SearchStep::Fetch(u)
                        },
                        None => {
                            self.parse_error = Some(e.clone());
                            SearchStep::Done(Err(e))
                        },
                    }
                },
            }
        } else {
            let candidate = self.candidates[self.next].clone();
            if let Ok(FetchOutcome::Fetched(feed)) = result {
                if let Ok(sub) = Self::subscribe(feed, &candidate) {
                    return SearchStep::Done(Ok(sub));
                }
            }
            let len = self.candidates.len();
            self.next = self.next + 1;
            if self.next < len {
                SearchStep::Fetch(self.candidates[self.next].clone())
            } else {
                let e = match &self.parse_error {
                    Some(e) => e.clone(),
                    None => Error::Http(String::new()),
                };
                SearchStep::Done(Err(e))
            }
        }
    }
}

} // verus!
