//! A parsed feed document in plain values, as read by feed-rs, and the entry
//! identity that feed-rs assigns when a document gives none.

use vstd::prelude::*;

verus! {

/// A feed-rs entry, carried from the parser to its conversion.
#[verifier::external_type_specification]
#[verifier::external_body]
pub struct ExFeedEntry(feed_rs::model::Entry);

/// A feed-rs link, carried from the parser to its conversion.
#[verifier::external_type_specification]
#[verifier::external_body]
pub struct ExFeedLink(feed_rs::model::Link);

/// A link of a feed or an entry.
pub struct RawLink {
    pub href: String,
    /// The link relation (`rel`), when the document gives one.
    pub rel: Option<String>,
}

/// An entry of a feed document, as feed-rs read it.
pub struct RawEntry {
    /// The entry's id as given by the document; empty when it has none.
    pub id: String,
    pub title: Option<String>,
    pub links: Vec<RawLink>,
    /// The names of the entry's authors, in document order.
    pub authors: Vec<String>,
    /// The body of the entry's content element, if it has one.
    pub content: Option<String>,
    pub summary: Option<String>,
    /// Publication time, unix seconds.
    pub published: Option<i64>,
    /// Last-modified time, unix seconds.
    pub updated: Option<i64>,
}

/// A feed document, as feed-rs read it.
pub struct RawFeed {
    pub title: Option<String>,
    pub description: Option<String>,
    pub links: Vec<RawLink>,
    pub entries: Vec<RawEntry>,
}

/// The view of an optional string.
pub open spec fn opt_view(o: Option<String>) -> Option<Seq<char>> {
    match o {
        Some(s) => Some(s@),
        None => None,
    }
}

/// A copy of an optional string.
pub fn clone_opt(o: &Option<String>) -> (r: Option<String>)
    ensures
        opt_view(r) == opt_view(*o),
{
    match o {
        Some(s) => Some(s.clone()),
        None => None,
    }
}

/// What feed-rs makes of a document: the feed in plain values, or the text
/// of its parse error. Entries keep the id the document gives (empty if none).
pub uninterp spec fn parsed_document(body: Seq<u8>) -> Result<RawFeed, Seq<char>>;

/// The id that feed-rs derives from an entry's first link and its title.
pub uninterp spec fn link_title_hash(href: Seq<char>, title: Option<Seq<char>>) -> Seq<char>;

/// The id handed to feed-rs for entries that lack one: none, so that each
/// entry keeps exactly what its document says (see [`entry_id`]).
pub fn unassigned_id() -> (s: String)
    ensures
        s@ == Seq::<char>::empty(),
{
    String::new()
}

/// Parses a feed document (Atom, RSS 0.9x/1.0/2.0 or JSON Feed) with
/// `feed_rs::parser`, configured to leave missing entry ids empty rather than
/// filling them with random UUIDs, so that the result is a function of the
/// bytes alone. The contract claims only that: the result is
/// [`parsed_document`] of `body`, the error being the parser error's text.
#[verifier::external_body]
pub(crate) fn parse_document(body: &[u8]) -> (r: Result<RawFeed, String>)
    ensures
        match r {
            Ok(f) => parsed_document(body@) == Ok::<RawFeed, Seq<char>>(f),
            Err(e) => parsed_document(body@) == Err::<RawFeed, Seq<char>>(e@),
        },
{
    let parser = feed_rs::parser::Builder::new().id_generator(|_, _, _| unassigned_id()).build();
    let feed = parser.parse(body).map_err(|e| e.to_string())?;
    Ok(RawFeed {
        title: feed.title.map(|t| t.content),
        description: feed.description.map(|t| t.content),
        links: feed.links.into_iter().map(raw_link).collect(),
        entries: feed.entries.into_iter().map(raw_entry).collect(),
    })
}

/// Conversion step of [`parse_document`]: the href and relation of a
/// feed-rs link.
#[verifier::external_body]
fn raw_link(l: feed_rs::model::Link) -> RawLink {
    RawLink { href: l.href, rel: l.rel }
}

/// Conversion step of [`parse_document`]: moves the fields that the library
/// reads out of a feed-rs entry; times become unix seconds
/// (`DateTime::timestamp`).
#[verifier::external_body]
fn raw_entry(e: feed_rs::model::Entry) -> RawEntry {
    RawEntry {
        id: e.id,
        title: e.title.map(|t| t.content),
        links: e.links.into_iter().map(raw_link).collect(),
        authors: e.authors.into_iter().map(|p| p.name).collect(),
        content: e.content.and_then(|c| c.body),
        summary: e.summary.map(|t| t.content),
        published: e.published.map(|d| d.timestamp()),
        updated: e.updated.map(|d| d.timestamp()),
    }
}

/// `feed_rs::parser::generate_id_from_link_and_title`: the SipHash-128 id of
/// a link's href and an optional title, in hex. The contract claims only that
/// the id is [`link_title_hash`] of the two.
#[verifier::external_body]
fn link_title_id(href: &str, title: &Option<String>) -> (id: String)
    ensures
        id@ == link_title_hash(href@, opt_view(*title)),
{
    let link = feed_rs::model::Link { href: href.to_string(), rel: None, media_type: None, href_lang: None, title: None, length: None };
    let text = title.as_ref().map(|t| feed_rs::model::Text { content_type: "text/plain".parse().unwrap(), src: None, content: t.clone() });
    feed_rs::parser::generate_id_from_link_and_title(&link, &text)
}

/// The id of an entry: the one its document gives; failing that the hash of
/// its first link and title, as feed-rs assigns; failing that (no link
/// either) none, where feed-rs would draw a random UUID.
pub open spec fn spec_entry_id(e: RawEntry) -> Seq<char> {
    if e.id@.len() > 0 {
        e.id@
    } else if e.links@.len() > 0 {
        link_title_hash(e.links@[0].href@, opt_view(e.title))
    } else {
        Seq::empty()
    }
}

/// The id of an entry (see [`spec_entry_id`]).
pub fn entry_id(e: &RawEntry) -> (id: String)
    ensures
        id@ == spec_entry_id(*e),
{
    if !e.id.as_str().is_empty() {
        e.id.clone()
    } else if e.links.len() > 0 {
        link_title_id(e.links[0].href.as_str(), &e.title)
    } else {
        String::new()
    }
}

} // verus!
