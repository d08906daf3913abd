//! From feed bytes to new items: the feed's metadata, and for each entry its
//! link, author, content, publication time and a dedup key that stays the
//! same on every poll.

use vstd::prelude::*;
use vstd::utf8::encode_utf8;

use crate::feed::{clone_opt, entry_id, opt_view, parse_document, parsed_document, spec_entry_id, RawEntry, RawFeed, RawLink};
use crate::models::{Error, NewItem};
use crate::text::{hex_fixed, push_hex16, push_str, same_text, trim, trim_spec};

verus! {

/// A parsed feed: its metadata and its items in document order.
#[derive(Debug)]
pub struct ParsedFeed {
    pub title: String,
    pub site_url: Option<String>,
    pub description: Option<String>,
    pub items: Vec<NewItem>,
}

/// FNV-1a 64-bit offset basis.
pub const FNV_OFFSET: u64 = 0xcbf2_9ce4_8422_2325;

/// FNV-1a 64-bit prime.
pub const FNV_PRIME: u64 = 0x0000_0100_0000_01b3;

/// FNV-1a over `data`: for each byte, xor it in, then multiply by the prime
/// modulo `2^64`.
pub open spec fn fnv1a64_spec(data: Seq<u8>) -> u64
    decreases data.len(),
{
    if data.len() == 0 {
        FNV_OFFSET
    } else {
        let h = fnv1a64_spec(data.drop_last()) ^ (data.last() as u64);
        ((h as nat * FNV_PRIME as nat) % 0x1_0000_0000_0000_0000) as u64
    }
}

/// FNV-1a: tiny and stable across releases (unlike `DefaultHasher`), which
/// matters because the hash persists in the DB as a dedup key.
pub fn fnv1a64(data: &[u8]) -> (h: u64)
    ensures
        h == fnv1a64_spec(data@),
{
    let mut hash: u64 = FNV_OFFSET;
    let mut i: usize = 0;
    while i < data.len()
        invariant
            i <= data@.len(),
            hash == fnv1a64_spec(data@.take(i as int)),
        decreases data@.len() - i,
    {
        proof {
            assert(data@.take(i + 1).drop_last() =~= data@.take(i as int));
        }
        hash = (hash ^ (data[i] as u64)).wrapping_mul(FNV_PRIME);
        i = i + 1;
    }
    assert(data@.take(data@.len() as int) =~= data@);
    hash
}

/// Positions of the dashes in the textual form of a UUID.
pub open spec fn is_uuid_dash_position(i: int) -> bool {
    i == 8 || i == 13 || i == 18 || i == 23
}

/// An ASCII hexadecimal digit.
pub open spec fn is_hex_byte(b: u8) -> bool {
    (48 <= b <= 57) || (65 <= b <= 70) || (97 <= b <= 102)
}

/// Thirty-six bytes: dashes at the four UUID positions, hex digits elsewhere.
pub open spec fn is_bare_uuid(b: Seq<u8>) -> bool {
    &&& b.len() == 36
    &&& forall|i: int|
        0 <= i < 36 ==> (if is_uuid_dash_position(i) {
            #[trigger] b[i] == 45
        } else {
            is_hex_byte(b[i])
        })
}

/// Whether `id` has the shape of a bare UUID (what feed-rs invents for an
/// entry with neither guid nor link).
pub fn looks_like_bare_uuid(id: &str) -> (r: bool)
    ensures
        r == is_bare_uuid(encode_utf8(id@)),
{
    let bytes = id.as_bytes();
    if bytes.len() != 36 {
        return false;
    }
    let mut i: usize = 0;
    while i < 36
        invariant
            bytes@ == encode_utf8(id@),
            bytes@.len() == 36,
            i <= 36,
            forall|k: int|
                0 <= k < i ==> (if is_uuid_dash_position(k) {
                    #[trigger] bytes@[k] == 45
                } else {
                    is_hex_byte(bytes@[k])
                }),
        decreases 36 - i,
    {
        let b = bytes[i];
        let ok = if i == 8 || i == 13 || i == 18 || i == 23 {
            b == 45
        } else {
            (48 <= b && b <= 57) || (65 <= b && b <= 70) || (97 <= b && b <= 102)
        };
        if !ok {
            return false;
        }
        i = i + 1;
    }
    true
}

/// The text of an optional string, empty when absent.
pub open spec fn text_or_empty(o: Option<String>) -> Seq<char> {
    match o {
        Some(s) => s@,
        None => Seq::empty(),
    }
}

/// A link that is the entry's page: no relation, or `alternate`.
pub open spec fn is_alternate(l: RawLink) -> bool {
    match l.rel {
        None => true,
        Some(r) => r@ == "alternate"@,
    }
}

/// The index of the first alternate link at or after `i`.
pub open spec fn first_alternate_from(links: Seq<RawLink>, i: int) -> Option<int>
    decreases links.len() - i,
{
    if i < 0 || i >= links.len() {
        None
    } else if is_alternate(links[i]) {
        Some(i)
    } else {
        first_alternate_from(links, i + 1)
    }
}

/// The item's link: its first alternate link, else its first link.
pub open spec fn item_link(e: RawEntry) -> Option<Seq<char>> {
    match first_alternate_from(e.links@, 0) {
        Some(i) => Some(e.links@[i].href@),
        None => if e.links@.len() > 0 {
            Some(e.links@[0].href@)
        } else {
            None
        },
    }
}

/// The first author name that is not blank, trimmed, from position `i` on.
pub open spec fn first_author_from(names: Seq<String>, i: int) -> Option<Seq<char>>
    decreases names.len() - i,
{
    if i < 0 || i >= names.len() {
        None
    } else if trim_spec(names[i]@).len() > 0 {
        Some(trim_spec(names[i]@))
    } else {
        first_author_from(names, i + 1)
    }
}

/// The item's body: the entry's content, else its summary.
pub open spec fn item_content(e: RawEntry) -> Option<Seq<char>> {
    match e.content {
        Some(c) => Some(c@),
        None => opt_view(e.summary),
    }
}

/// The item's time: publication, else last modification.
pub open spec fn item_published(e: RawEntry) -> Option<i64> {
    match e.published {
        Some(t) => Some(t),
        None => e.updated,
    }
}

/// The text hashed for an entry without a usable id: title then body.
pub open spec fn content_basis(e: RawEntry) -> Seq<char> {
    text_or_empty(e.title) + match item_content(e) {
        Some(c) => c,
        None => Seq::empty(),
    }
}

/// The dedup key of an entry with id `id`: the id, unless that is blank or
/// is a bare UUID on an entry without link (which feed-rs would have drawn at
/// random); then `fnv:` and the sixteen hex digits of FNV-1a over title and
/// body.
pub open spec fn item_guid(id: Seq<char>, e: RawEntry) -> Seq<char> {
    if trim_spec(id).len() == 0 || (item_link(e) is None && is_bare_uuid(encode_utf8(id))) {
        "fnv:"@ + hex_fixed(fnv1a64_spec(encode_utf8(content_basis(e))) as nat, 16)
    } else {
        id
    }
}

/// `item` is the item made of entry `e` with id `id`.
pub open spec fn is_item_with_id(item: NewItem, id: Seq<char>, e: RawEntry) -> bool {
    &&& item.guid@ == item_guid(id, e)
    &&& item.title@ == text_or_empty(e.title)
    &&& opt_view(item.link) == item_link(e)
    &&& opt_view(item.author) == first_author_from(e.authors@, 0)
    &&& item.published_at == item_published(e)
    &&& opt_view(item.content_html) == item_content(e)
}

/// `item` is what [`entry_to_item`] makes of `e`, whose id is as given.
pub open spec fn is_item_of(item: NewItem, e: RawEntry) -> bool {
    is_item_with_id(item, e.id@, e)
}

/// `item` is the item of document entry `e`, which gets the id that feed-rs
/// assigns (see [`spec_entry_id`]).
pub open spec fn is_document_item_of(item: NewItem, e: RawEntry) -> bool {
    is_item_with_id(item, spec_entry_id(e), e)
}

/// A feed link that is not the feed's own (`self`) link.
pub open spec fn is_site_link(l: RawLink) -> bool {
    match l.rel {
        None => true,
        Some(r) => r@ != "self"@,
    }
}

/// The first feed link at or after `i` that is not `self`.
pub open spec fn site_url_from(links: Seq<RawLink>, i: int) -> Option<Seq<char>>
    decreases links.len() - i,
{
    if i < 0 || i >= links.len() {
        None
    } else if is_site_link(links[i]) {
        Some(links[i].href@)
    } else {
        site_url_from(links, i + 1)
    }
}

/// `p` is what [`feed_from_document`] makes of the document `raw`.
pub open spec fn is_parsed_feed_of(p: ParsedFeed, raw: RawFeed) -> bool {
    &&& p.title@ == text_or_empty(raw.title)
    &&& opt_view(p.site_url) == site_url_from(raw.links@, 0)
    &&& opt_view(p.description) == opt_view(raw.description)
    &&& p.items@.len() == raw.entries@.len()
    &&& forall|i: int| 0 <= i < p.items@.len() ==> is_document_item_of(#[trigger] p.items@[i], raw.entries@[i])
}

/// Whether an optional relation names exactly `word`.
fn rel_is(rel: &Option<String>, word: &str) -> (r: bool)
    ensures
        r == (match rel {
            Some(s) => s@ == word@,
            None => false,
        }),
{
    match rel {
        Some(s) => same_text(s.as_str(), word),
        None => false,
    }
}

/// The link of an entry (see [`item_link`]).
fn pick_link(e: &RawEntry) -> (l: Option<String>)
    ensures
        opt_view(l) == item_link(*e),
{
    let n = e.links.len();
    let mut i: usize = 0;
    while i < n
        invariant
            n == e.links@.len(),
            i <= n,
            first_alternate_from(e.links@, 0) == first_alternate_from(e.links@, i as int),
        decreases n - i,
    {
        let l = &e.links[i];
        if l.rel.is_none() || rel_is(&l.rel, "alternate") {
            proof {
                reveal_strlit("alternate");
            }
            return Some(l.href.clone());
        }
        i = i + 1;
    }
    if n > 0 {
        Some(e.links[0].href.clone())
    } else {
        None
    }
}

/// The author of an entry (see [`first_author_from`]).
fn pick_author(e: &RawEntry) -> (a: Option<String>)
    ensures
        opt_view(a) == first_author_from(e.authors@, 0),
{
    let n = e.authors.len();
    let mut i: usize = 0;
    while i < n
        invariant
            n == e.authors@.len(),
            i <= n,
            first_author_from(e.authors@, 0) == first_author_from(e.authors@, i as int),
        decreases n - i,
    {
        let name = trim(e.authors[i].as_str());
        if !name.as_str().is_empty() {
            return Some(name);
        }
        i = i + 1;
    }
    None
}

/// The body of an entry (see [`item_content`]).
fn pick_content(e: &RawEntry) -> (c: Option<String>)
    ensures
        opt_view(c) == item_content(*e),
{
    match &e.content {
        Some(c) => Some(c.clone()),
        None => clone_opt(&e.summary),
    }
}

/// The site URL of a feed (see [`site_url_from`]).
fn pick_site_url(links: &Vec<RawLink>) -> (u: Option<String>)
    ensures
        opt_view(u) == site_url_from(links@, 0),
{
    let n = links.len();
    let mut i: usize = 0;
    while i < n
        invariant
            n == links@.len(),
            i <= n,
            site_url_from(links@, 0) == site_url_from(links@, i as int),
        decreases n - i,
    {
        let l = &links[i];
        if !rel_is(&l.rel, "self") {
            proof {
                reveal_strlit("self");
            }
            return Some(l.href.clone());
        }
        i = i + 1;
    }
    None
}

/// The new item for one entry: its title, link, author, body and time, and
/// a dedup key that is the same on every parse of the same entry.
pub fn entry_to_item(entry: &RawEntry) -> (item: NewItem)
    ensures
        is_item_of(item, *entry),
{
    item_with_id(entry, entry.id.clone())
}

/// The new item for an entry whose id is `id`.
fn item_with_id(entry: &RawEntry, id: String) -> (item: NewItem)
    ensures
        is_item_with_id(item, id@, *entry),
{
    let link = pick_link(entry);
    let title = match &entry.title {
        Some(t) => t.clone(),
        None => String::new(),
    };
    let author = pick_author(entry);
    let content_html = pick_content(entry);
    let published_at = match entry.published {
        Some(t) => Some(t),
        None => entry.updated,
    };
    let blank = trim(id.as_str()).as_str().is_empty();
    let guid = if blank || (link.is_none() && looks_like_bare_uuid(id.as_str())) {
        let mut basis = title.clone();
        match &content_html {
            Some(c) => push_str(&mut basis, c.as_str()),
            None => {},
        }
        let mut g = String::new();
        push_str(&mut g, "fnv:");
        push_hex16(&mut g, fnv1a64(basis.as_str().as_bytes()));
        proof {
            assert(basis@ =~= content_basis(*entry));
        }
        g
    } else {
        id
    };
    NewItem { guid, title, link, author, published_at, content_html }
}

/// The feed for a parsed document: title (empty if none), the first link
/// that is not `self` as site URL, description, and one item per entry.
pub fn feed_from_document(raw: &RawFeed) -> (p: ParsedFeed)
    ensures
        is_parsed_feed_of(p, *raw),
{
    let title = match &raw.title {
        Some(t) => t.clone(),
        None => String::new(),
    };
    let site_url = pick_site_url(&raw.links);
    let mut items: Vec<NewItem> = Vec::new();
    let m = raw.entries.len();
    let mut j: usize = 0;
    while j < m
        invariant
            m == raw.entries@.len(),
            j <= m,
            items@.len() == j,
            forall|k: int| 0 <= k < j ==> is_document_item_of(#[trigger] items@[k], raw.entries@[k]),
        decreases m - j,
    {
        let e = &raw.entries[j];
        items.push(item_with_id(e, entry_id(e)));
        j = j + 1;
    }
    ParsedFeed { title, site_url, description: clone_opt(&raw.description), items }
}

/// Parses a feed document into its metadata and items; a document feed-rs
/// cannot read is [`Error::Parse`] with the parser's message.
pub fn parse_feed(body: &[u8]) -> (r: Result<ParsedFeed, Error>)
    ensures
        match parsed_document(body@) {
            Ok(raw) => r is Ok && is_parsed_feed_of(r->Ok_0, raw),
            Err(m) => r matches Err(Error::Parse(e)) && e@ == m,
        },
{
    match parse_document(body) {
        Ok(raw) => Ok(feed_from_document(&raw)),
        Err(e) => Err(Error::Parse(e)),
    }
}

/// A dedup key is never blank: an id that trims to nothing is replaced by
/// the `fnv:` key, which starts and ends with a visible character.
pub proof fn lemma_item_guid_not_blank(id: Seq<char>, e: RawEntry)
    ensures
        trim_spec(item_guid(id, e)).len() > 0,
{
    let g = item_guid(id, e);
    if g != id || trim_spec(id).len() == 0 {
        let h = fnv1a64_spec(encode_utf8(content_basis(e))) as nat;
        let digits = hex_fixed(h, 16);
        reveal_strlit("fnv:");
        assert(g == "fnv:"@ + digits);
        assert(digits == hex_fixed(h / 16, 15).push(crate::text::hex_char(h % 16)));
        assert(g[0] == 'f');
        assert(crate::text::trim_start_spec(g) == g);
        assert(g.last() == crate::text::hex_char(h % 16));
        assert(crate::text::trim_end_spec(g) == g);
    }
}

/// An item carries its entry's full content when the entry has any; the
/// summary stands in only when there is no content.
pub proof fn lemma_item_prefers_content(item: NewItem, e: RawEntry)
    requires
        is_item_of(item, e) || is_document_item_of(item, e),
    ensures
        e.content matches Some(c) ==> opt_view(item.content_html) == Some(c@),
        e.content is None ==> opt_view(item.content_html) == opt_view(e.summary),
{
}

/// A link that names the entry's own page: it has no relation, or the
/// relation `alternate`.
pub open spec fn names_page(l: RawLink) -> bool {
    l.rel matches Some(r) ==> r@ == "alternate"@
}

/// The search for a page link from `k` finds the first one at or after `k`.
proof fn lemma_first_alternate_finds(links: Seq<RawLink>, k: int, i: int)
    requires
        0 <= k <= i < links.len(),
        names_page(links[i]),
        forall|j: int| k <= j < i ==> !names_page(#[trigger] links[j]),
    ensures
        first_alternate_from(links, k) == Some(i),
    decreases i - k,
{
    if k < i {
        lemma_first_alternate_finds(links, k + 1, i);
    }
}

/// Without page links from `k` on, the search finds nothing.
proof fn lemma_first_alternate_none(links: Seq<RawLink>, k: int)
    requires
        0 <= k,
        forall|j: int| k <= j < links.len() ==> !names_page(#[trigger] links[j]),
    ensures
        first_alternate_from(links, k) is None,
    decreases links.len() - k,
{
    if k < links.len() {
        lemma_first_alternate_none(links, k + 1);
    }
}

/// The search for an author from `k` finds the first non-blank one.
proof fn lemma_first_author_finds(names: Seq<String>, k: int, i: int)
    requires
        0 <= k <= i < names.len(),
        trim_spec(names[i]@).len() > 0,
        forall|j: int| k <= j < i ==> trim_spec((#[trigger] names[j])@).len() == 0,
    ensures
        first_author_from(names, k) == Some(trim_spec(names[i]@)),
    decreases i - k,
{
    if k < i {
        lemma_first_author_finds(names, k + 1, i);
    }
}

/// Without non-blank authors from `k` on, the search finds nothing.
proof fn lemma_first_author_none(names: Seq<String>, k: int)
    requires
        0 <= k,
        forall|j: int| k <= j < names.len() ==> trim_spec((#[trigger] names[j])@).len() == 0,
    ensures
        first_author_from(names, k) is None,
    decreases names.len() - k,
{
    if k < names.len() {
        lemma_first_author_none(names, k + 1);
    }
}

/// What an item takes from its entry: the title (empty if none); as link,
/// the first link that names the entry's page, else the first link, else
/// none; as author, the first author name that is not blank, trimmed; as
/// time, the publication time, else the last modification.
pub proof fn lemma_item_fields(item: NewItem, e: RawEntry)
    requires
        is_item_of(item, e) || is_document_item_of(item, e),
    ensures
        item.title@ == (match e.title {
            Some(t) => t@,
            None => Seq::<char>::empty(),
        }),
        forall|i: int|
            0 <= i < e.links@.len() && names_page(#[trigger] e.links@[i]) && (forall|j: int|
                0 <= j < i ==> !names_page(e.links@[j])) ==> opt_view(item.link) == Some(e.links@[i].href@),
        (forall|j: int| 0 <= j < e.links@.len() ==> !names_page(#[trigger] e.links@[j])) && e.links@.len() > 0
            ==> opt_view(item.link) == Some(e.links@[0].href@),
        e.links@.len() == 0 ==> item.link is None,
        forall|i: int|
            0 <= i < e.authors@.len() && trim_spec((#[trigger] e.authors@[i])@).len() > 0 && (forall|j: int|
                0 <= j < i ==> trim_spec(e.authors@[j]@).len() == 0) ==> opt_view(item.author) == Some(
                trim_spec(e.authors@[i]@),
            ),
        (forall|j: int| 0 <= j < e.authors@.len() ==> trim_spec((#[trigger] e.authors@[j])@).len() == 0)
            ==> item.author is None,
        e.published matches Some(t) ==> item.published_at == Some(t),
        e.published is None ==> item.published_at == e.updated,
{
    reveal_strlit("alternate");
    assert forall|l: RawLink| #[trigger] is_alternate(l) == names_page(l) by {}
    assert forall|i: int|
        0 <= i < e.links@.len() && names_page(#[trigger] e.links@[i]) && (forall|j: int|
            0 <= j < i ==> !names_page(e.links@[j])) implies opt_view(item.link) == Some(e.links@[i].href@) by {
        lemma_first_alternate_finds(e.links@, 0, i);
    }
    if forall|j: int| 0 <= j < e.links@.len() ==> !names_page(#[trigger] e.links@[j]) {
        lemma_first_alternate_none(e.links@, 0);
    }
    assert forall|i: int|
        0 <= i < e.authors@.len() && trim_spec((#[trigger] e.authors@[i])@).len() > 0 && (forall|j: int|
            0 <= j < i ==> trim_spec(e.authors@[j]@).len() == 0) implies opt_view(item.author) == Some(
        trim_spec(e.authors@[i]@),
    ) by {
        lemma_first_author_finds(e.authors@, 0, i);
    }
    if forall|j: int| 0 <= j < e.authors@.len() ==> trim_spec((#[trigger] e.authors@[j])@).len() == 0 {
        lemma_first_author_none(e.authors@, 0);
    }
}

} // verus!
