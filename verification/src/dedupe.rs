//! Stable per-item identity for deduplication.
//!
//! Prefer the feed-provided id/GUID. When it's absent, synthesize a stable key
//! from a SHA-256 of the item's link and title so the same item hashes the same
//! on every poll and never re-notifies.

use sha2::Digest;
use vstd::prelude::*;
use vstd::utf8::encode_utf8;

use crate::feed::RawEntry;
use crate::text::{hex_bytes, push_hex_bytes, trim, trim_spec};

verus! {

/// The SHA-256 digest of a byte string.
pub uninterp spec fn sha256_digest(data: Seq<u8>) -> Seq<u8>;

/// `sha2::Sha256::digest`: the contract claims that the digest is
/// [`sha256_digest`] of the input and, as for every SHA-256 digest, 32 bytes
/// long.
#[verifier::external_body]
fn sha256(data: &[u8]) -> (d: Vec<u8>)
    ensures
        d@ == sha256_digest(data@),
        d@.len() == 32,
{
    sha2::Sha256::digest(data).to_vec()
}

/// The bytes hashed for a link and a title: the link, a newline, the title.
pub open spec fn link_title_bytes(link: Seq<char>, title: Seq<char>) -> Seq<u8> {
    encode_utf8(link) + seq![10u8] + encode_utf8(title)
}

/// The hex SHA-256 key of a link and a title.
pub open spec fn spec_hash_link_title(link: Seq<char>, title: Seq<char>) -> Seq<char> {
    hex_bytes(sha256_digest(link_title_bytes(link, title)))
}

/// Appends the bytes of `b` to `v`.
fn extend_bytes(v: &mut Vec<u8>, b: &[u8])
    ensures
        final(v)@ == old(v)@ + b@,
{
    let ghost start = v@;
    let mut i: usize = 0;
    while i < b.len()
        invariant
            i <= b@.len(),
            v@ == start + b@.take(i as int),
        decreases b@.len() - i,
    {
        v.push(b[i]);
        i = i + 1;
        assert(v@ =~= start + b@.take(i as int));
    }
    assert(b@.take(b@.len() as int) =~= b@);
}

/// SHA-256 of `link` + `\n` + `title`, hex-encoded. Deterministic and stable.
pub fn hash_link_title(link: &str, title: &str) -> (h: String)
    ensures
        h@ == spec_hash_link_title(link@, title@),
        h@.len() == 64,
{
    let mut data: Vec<u8> = Vec::new();
    extend_bytes(&mut data, link.as_bytes());
    data.push(10u8);
    extend_bytes(&mut data, title.as_bytes());
    assert(data@ =~= link_title_bytes(link@, title@));
    let digest = sha256(data.as_slice());
    let mut h = String::new();
    push_hex_bytes(&mut h, digest.as_slice());
    proof {
        lemma_hex_bytes_len(digest@);
    }
    h
}

/// Two hex digits per byte.
proof fn lemma_hex_bytes_len(b: Seq<u8>)
    ensures
        hex_bytes(b).len() == 2 * b.len(),
    decreases b.len(),
{
    if b.len() > 0 {
        lemma_hex_bytes_len(b.drop_last());
    }
}

/// The dedup key of an entry with id `id`: the id, trimmed, when that is not
/// blank; else the hash of its first link (or nothing) and its title (or
/// nothing).
pub open spec fn spec_stable_guid(id: Seq<char>, e: RawEntry) -> Seq<char> {
    let t = trim_spec(id);
    if t.len() > 0 {
        t
    } else {
        let link = if e.links@.len() > 0 { e.links@[0].href@ } else { Seq::empty() };
        let title = match e.title {
            Some(t) => t@,
            None => Seq::empty(),
        };
        spec_hash_link_title(link, title)
    }
}

/// Compute the dedupe key for a parsed entry.
pub fn stable_guid(entry: &RawEntry) -> (g: String)
    ensures
        g@ == spec_stable_guid(entry.id@, *entry),
{
    guid_with_id(entry, entry.id.as_str())
}

/// The dedupe key of an entry whose id is `assigned`.
pub(crate) fn guid_with_id(entry: &RawEntry, assigned: &str) -> (g: String)
    ensures
        g@ == spec_stable_guid(assigned@, *entry),
{
    let id = trim(assigned);
    if !id.as_str().is_empty() {
        return id;
    }
    let link: &str = if entry.links.len() > 0 {
        entry.links[0].href.as_str()
    } else {
        ""
    };
    let title: &str = match &entry.title {
        Some(t) => t.as_str(),
        None => "",
    };
    proof {
        reveal_strlit("");
    }
    hash_link_title(link, title)
}

} // verus!
