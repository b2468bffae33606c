//! Stable content identifiers: an item's identity is a deterministic hash
//! of its canonical source URL, so the same URL never yields two distinct
//! items, across restarts or repeated crawls.

use vstd::prelude::*;
use crate::model::{Category, CrawlItem, FetchedItem};

verus! {

/// The SHA-256 digest of a string's UTF-8 bytes. The digest depends on
/// the input alone; its value is not axiomatized here.
pub uninterp spec fn sha256_of(s: Seq<char>) -> Seq<u8>;

/// Relies on sha2::Sha256::digest: a 32-byte digest that is a function
/// of the input bytes alone.
#[verifier::external_body]
fn sha256_digest(url: &str) -> (r: Vec<u8>)
    ensures
        r@ == sha256_of(url@),
        r@.len() == 32,
{
    <sha2::Sha256 as sha2::Digest>::digest(url.as_bytes()).to_vec()
}

/// The sixteen lowercase hexadecimal digits, in value order.
pub open spec fn spec_hex_digits() -> Seq<char> {
    seq!['0', '1', '2', '3', '4', '5', '6', '7', '8', '9', 'a', 'b', 'c', 'd', 'e', 'f']
}

/// Lowercase hexadecimal encoding: two digits per byte, high nibble first.
pub open spec fn spec_hex_of(b: Seq<u8>) -> Seq<char>
    decreases b.len(),
{
    if b.len() == 0 {
        seq![]
    } else {
        seq![
            spec_hex_digits()[(b.first() >> 4u8) as int],
            spec_hex_digits()[(b.first() & 0x0fu8) as int],
        ] + spec_hex_of(b.drop_first())
    }
}

/// Relies on hex::encode: lowercase hexadecimal, exactly two digits per
/// input byte, high nibble first.
#[verifier::external_body]
fn hex_encode(b: &Vec<u8>) -> (r: String)
    ensures
        r@ == spec_hex_of(b@),
{
    hex::encode(b.as_slice())
}

/// A stable identifier is the lowercase hex encoding of the first sixteen
/// bytes of the URL's SHA-256 digest.
pub open spec fn spec_stable_id(url: Seq<char>) -> Seq<char> {
    spec_hex_of(sha256_of(url).take(16))
}

/// Derives the content identifier from the canonical source URL.
pub fn generate_stable_id(url: &str) -> (r: String)
    ensures
        r@ == spec_stable_id(url@),
{
    let digest = sha256_digest(url);
    let mut prefix: Vec<u8> = Vec::new();
    let mut i: usize = 0;
    while i < 16
        invariant
            i <= 16,
            digest@.len() == 32,
            digest@ == sha256_of(url@),
            prefix@ == digest@.take(i as int),
        decreases 16 - i,
    {
        prefix.push(digest[i]);
        i = i + 1;
    }
    assert(prefix@ == sha256_of(url@).take(16));
    hex_encode(&prefix)
}

/// Relies on uuid::Uuid::new_v4 and its hyphenated rendering: a fresh
/// random identifier, 36 characters long. Nothing more is promised of a
/// random value.
#[verifier::external_body]
pub(crate) fn new_event_id() -> (r: String)
    ensures
        r@.len() == 36,
{
    uuid::Uuid::new_v4().to_string()
}

impl FetchedItem {
    /// Turns a provider's candidate into a storable item: assigns the
    /// URL-derived identifier, stamps the fetch time and session date,
    /// and starts the lifecycle with every flag cleared.
    pub fn into_crawl_item(self, now_millis: u64, today: u64) -> (r: CrawlItem)
        ensures
            r.id@ == spec_stable_id(self.url@),
            r.source == self.source,
            r.category == self.category,
            r.title == self.title,
            r.url == self.url,
            r.thumbnail_url == self.thumbnail_url,
            r.thumbnail_data == self.thumbnail_data,
            r.description == self.description,
            r.fetched_at == now_millis,
            !r.is_seen && !r.is_saved && !r.is_consumed,
            r.session_date == today,
    {
        let id = generate_stable_id(self.url.as_str());
        CrawlItem {
            id,
            source: self.source,
            category: self.category,
            title: self.title,
            url: self.url,
            thumbnail_url: self.thumbnail_url,
            thumbnail_data: self.thumbnail_data,
            description: self.description,
            fetched_at: now_millis,
            is_seen: false,
            is_saved: false,
            is_consumed: false,
            session_date: today,
        }
    }
}

} // verus!
