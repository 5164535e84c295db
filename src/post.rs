//! Items of the feed, the records that are saved for them, and the content
//! fingerprint that keys those records.
use vstd::prelude::*;

use crate::text::{decimal_int, hex_fixed, hex_fixed_u64, lemma_hex_fixed_len};

verus! {

/// An item as it is shown and saved: all fields are text.
#[derive(Debug, Clone, PartialEq, Eq)]
pub struct Post {
    pub id: String,
    pub title: String,
    pub author: String,
    pub url: String,
    pub timestamp: String,
}

/// An item detail record of the remote feed.
#[derive(Debug, Clone, PartialEq, Eq)]
pub struct HnPost {
    pub by: String,
    pub descendants: i32,
    pub id: i64,
    pub kids: Vec<i64>,
    pub score: i32,
    pub time: i64,
    pub title: String,
    pub post_type: String,
    pub url: Option<String>,
}

/// A stored item, as the saved-items query returns it.
#[derive(Debug, Clone, PartialEq, Eq)]
pub struct SavedPosts {
    pub post_id: i64,
    pub title: String,
    pub url: String,
    pub author: String,
    pub timestamp: i64,
}

/// The row written for a saved item, keyed by its content hash.
#[derive(Debug, Clone, PartialEq, Eq)]
pub struct SavedPostRecord {
    pub hash: String,
    pub post_id: i64,
    pub title: String,
    pub url: String,
    pub author: String,
    pub timestamp: i64,
}

/// A numeric field of an item to be saved that is not an integer.
#[derive(Debug, Clone, Copy, PartialEq, Eq, Structural)]
pub enum ValidationError {
    InvalidId,
    InvalidTimestamp,
}

/// The text of an optional URL: empty when there is none.
pub open spec fn url_text(url: Option<String>) -> Seq<char> {
    match url {
        Some(u) => u@,
        None => seq![],
    }
}

/// The item that a remote detail record describes.
pub open spec fn post_of_detail(p: HnPost) -> (Seq<char>, Seq<char>, Seq<char>, Seq<char>, Seq<char>) {
    (decimal_int(p.id as int), p.title@, p.by@, url_text(p.url), decimal_int(p.time as int))
}

/// The five fields of an item, in the order id, title, author, url, timestamp.
pub open spec fn fields(p: Post) -> (Seq<char>, Seq<char>, Seq<char>, Seq<char>, Seq<char>) {
    (p.id@, p.title@, p.author@, p.url@, p.timestamp@)
}

impl HnPost {
    /// The item this record describes; a missing URL becomes empty text.
    pub fn into_post(self) -> (r: Post)
        ensures
            fields(r) == post_of_detail(self),
    {
        let url = match self.url {
            Some(u) => u,
            None => String::new(),
        };
        Post {
            author: self.by,
            id: crate::text::decimal_i64(self.id),
            title: self.title,
            url,
            timestamp: crate::text::decimal_i64(self.time),
        }
    }
}

/// The item that a stored row describes.
pub open spec fn post_of_saved(p: SavedPosts) -> (Seq<char>, Seq<char>, Seq<char>, Seq<char>, Seq<char>) {
    (decimal_int(p.post_id as int), p.title@, p.author@, p.url@, decimal_int(p.timestamp as int))
}

impl SavedPosts {
    /// The item this row describes, with its numbers written in decimal.
    pub fn into_post(self) -> (r: Post)
        ensures
            fields(r) == post_of_saved(self),
    {
        Post {
            id: crate::text::decimal_i64(self.post_id),
            title: self.title,
            author: self.author,
            url: self.url,
            timestamp: crate::text::decimal_i64(self.timestamp),
        }
    }
}

/// The 64-bit digest that std's default hasher gives the five fields of an
/// item, hashed in the order id, title, author, url, timestamp.
pub uninterp spec fn post_digest_of(
    id: Seq<char>,
    title: Seq<char>,
    author: Seq<char>,
    url: Seq<char>,
    timestamp: Seq<char>,
) -> u64;

/// Relies on `BuildHasher::hash_one` of std with `BuildHasherDefault<DefaultHasher>`:
/// every such hasher starts from the same fixed keys, so the digest depends on
/// the hashed fields alone.
#[verifier::external_body]
fn post_digest(post: &Post) -> (r: u64)
    ensures
        r == post_digest_of(post.id@, post.title@, post.author@, post.url@, post.timestamp@),
{
    let builder = std::hash::BuildHasherDefault::<std::collections::hash_map::DefaultHasher>::default();
    std::hash::BuildHasher::hash_one(&builder, (&post.id, &post.title, &post.author, &post.url, &post.timestamp))
}

/// The content hash of an item: `0x` and the 64-bit digest of its fields as
/// exactly 16 lowercase hexadecimal digits.
pub open spec fn content_hash_of(p: Post) -> Seq<char> {
    seq!['0', 'x'] + hex_fixed(
        post_digest_of(p.id@, p.title@, p.author@, p.url@, p.timestamp@) as nat,
        16,
    )
}

/// The content hash that keys the stored record of an item; it depends on
/// the item's fields and nothing else.
pub fn content_hash(post: &Post) -> (r: String)
    ensures
        r@ == content_hash_of(*post),
        r@.len() == 18,
{
    let digest = post_digest(post);
    let digits = hex_fixed_u64(digest);
    proof {
        reveal_strlit("0x");
    }
    let r = "0x".to_owned().concat(digits.as_str());
    assert(r@ =~= content_hash_of(*post));
    proof {
        lemma_hex_fixed_len(digest as nat, 16);
    }
    r
}

/// The value of a nonempty run of decimal digits.
pub open spec fn digits_value(s: Seq<char>) -> int
    decreases s.len(),
{
    if s.len() == 0 {
        0
    } else {
        digits_value(s.drop_last()) * 10 + (s.last() as int - '0' as int)
    }
}

/// `s` is one or more ASCII decimal digits.
pub open spec fn all_digits(s: Seq<char>) -> bool {
    s.len() > 0 && forall|i: int| 0 <= i < s.len() ==> '0' <= #[trigger] s[i] <= '9'
}

/// The integer that `s` writes: an optional `+` or `-` sign followed by
/// decimal digits.
pub open spec fn int_text_value(s: Seq<char>) -> Option<int> {
    if s.len() > 0 && s[0] == '-' && all_digits(s.drop_first()) {
        Some(-digits_value(s.drop_first()))
    } else if s.len() > 0 && s[0] == '+' && all_digits(s.drop_first()) {
        Some(digits_value(s.drop_first()))
    } else if all_digits(s) {
        Some(digits_value(s))
    } else {
        None
    }
}

/// The 64-bit integer that `s` writes, if it writes one in range.
pub open spec fn parse_i64_of(s: Seq<char>) -> Option<i64> {
    match int_text_value(s) {
        Some(v) => if i64::MIN <= v <= i64::MAX {
            Some(v as i64)
        } else {
            None
        },
        None => None,
    }
}

/// Relies on `str::parse::<i64>` of std: an optional sign followed by decimal
/// digits, in range, is accepted; any other text is an error.
#[verifier::external_body]
fn parse_i64(s: &str) -> (r: Option<i64>)
    ensures
        r == parse_i64_of(s@),
{
    s.parse::<i64>().ok()
}

/// The record stored for an item: its content hash, and its id and timestamp
/// read as integers. An id or timestamp that is not an integer is rejected,
/// the id first.
pub fn to_record(post: &Post) -> (r: Result<SavedPostRecord, ValidationError>)
    ensures
        parse_i64_of(post.id@) is None ==> r == Err::<SavedPostRecord, ValidationError>(
            ValidationError::InvalidId,
        ),
        parse_i64_of(post.id@) is Some && parse_i64_of(post.timestamp@) is None ==> r == Err::<
            SavedPostRecord,
            ValidationError,
        >(ValidationError::InvalidTimestamp),
        r is Ok <==> (parse_i64_of(post.id@) is Some && parse_i64_of(post.timestamp@) is Some),
        r matches Ok(rec) ==> record_of(*post) == Some(record_view(rec)),
{
    let id = match parse_i64(post.id.as_str()) {
        Some(v) => v,
        None => return Err(ValidationError::InvalidId),
    };
    let timestamp = match parse_i64(post.timestamp.as_str()) {
        Some(v) => v,
        None => return Err(ValidationError::InvalidTimestamp),
    };
    Ok(
        SavedPostRecord {
            hash: content_hash(post),
            post_id: id,
            title: post.title.clone(),
            url: post.url.clone(),
            author: post.author.clone(),
            timestamp,
        },
    )
}

/// The mathematical content of a stored record: hash, post id, title, url,
/// author, timestamp.
pub type RecordView = (Seq<char>, i64, Seq<char>, Seq<char>, Seq<char>, i64);

pub open spec fn record_view(r: SavedPostRecord) -> RecordView {
    (r.hash@, r.post_id, r.title@, r.url@, r.author@, r.timestamp)
}

/// The record that saving an item writes, when its id and timestamp are
/// integers.
pub open spec fn record_of(p: Post) -> Option<RecordView> {
    match (parse_i64_of(p.id@), parse_i64_of(p.timestamp@)) {
        (Some(id), Some(ts)) => Some((content_hash_of(p), id, p.title@, p.url@, p.author@, ts)),
        _ => None,
    }
}

} // verus!
