//! Place search through Nominatim, cached in Redis.
use vstd::prelude::*;
use vstd::utf8::{decode_utf8, encode_utf8, is_char_boundary};
use vstd::string::StringSliceAdditionalSpecFns;
use crate::text::{concat3, trim_seq, trimmed_non_empty};

verus! {

broadcast use vstd::string::group_string_axioms;

/// How long a search result stays cached, in seconds.
pub const CACHE_TTL_SECS: u64 = 3600;

/// The most bytes of the query that the cache key keeps.
pub const CACHE_KEY_QUERY_BYTES: usize = 120;

/// How many bytes of the query the cache key keeps: all of them, up to 120.
pub open spec fn key_cut(q: Seq<char>) -> int {
    let n = encode_utf8(q).len() as int;
    if n < 120 {
        n
    } else {
        120
    }
}

/// The cache key of a search: a versioned prefix, the first bytes of the
/// query, and the suffix that rounds the place the search is biased toward.
pub open spec fn cache_key_text(q: Seq<char>, near_suffix: Seq<char>) -> Seq<char> {
    "geocode:v1:"@ + decode_utf8(encode_utf8(q).take(key_cut(q))) + near_suffix
}

/// The text searched for: the query trimmed. `None` where nothing is left,
/// which is answered with no results.
pub fn geocode_query(q: &str) -> (r: Option<String>)
    ensures
        match r {
            Some(t) => t@ == trim_seq(q@) && t@.len() > 0,
            None => trim_seq(q@).len() == 0,
        },
{
    trimmed_non_empty(q)
}

/// The cache key of a search. The query is cut after 120 bytes, which must
/// fall between two characters.
pub fn geocode_cache_key(q: &str, near_suffix: &str) -> (r: String)
    requires
        is_char_boundary(encode_utf8(q@), key_cut(q@)),
    ensures
        r@ == cache_key_text(q@, near_suffix@),
{
    let bytes = q.as_bytes();
    let n = bytes.len();
    let cut: usize = if n < CACHE_KEY_QUERY_BYTES {
        n
    } else {
        CACHE_KEY_QUERY_BYTES
    };
    assert(q.spec_bytes() == encode_utf8(q@));
    let (head, _) = q.split_at(cut);
    proof {
        vstd::utf8::encode_utf8_decode_utf8(head@);
        assert(encode_utf8(q@).take(cut as int) == encode_utf8(q@).subrange(0, cut as int));
    }
    concat3("geocode:v1:", head, near_suffix)
}

} // verus!
