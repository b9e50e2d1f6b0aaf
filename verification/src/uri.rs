//! Object URIs: the rewriting of the long user form, and the ids that
//! `rspotify-model` reads out of a URI.

use vstd::prelude::*;
use vstd::string::*;
use crate::model::ContextKind;

verus! {

/// The number of `:` in `s`.
pub open spec fn count_colons(s: Seq<char>) -> nat
    decreases s.len(),
{
    if s.len() == 0 {
        0
    } else {
        count_colons(s.drop_last()) + if s.last() == ':' {
            1nat
        } else {
            0nat
        }
    }
}

/// `s[i]` is a `:` with exactly `k` of them before it.
pub open spec fn is_colon_at(s: Seq<char>, i: int, k: nat) -> bool {
    0 <= i < s.len() && s[i] == ':' && count_colons(s.take(i)) == k
}

/// The place of the `:` that has exactly `k` of them before it.
pub open spec fn colon_index(s: Seq<char>, k: nat) -> int {
    choose|i: int| is_colon_at(s, i, k)
}

/// `s` in the short form `{scheme}:{type}:{id}`. A URI of five parts,
/// `{scheme}:user:{user}:{type}:{id}`, loses its second and third part: what
/// stands before the first `:` is followed by what stands from the third `:`
/// on. Any other text is kept as it is.
pub open spec fn normalized_uri(s: Seq<char>) -> Seq<char> {
    if count_colons(s) == 4 {
        s.take(colon_index(s, 0)) + s.skip(colon_index(s, 2))
    } else {
        s
    }
}

proof fn lemma_count_step(s: Seq<char>, i: int)
    requires
        0 <= i < s.len(),
    ensures
        count_colons(s.take(i + 1)) == count_colons(s.take(i)) + if s[i] == ':' {
            1nat
        } else {
            0nat
        },
{
    assert(s.take(i + 1).drop_last() == s.take(i));
}

proof fn lemma_count_monotone(s: Seq<char>, i: int, j: int)
    requires
        0 <= i <= j <= s.len(),
    ensures
        count_colons(s.take(i)) <= count_colons(s.take(j)),
    decreases j - i,
{
    if i < j {
        lemma_count_monotone(s, i, j - 1);
        lemma_count_step(s, j - 1);
    }
}

/// At most one `:` has exactly `k` of them before it.
pub proof fn lemma_colon_unique(s: Seq<char>, a: int, b: int, k: nat)
    requires
        is_colon_at(s, a, k),
        is_colon_at(s, b, k),
    ensures
        a == b,
{
    if a < b {
        lemma_count_step(s, a);
        lemma_count_monotone(s, a + 1, b);
    } else if b < a {
        lemma_count_step(s, b);
        lemma_count_monotone(s, b + 1, a);
    }
}

/// Rewrites a URI of five parts into the short form of three, and returns
/// any other text unchanged.
pub fn normalize_uri(uri: &str) -> (r: String)
    ensures
        r@ == normalized_uri(uri@),
{
    let n: usize = uri.unicode_len();
    let mut colons: usize = 0;
    let mut first: usize = 0;
    let mut third: usize = 0;
    let mut i: usize = 0;
    while i < n
        invariant
            n == uri@.len(),
            i <= n,
            colons == count_colons(uri@.take(i as int)),
            colons <= i,
            colons >= 1 ==> is_colon_at(uri@, first as int, 0),
            colons >= 3 ==> is_colon_at(uri@, third as int, 2),
        decreases n - i,
    {
        let ch = uri.get_char(i);
        proof {
            lemma_count_step(uri@, i as int);
        }
        if ch == ':' {
            if colons == 0 {
                first = i;
            }
            if colons == 2 {
                third = i;
            }
            colons = colons + 1;
        }
        i = i + 1;
    }
    proof {
        assert(uri@.take(n as int) == uri@);
    }
    if colons == 4 {
        let head = uri.substring_char(0, first);
        let tail = uri.substring_char(third, n);
        let r = String::from_str(head).concat(tail);
        proof {
            lemma_colon_unique(uri@, first as int, colon_index(uri@, 0), 0);
            lemma_colon_unique(uri@, third as int, colon_index(uri@, 2), 2);
            assert(uri@.subrange(0, first as int) == uri@.take(first as int));
            assert(uri@.subrange(third as int, n as int) == uri@.skip(third as int));
        }
        r
    } else {
        String::from_str(uri)
    }
}

/// The id that `rspotify_model::PlaylistId::from_uri` reads out of a URI,
/// where it accepts the URI.
pub uninterp spec fn playlist_id_of_uri(uri: Seq<char>) -> Option<Seq<char>>;

/// The id that `rspotify_model::AlbumId::from_uri` reads out of a URI, where
/// it accepts the URI.
pub uninterp spec fn album_id_of_uri(uri: Seq<char>) -> Option<Seq<char>>;

/// The id that `rspotify_model::ArtistId::from_uri` reads out of a URI,
/// where it accepts the URI.
pub uninterp spec fn artist_id_of_uri(uri: Seq<char>) -> Option<Seq<char>>;

/// The characters of an optional string.
pub open spec fn opt_chars(s: Option<String>) -> Option<Seq<char>> {
    match s {
        Some(s) => Some(s@),
        None => None,
    }
}

/// The id that `rspotify-model` reads out of `uri` for a context of the
/// given kind. Only playlists, albums and artists have one.
pub open spec fn id_of_uri(kind: ContextKind, uri: Seq<char>) -> Option<Seq<char>> {
    match kind {
        ContextKind::Playlist => playlist_id_of_uri(uri),
        ContextKind::Album => album_id_of_uri(uri),
        ContextKind::Artist => artist_id_of_uri(uri),
        _ => None,
    }
}

/// Calls `rspotify_model::PlaylistId::from_uri` and hands out the id's text;
/// `None` where the URI is refused. The result is named, not described.
#[verifier::external_body]
pub(crate) fn playlist_id_from_uri(uri: &str) -> (r: Option<String>)
    ensures
        opt_chars(r) == playlist_id_of_uri(uri@),
{
    rspotify_model::PlaylistId::from_uri(uri).ok().map(|id| rspotify_model::Id::id(&id).to_string())
}

/// Calls `rspotify_model::AlbumId::from_uri` and hands out the id's text;
/// `None` where the URI is refused. The result is named, not described.
#[verifier::external_body]
pub(crate) fn album_id_from_uri(uri: &str) -> (r: Option<String>)
    ensures
        opt_chars(r) == album_id_of_uri(uri@),
{
    rspotify_model::AlbumId::from_uri(uri).ok().map(|id| rspotify_model::Id::id(&id).to_string())
}

/// Calls `rspotify_model::ArtistId::from_uri` and hands out the id's text;
/// `None` where the URI is refused. The result is named, not described.
#[verifier::external_body]
pub(crate) fn artist_id_from_uri(uri: &str) -> (r: Option<String>)
    ensures
        opt_chars(r) == artist_id_of_uri(uri@),
{
    rspotify_model::ArtistId::from_uri(uri).ok().map(|id| rspotify_model::Id::id(&id).to_string())
}

} // verus!
