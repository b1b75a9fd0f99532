//! Classification of catalog URIs.
//!
//! A catalog URI names a single track, an album, or a playlist. The kind is
//! derived by substring matching on a scheme marker: a URI in which exactly
//! one of the three known markers occurs gets the corresponding kind, and
//! any other URI is unrecognized. The identifier part of a recognized URI
//! is the text after the marker and a separating colon.

use vstd::prelude::*;
use vstd::string::StrSliceExecFns;

verus! {

/// The kind of catalog item a URI names.
#[derive(Clone, Copy, PartialEq, Eq, Structural, Debug)]
pub enum Kind {
    Track,
    Album,
    Playlist,
    Unrecognized,
}

/// The scheme marker whose presence makes a URI name a single track.
pub open spec fn track_marker() -> Seq<char> {
    "spotify:track"@
}

/// The scheme marker whose presence makes a URI name an album.
pub open spec fn album_marker() -> Seq<char> {
    "spotify:album"@
}

/// The scheme marker whose presence makes a URI name a playlist.
pub open spec fn playlist_marker() -> Seq<char> {
    "spotify:playlist"@
}

/// `m` occurs in `s` as the contiguous run starting at position `i`.
pub open spec fn occurs_at(s: Seq<char>, m: Seq<char>, i: int) -> bool {
    0 <= i && i + m.len() <= s.len() && s.subrange(i, i + m.len() as int) == m
}

/// `m` occurs somewhere in `s` as a contiguous substring.
pub open spec fn occurs_in(s: Seq<char>, m: Seq<char>) -> bool {
    exists|i: int| occurs_at(s, m, i)
}

/// The classification of a URI: the kind whose scheme marker occurs in the
/// URI, when exactly one of the three markers does; `Unrecognized` when none
/// or more than one occurs.
pub open spec fn spec_classify(s: Seq<char>) -> Kind {
    let t = occurs_in(s, track_marker());
    let a = occurs_in(s, album_marker());
    let p = occurs_in(s, playlist_marker());
    if t && !a && !p {
        Kind::Track
    } else if a && !t && !p {
        Kind::Album
    } else if p && !t && !a {
        Kind::Playlist
    } else {
        Kind::Unrecognized
    }
}

/// Whether `m@` occurs in `s@` starting exactly at position `i`.
fn match_at(s: &str, m: &str, i: usize) -> (r: bool)
    requires
        i + m@.len() <= s@.len() <= usize::MAX,
    ensures
        r == occurs_at(s@, m@, i as int),
{
    let k = m.unicode_len();
    let mut j: usize = 0;
    while j < k
        invariant
            i + k <= s@.len() <= usize::MAX,
            k == m@.len(),
            j <= k,
            forall|q: int| 0 <= q < j ==> s@[i + q] == m@[q],
        decreases k - j,
    {
        if s.get_char(i + j) != m.get_char(j) {
            proof {
                if occurs_at(s@, m@, i as int) {
                    assert(s@.subrange(i as int, i + m@.len() as int)[j as int] == m@[j as int]);
                }
            }
            return false;
        }
        j += 1;
    }
    proof {
        assert(s@.subrange(i as int, i + m@.len() as int) =~= m@);
    }
    true
}

/// Whether the marker `m@` occurs anywhere in `s@`.
fn occurs(s: &str, m: &str) -> (r: bool)
    ensures
        r == occurs_in(s@, m@),
{
    let n = s.unicode_len();
    let k = m.unicode_len();
    if k > n {
        proof {
            assert(forall|i: int| !occurs_at(s@, m@, i));
        }
        return false;
    }
    if k == 0 {
        proof {
            assert(s@.subrange(0, 0) =~= m@);
            assert(occurs_at(s@, m@, 0));
        }
        return true;
    }
    let mut i: usize = 0;
    while i <= n - k
        invariant
            0 < k <= n,
            n == s@.len(),
            k == m@.len(),
            i <= n - k + 1,
            forall|p: int| 0 <= p < i ==> !occurs_at(s@, m@, p),
        decreases n - i,
    {
        if match_at(s, m, i) {
            return true;
        }
        i += 1;
    }
    proof {
        assert(forall|p: int| !occurs_at(s@, m@, p));
    }
    false
}

/// Classify a catalog URI by the scheme markers occurring in it.
///
/// A URI in which exactly one of the three known markers occurs gets the
/// corresponding kind; every other URI is `Unrecognized`.
pub fn classify(uri: &String) -> (k: Kind)
    ensures
        k == spec_classify(uri@),
{
    let t = occurs(uri.as_str(), "spotify:track");
    let a = occurs(uri.as_str(), "spotify:album");
    let p = occurs(uri.as_str(), "spotify:playlist");
    if t && !a && !p {
        Kind::Track
    } else if a && !t && !p {
        Kind::Album
    } else if p && !t && !a {
        Kind::Playlist
    } else {
        Kind::Unrecognized
    }
}

/// The scheme prefix that a URI of the given kind starts with when it
/// carries an extractable identifier: the kind's marker followed by `:`.
pub open spec fn id_prefix(kind: Kind) -> Seq<char>
    recommends
        kind != Kind::Unrecognized,
{
    match kind {
        Kind::Track => "spotify:track:"@,
        Kind::Album => "spotify:album:"@,
        Kind::Playlist => "spotify:playlist:"@,
        Kind::Unrecognized => Seq::<char>::empty(),
    }
}

/// An ASCII digit or letter: the characters an identifier may consist of.
pub open spec fn is_alnum(c: char) -> bool {
    (48 <= c as u32 && c as u32 <= 57)  // '0' ..= '9'
    || (65 <= c as u32 && c as u32 <= 90)  // 'A' ..= 'Z'
    || (97 <= c as u32 && c as u32 <= 122)  // 'a' ..= 'z'
}

/// A well-formed identifier: non-empty and alphanumeric throughout.
pub open spec fn valid_id(s: Seq<char>) -> bool {
    s.len() > 0 && forall|i: int| 0 <= i < s.len() ==> is_alnum(s[i])
}

/// The identifier of a recognized URI: the text after the kind's scheme
/// prefix, provided the URI starts with that prefix and the rest is a
/// well-formed identifier; `None` otherwise.
pub open spec fn spec_extract_id(s: Seq<char>, kind: Kind) -> Option<Seq<char>> {
    let p = id_prefix(kind);
    let rest = s.subrange(p.len() as int, s.len() as int);
    if s.len() > p.len() && s.subrange(0, p.len() as int) == p && valid_id(rest) {
        Some(rest)
    } else {
        None
    }
}

/// Extract the identifier part of a URI already classified as `kind`.
#[verifier::loop_isolation(false)]
pub fn extract_id(uri: &String, kind: Kind) -> (r: Option<String>)
    requires
        kind != Kind::Unrecognized,
    ensures
        match r {
            Some(id) => spec_extract_id(uri@, kind) == Some(id@),
            None => spec_extract_id(uri@, kind) is None,
        },
{
    let prefix: &str = match kind {
        Kind::Track => "spotify:track:",
        Kind::Album => "spotify:album:",
        Kind::Playlist => "spotify:playlist:",
        Kind::Unrecognized => "",
    };
    proof {
        assert(prefix@ == id_prefix(kind));
    }
    let s = uri.as_str();
    let n = s.unicode_len();
    let plen = prefix.unicode_len();
    if n <= plen {
        return None;
    }
    if !match_at(s, prefix, 0) {
        return None;
    }
    let mut i: usize = plen;
    while i < n
        invariant
            plen < n,
            n == s@.len(),
            i <= n,
            plen <= i,
            forall|q: int| plen <= q < i ==> is_alnum(s@[q]),
        decreases n - i,
    {
        let c = s.get_char(i);
        let u = c as u32;
        let alnum = (48 <= u && u <= 57) || (65 <= u && u <= 90) || (97 <= u && u <= 122);
        if !alnum {
            proof {
                let rest = s@.subrange(plen as int, n as int);
                assert(rest[i - plen] == s@[i as int]);
                assert(!is_alnum(rest[i - plen]));
                assert(!valid_id(rest));
            }
            return None;
        }
        i += 1;
    }
    let rest = s.substring_char(plen, n);
    let id = rest.to_owned();
    proof {
        assert(forall|q: int| 0 <= q < id@.len() ==> is_alnum(#[trigger] id@[q]));
        assert(s@.subrange(0, plen as int) == prefix@) by {
            assert(occurs_at(s@, prefix@, 0));
            assert(s@.subrange(0, prefix@.len() as int) == prefix@);
        }
    }
    Some(id)
}

} // verus!
