//! Convert a sharing URL into a typed playable reference or the canonical
//! `spotify:<kind>:<id>` URI string.
//!
//! The accepted grammar is deliberately narrower than full URL syntax: an
//! optional `https://` or `http://` scheme, the exact host
//! `open.spotify.com`, a recognized resource kind and a non-empty
//! identifier, with anything from the first `?` on ignored. Any other
//! scheme is left in place and therefore fails the host check.

use vstd::prelude::*;

use crate::error::Error;

verus! {

/// The position of the first occurrence of `c` in `s`, or `s.len()` when
/// `c` does not occur.
pub open spec fn find_char(s: Seq<char>, c: char) -> int
    decreases s.len(),
{
    if s.len() == 0 {
        0
    } else if s[0] == c {
        0
    } else {
        1 + find_char(s.drop_first(), c)
    }
}

proof fn lemma_find_char_at(s: Seq<char>, c: char, i: int)
    requires
        0 <= i <= s.len(),
        forall|j: int| 0 <= j < i ==> s[j] != c,
        i < s.len() ==> s[i] == c,
    ensures
        find_char(s, c) == i,
    decreases s.len(),
{
    if s.len() == 0 {
    } else if s[0] == c {
        assert(i == 0);
    } else {
        let t = s.drop_first();
        assert(forall|j: int| 0 <= j < i - 1 ==> t[j] == s[j + 1] && t[j] != c);
        assert(i - 1 < t.len() ==> t[i - 1] == s[i]);
        lemma_find_char_at(t, c, i - 1);
    }
}

/// The segments of `s` between occurrences of the separator `sep`; a
/// sequence without the separator is one segment, and every separator
/// starts a new segment, so there is always one segment more than there
/// are separators.
pub open spec fn split_on(s: Seq<char>, sep: char) -> Seq<Seq<char>>
    decreases s.len(),
{
    let f = find_char(s, sep);
    if 0 <= f < s.len() {
        seq![s.subrange(0, f)] + split_on(s.subrange(f + 1, s.len() as int), sep)
    } else {
        seq![s]
    }
}

/// Find the first occurrence of a character in a string.
fn find_in_str(s: &str, c: char) -> (f: usize)
    ensures
        f == find_char(s@, c),
        f <= s@.len(),
        f < s@.len() ==> s@[f as int] == c,
        forall|j: int| 0 <= j < f ==> s@[j] != c,
{
    let n = s.unicode_len();
    let mut i: usize = 0;
    while i < n && s.get_char(i) != c
        invariant
            i <= n,
            n == s@.len(),
            forall|j: int| 0 <= j < i ==> s@[j] != c,
        decreases n - i,
    {
        i += 1;
    }
    proof {
        lemma_find_char_at(s@, c, i as int);
    }
    i
}

/// Split a string on a separator character.
fn split_str(s: &str, sep: char) -> (parts: Vec<String>)
    ensures
        parts.deep_view() == split_on(s@, sep),
    decreases s@.len(),
{
    let n = s.unicode_len();
    let f = find_in_str(s, sep);
    if f == n {
        let mut parts: Vec<String> = Vec::new();
        parts.push(s.to_owned());
        proof {
            assert(parts.deep_view() =~= seq![s@]);
        }
        parts
    } else {
        let head = s.substring_char(0, f);
        let tail = s.substring_char(f + 1, n);
        let mut parts = split_str(tail, sep);
        let ghost rest_dv = parts.deep_view();
        parts.insert(0, head.to_owned());
        proof {
            assert forall|k: int| 0 <= k < parts.deep_view().len() implies parts.deep_view()[k]
                == (seq![s@.subrange(0, f as int)] + rest_dv)[k] by {
                if k > 0 {
                    assert(parts@[k].deep_view() == rest_dv[k - 1]);
                }
            }
            assert(parts.deep_view() =~= seq![s@.subrange(0, f as int)] + rest_dv);
        }
        parts
    }
}

/// The kinds of playable resource a sharing URL may name.
#[derive(Clone, Copy, Debug, PartialEq, Eq, Structural)]
pub enum ResourceKind {
    /// A single track.
    Track,
    /// A podcast episode.
    Episode,
    /// An artist page.
    Artist,
    /// An album.
    Album,
    /// A playlist.
    Playlist,
    /// A podcast show.
    Show,
}

/// The path and URI token of a resource kind.
pub open spec fn kind_token(k: ResourceKind) -> Seq<char> {
    match k {
        ResourceKind::Track => "track"@,
        ResourceKind::Episode => "episode"@,
        ResourceKind::Artist => "artist"@,
        ResourceKind::Album => "album"@,
        ResourceKind::Playlist => "playlist"@,
        ResourceKind::Show => "show"@,
    }
}

/// The resource kind named by a path segment, if any; matching is exact.
pub open spec fn spec_kind_of(t: Seq<char>) -> Option<ResourceKind> {
    if t == "track"@ {
        Some(ResourceKind::Track)
    } else if t == "episode"@ {
        Some(ResourceKind::Episode)
    } else if t == "artist"@ {
        Some(ResourceKind::Artist)
    } else if t == "album"@ {
        Some(ResourceKind::Album)
    } else if t == "playlist"@ {
        Some(ResourceKind::Playlist)
    } else if t == "show"@ {
        Some(ResourceKind::Show)
    } else {
        None
    }
}

/// A parsed sharing URL: which kind of resource it names, and the opaque
/// identifier, which is never empty.
#[derive(Debug, Clone, PartialEq, Eq)]
pub struct PlayableReference {
    /// The kind of resource the URL named.
    pub kind: ResourceKind,
    /// The opaque identifier, taken verbatim from the URL.
    pub id: String,
}

/// The input with one leading `https://` or `http://` removed; any other
/// prefix, recognized scheme or not, is left in place.
pub open spec fn spec_strip_scheme(s: Seq<char>) -> Seq<char> {
    if s.len() >= 8 && s.subrange(0, 8) == "https://"@ {
        s.subrange(8, s.len() as int)
    } else if s.len() >= 7 && s.subrange(0, 7) == "http://"@ {
        s.subrange(7, s.len() as int)
    } else {
        s
    }
}

/// The input truncated at the first `?`; the `?` and everything after it
/// are discarded.
pub open spec fn spec_strip_query(s: Seq<char>) -> Seq<char> {
    let f = find_char(s, '?');
    if 0 <= f <= s.len() {
        s.subrange(0, f)
    } else {
        s
    }
}

/// The result of parsing a sharing URL: after stripping a recognized
/// scheme and the query string, the remainder must be exactly three
/// `/`-separated segments — the host `open.spotify.com`, a recognized
/// resource kind, and a non-empty identifier.
pub open spec fn spec_parse_share_url(s: Seq<char>) -> Option<(ResourceKind, Seq<char>)> {
    let parts = split_on(spec_strip_query(spec_strip_scheme(s)), '/');
    if parts.len() == 3 && parts[0] == "open.spotify.com"@ && spec_kind_of(parts[1]) is Some
        && parts[2].len() > 0 {
        Some((spec_kind_of(parts[1]).unwrap(), parts[2]))
    } else {
        None
    }
}

/// The canonical URI string for a resource kind and identifier.
pub open spec fn spec_uri(kind: ResourceKind, id: Seq<char>) -> Seq<char> {
    "spotify:"@ + kind_token(kind) + ":"@ + id
}

/// Whether two strings hold the same characters.
fn str_eq(a: &str, b: &str) -> (r: bool)
    ensures
        r == (a@ == b@),
{
    let n = a.unicode_len();
    if n != b.unicode_len() {
        return false;
    }
    let mut i: usize = 0;
    while i < n
        invariant
            i <= n,
            n == a@.len(),
            n == b@.len(),
            forall|j: int| 0 <= j < i ==> a@[j] == b@[j],
        decreases n - i,
    {
        if a.get_char(i) != b.get_char(i) {
            return false;
        }
        i += 1;
    }
    proof {
        assert(a@ =~= b@);
    }
    true
}

/// Whether `p` is a prefix of `s`.
fn has_prefix(s: &str, p: &str) -> (r: bool)
    ensures
        r == (s@.len() >= p@.len() && s@.subrange(0, p@.len() as int) == p@),
{
    let n = s.unicode_len();
    let m = p.unicode_len();
    if n < m {
        return false;
    }
    let mut i: usize = 0;
    while i < m
        invariant
            i <= m <= n,
            n == s@.len(),
            m == p@.len(),
            forall|j: int| 0 <= j < i ==> s@[j] == p@[j],
        decreases m - i,
    {
        if s.get_char(i) != p.get_char(i) {
            assert(s@.subrange(0, m as int)[i as int] != p@[i as int]);
            return false;
        }
        i += 1;
    }
    proof {
        assert(s@.subrange(0, m as int) =~= p@);
    }
    true
}

/// Strip one leading `https://` or `http://`.
fn strip_scheme<'a>(url: &'a str) -> (r: &'a str)
    ensures
        r@ == spec_strip_scheme(url@),
{
    let n = url.unicode_len();
    proof {
        reveal_strlit("https://");
        reveal_strlit("http://");
    }
    if has_prefix(url, "https://") {
        url.substring_char(8, n)
    } else if has_prefix(url, "http://") {
        url.substring_char(7, n)
    } else {
        url
    }
}

/// Discard everything from the first `?` on.
fn strip_query<'a>(url: &'a str) -> (r: &'a str)
    ensures
        r@ == spec_strip_query(url@),
{
    let f = find_in_str(url, '?');
    url.substring_char(0, f)
}

/// Look a path segment up in the set of recognized resource kinds.
fn kind_of(t: &str) -> (r: Option<ResourceKind>)
    ensures
        r == spec_kind_of(t@),
{
    if str_eq(t, "track") {
        Some(ResourceKind::Track)
    } else if str_eq(t, "episode") {
        Some(ResourceKind::Episode)
    } else if str_eq(t, "artist") {
        Some(ResourceKind::Artist)
    } else if str_eq(t, "album") {
        Some(ResourceKind::Album)
    } else if str_eq(t, "playlist") {
        Some(ResourceKind::Playlist)
    } else if str_eq(t, "show") {
        Some(ResourceKind::Show)
    } else {
        None
    }
}

/// Parse a sharing URL into a typed playable reference.
///
/// Succeeds exactly when, after stripping a recognized scheme and the
/// query string, the URL consists of the host `open.spotify.com`, a
/// recognized resource kind and a non-empty identifier; every other input
/// is rejected with [`Error::InvalidURL`].
pub fn parse_share_url(url: &str) -> (r: Result<PlayableReference, Error>)
    ensures
        match r {
            Ok(p) => spec_parse_share_url(url@) == Some((p.kind, p.id@)),
            Err(e) => spec_parse_share_url(url@) is None && e == Error::InvalidURL,
        },
{
    let rest = strip_query(strip_scheme(url));
    let parts = split_str(rest, '/');
    if parts.len() != 3 {
        return Err(Error::InvalidURL);
    }
    if !str_eq(parts[0].as_str(), "open.spotify.com") {
        return Err(Error::InvalidURL);
    }
    let kind = match kind_of(parts[1].as_str()) {
        Some(k) => k,
        None => {
            return Err(Error::InvalidURL);
        },
    };
    if parts[2].as_str().is_empty() {
        return Err(Error::InvalidURL);
    }
    let id = parts[2].clone();
    Ok(PlayableReference { kind, id })
}

/// Whether a resource of this kind can be handed to playback directly:
/// only a single track or episode can; artists, albums, playlists and
/// shows are containers.
pub open spec fn spec_is_playable(k: ResourceKind) -> bool {
    k == ResourceKind::Track || k == ResourceKind::Episode
}

/// Parse a sharing URL that must name a directly playable resource.
///
/// Accepts exactly the URLs that [`parse_share_url`] accepts whose kind is
/// a track or an episode; a well-formed URL naming any other kind is
/// rejected with [`Error::InvalidURL`] just like a malformed one.
pub fn parse_playable_url(url: &str) -> (r: Result<PlayableReference, Error>)
    ensures
        match r {
            Ok(p) => spec_parse_share_url(url@) == Some((p.kind, p.id@)) && spec_is_playable(
                p.kind,
            ),
            Err(e) => {
                &&& match spec_parse_share_url(url@) {
                    Some((kind, _)) => !spec_is_playable(kind),
                    None => true,
                }
                &&& e == Error::InvalidURL
            },
        },
{
    let p = parse_share_url(url)?;
    match p.kind {
        ResourceKind::Track | ResourceKind::Episode => Ok(p),
        _ => Err(Error::InvalidURL),
    }
}

impl PlayableReference {
    /// Require this reference to name a resource of the given kind, as a
    /// caller that needs, say, a track does; any other kind is rejected
    /// with [`Error::InvalidURL`].
    pub fn expect_kind(self, kind: ResourceKind) -> (r: Result<PlayableReference, Error>)
        ensures
            match r {
                Ok(p) => p == self && self.kind == kind,
                Err(e) => self.kind != kind && e == Error::InvalidURL,
            },
    {
        if self.kind == kind {
            Ok(self)
        } else {
            Err(Error::InvalidURL)
        }
    }

    /// The canonical `spotify:<kind>:<id>` URI for this reference.
    pub fn to_uri(&self) -> (u: String)
        ensures
            u@ == spec_uri(self.kind, self.id@),
    {
        let mut out = "spotify:".to_owned();
        out.append(kind_str(self.kind));
        out.append(":");
        out.append(self.id.as_str());
        out
    }
}

/// The path and URI token of a resource kind.
fn kind_str(k: ResourceKind) -> (r: &'static str)
    ensures
        r@ == kind_token(k),
{
    match k {
        ResourceKind::Track => "track",
        ResourceKind::Episode => "episode",
        ResourceKind::Artist => "artist",
        ResourceKind::Album => "album",
        ResourceKind::Playlist => "playlist",
        ResourceKind::Show => "show",
    }
}

/// Convert a sharing URL to the canonical URI string, rejecting exactly
/// the URLs that [`parse_share_url`] rejects.
pub fn url_to_uri(url: &str) -> (r: Result<String, Error>)
    ensures
        match r {
            Ok(u) => spec_parse_share_url(url@) matches Some((kind, id)) && u@ == spec_uri(
                kind,
                id,
            ),
            Err(e) => spec_parse_share_url(url@) is None && e == Error::InvalidURL,
        },
{
    match parse_share_url(url) {
        Ok(p) => Ok(p.to_uri()),
        Err(e) => Err(e),
    }
}

/// Parsing is deterministic and idempotent: the outcome is a pure
/// function of the URL's characters, so repeated calls on identical input
/// describe identical results.
pub proof fn lemma_parse_share_url_repeatable(u1: Seq<char>, u2: Seq<char>)
    requires
        u1 == u2,
    ensures
        spec_parse_share_url(u1) == spec_parse_share_url(u2),
{
}

} // verus!
