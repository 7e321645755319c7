//! The search query: comma-separated terms, each of which must hold of a
//! track. A term `genre(x)` asks that every genre contain `x`, `!genre(x)`
//! that none does, `album(x)` that the album contain `x`; a term starting
//! with `!` asks that neither title nor artist contain it, and any other
//! term that the title or the artist contain it.

use vstd::prelude::*;
use crate::text::{
    chars_of, contains_text, ends_with, ends_with_text, lower_of, lowercase, starts_with,
    starts_with_text, text_contains,
};
use crate::track::Song;

verus! {

pub open spec fn genre_open() -> Seq<char> {
    seq!['g', 'e', 'n', 'r', 'e', '(']
}

pub open spec fn not_genre_open() -> Seq<char> {
    seq!['!', 'g', 'e', 'n', 'r', 'e', '(']
}

pub open spec fn album_open() -> Seq<char> {
    seq!['a', 'l', 'b', 'u', 'm', '(']
}

/// The text between a term's opening `kind(` of length `open` and its
/// closing `)`.
pub open spec fn inner(t: Seq<char>, open: int) -> Seq<char> {
    t.subrange(open, t.len() - 1)
}

/// Whether one query term holds of a track with the given (already
/// lowercased) title, artist, album and genres.
pub open spec fn term_holds(
    t: Seq<char>,
    title: Seq<char>,
    artist: Seq<char>,
    album: Seq<char>,
    genres: Seq<Seq<char>>,
) -> bool {
    if starts_with(t, genre_open()) && ends_with(t, seq![')']) && t.len() > 8 {
        forall|i: int| 0 <= i < genres.len() ==> text_contains(#[trigger] genres[i], inner(t, 6))
    } else if starts_with(t, not_genre_open()) && ends_with(t, seq![')']) && t.len() > 9 {
        forall|i: int| 0 <= i < genres.len() ==> !text_contains(#[trigger] genres[i], inner(t, 7))
    } else if starts_with(t, album_open()) && ends_with(t, seq![')']) && t.len() > 8 {
        text_contains(album, inner(t, 6))
    } else if starts_with(t, seq!['!']) {
        !text_contains(title, t) && !text_contains(artist, t)
    } else {
        text_contains(title, t) || text_contains(artist, t)
    }
}

/// Whether every term holds, the terms being `cur` followed by what is left
/// of the query `q`, split at commas.
pub open spec fn terms_hold(
    q: Seq<char>,
    cur: Seq<char>,
    title: Seq<char>,
    artist: Seq<char>,
    album: Seq<char>,
    genres: Seq<Seq<char>>,
) -> bool
    decreases q.len(),
{
    if q.len() == 0 {
        term_holds(cur, title, artist, album, genres)
    } else if q[0] == ',' {
        term_holds(cur, title, artist, album, genres) && terms_hold(
            q.drop_first(),
            Seq::empty(),
            title,
            artist,
            album,
            genres,
        )
    } else {
        terms_hold(q.drop_first(), cur.push(q[0]), title, artist, album, genres)
    }
}

/// Whether a query matches a track whose fields are already lowercased.
pub open spec fn query_matches(
    q: Seq<char>,
    title: Seq<char>,
    artist: Seq<char>,
    album: Seq<char>,
    genres: Seq<Seq<char>>,
) -> bool {
    terms_hold(q, Seq::empty(), title, artist, album, genres)
}

pub open spec fn texts_of(v: Seq<Vec<char>>) -> Seq<Seq<char>> {
    v.map_values(|c: Vec<char>| c@)
}

pub open spec fn string_texts(v: Seq<String>) -> Seq<Seq<char>> {
    v.map_values(|s: String| s@)
}

pub open spec fn lowered_texts(v: Seq<String>) -> Seq<Seq<char>> {
    v.map_values(|s: String| lower_of(s@))
}

/// Whether a query matches a track, its fields lowercased first.
pub open spec fn song_matches(s: Song, q: Seq<char>) -> bool {
    query_matches(q, lower_of(s.title@), lower_of(s.artist@), lower_of(s.album@), lowered_texts(s.genres@))
}

fn inner_chars(t: &Vec<char>, open: usize) -> (r: Vec<char>)
    requires
        open + 1 <= t.len(),
    ensures
        r@ == inner(t@, open as int),
{
    let mut r: Vec<char> = Vec::new();
    let mut i: usize = open;
    let end = t.len() - 1;
    while i < end
        invariant
            open <= i <= end,
            end == t.len() - 1,
            r@ == t@.subrange(open as int, i as int),
        decreases end - i,
    {
        r.push(t[i]);
        assert(r@ =~= t@.subrange(open as int, i + 1));
        i += 1;
    }
    r
}

fn all_contain(genres: &Vec<Vec<char>>, sub: &Vec<char>) -> (r: bool)
    ensures
        r == forall|i: int| 0 <= i < genres.len() ==> text_contains(#[trigger] texts_of(genres@)[i], sub@),
{
    let mut i: usize = 0;
    while i < genres.len()
        invariant
            i <= genres.len(),
            forall|k: int| 0 <= k < i ==> text_contains(#[trigger] texts_of(genres@)[k], sub@),
        decreases genres.len() - i,
    {
        if !contains_text(&genres[i], sub) {
            assert(texts_of(genres@)[i as int] == genres@[i as int]@);
            return false;
        }
        i += 1;
    }
    true
}

fn none_contain(genres: &Vec<Vec<char>>, sub: &Vec<char>) -> (r: bool)
    ensures
        r == forall|i: int| 0 <= i < genres.len() ==> !text_contains(#[trigger] texts_of(genres@)[i], sub@),
{
    let mut i: usize = 0;
    while i < genres.len()
        invariant
            i <= genres.len(),
            forall|k: int| 0 <= k < i ==> !text_contains(#[trigger] texts_of(genres@)[k], sub@),
        decreases genres.len() - i,
    {
        if contains_text(&genres[i], sub) {
            assert(texts_of(genres@)[i as int] == genres@[i as int]@);
            return false;
        }
        i += 1;
    }
    true
}

fn term_holds_exec(
    t: &Vec<char>,
    title: &Vec<char>,
    artist: &Vec<char>,
    album: &Vec<char>,
    genres: &Vec<Vec<char>>,
) -> (r: bool)
    ensures
        r == term_holds(t@, title@, artist@, album@, texts_of(genres@)),
{
    let close = vec![')'];
    let is_closed = ends_with_text(t, &close);
    assert(close@ =~= seq![')']);
    let genre_open_v = vec!['g', 'e', 'n', 'r', 'e', '('];
    assert(genre_open_v@ =~= genre_open());
    let not_genre_open_v = vec!['!', 'g', 'e', 'n', 'r', 'e', '('];
    assert(not_genre_open_v@ =~= not_genre_open());
    let album_open_v = vec!['a', 'l', 'b', 'u', 'm', '('];
    assert(album_open_v@ =~= album_open());
    let bang = vec!['!'];
    assert(bang@ =~= seq!['!']);
    if starts_with_text(t, &genre_open_v) && is_closed && t.len() > 8 {
        let sub = inner_chars(t, 6);
        all_contain(genres, &sub)
    } else if starts_with_text(t, &not_genre_open_v) && is_closed && t.len() > 9 {
        let sub = inner_chars(t, 7);
        none_contain(genres, &sub)
    } else if starts_with_text(t, &album_open_v) && is_closed && t.len() > 8 {
        let sub = inner_chars(t, 6);
        contains_text(album, &sub)
    } else if starts_with_text(t, &bang) {
        !contains_text(title, t) && !contains_text(artist, t)
    } else {
        contains_text(title, t) || contains_text(artist, t)
    }
}

fn query_matches_chars(
    q: &Vec<char>,
    title: &Vec<char>,
    artist: &Vec<char>,
    album: &Vec<char>,
    genres: &Vec<Vec<char>>,
) -> (r: bool)
    ensures
        r == query_matches(q@, title@, artist@, album@, texts_of(genres@)),
{
    let ghost gs = texts_of(genres@);
    let mut cur: Vec<char> = Vec::new();
    let mut i: usize = 0;
    assert(q@.subrange(0, q.len() as int) =~= q@);
    while i < q.len()
        invariant
            i <= q.len(),
            gs == texts_of(genres@),
            query_matches(q@, title@, artist@, album@, gs) == terms_hold(
                q@.subrange(i as int, q.len() as int),
                cur@,
                title@,
                artist@,
                album@,
                gs,
            ),
        decreases q.len() - i,
    {
        let ghost rest = q@.subrange(i as int, q.len() as int);
        assert(rest.drop_first() =~= q@.subrange(i + 1, q.len() as int));
        assert(rest[0] == q@[i as int]);
        let c = q[i];
        if c == ',' {
            if !term_holds_exec(&cur, title, artist, album, genres) {
                return false;
            }
            cur = Vec::new();
            assert(cur@ =~= Seq::<char>::empty());
        } else {
            cur.push(c);
        }
        i += 1;
    }
    term_holds_exec(&cur, title, artist, album, genres)
}

/// Whether `query` matches a track whose title, artist, album and genres
/// are given already lowercased.
pub fn matches_folded(
    query: &str,
    title: &str,
    artist: &str,
    album: &str,
    genres: &Vec<String>,
) -> (r: bool)
    ensures
        r == query_matches(query@, title@, artist@, album@, string_texts(genres@)),
{
    let mut gs: Vec<Vec<char>> = Vec::new();
    let mut i: usize = 0;
    while i < genres.len()
        invariant
            i <= genres.len(),
            gs.len() == i,
            forall|k: int| 0 <= k < i ==> #[trigger] gs@[k]@ == genres@[k]@,
        decreases genres.len() - i,
    {
        gs.push(chars_of(genres[i].as_str()));
        i += 1;
    }
    assert(texts_of(gs@) =~= string_texts(genres@));
    query_matches_chars(
        &chars_of(query),
        &chars_of(title),
        &chars_of(artist),
        &chars_of(album),
        &gs,
    )
}

impl Song {
    /// Whether `query` (already lowercased) matches this track, whose
    /// fields are lowercased before the comparison.
    pub fn matches_query(&self, query: &String) -> (r: bool)
        ensures
            r == song_matches(*self, query@),
    {
        let mut gs: Vec<Vec<char>> = Vec::new();
        let mut i: usize = 0;
        while i < self.genres.len()
            invariant
                i <= self.genres.len(),
                gs.len() == i,
                forall|k: int| 0 <= k < i ==> #[trigger] gs@[k]@ == lower_of(self.genres@[k]@),
            decreases self.genres.len() - i,
        {
            let g = lowercase(self.genres[i].as_str());
            gs.push(chars_of(g.as_str()));
            i += 1;
        }
        assert(texts_of(gs@) =~= lowered_texts(self.genres@));
        let title = lowercase(self.title.as_str());
        let artist = lowercase(self.artist.as_str());
        let album = lowercase(self.album.as_str());
        query_matches_chars(
            &chars_of(query.as_str()),
            &chars_of(title.as_str()),
            &chars_of(artist.as_str()),
            &chars_of(album.as_str()),
            &gs,
        )
    }
}

} // verus!
