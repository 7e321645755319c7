//! Tracks and the track index: the sort order, the metadata defaults, the
//! track-number normalisation and the all-or-nothing assembly of an index
//! from per-file extraction results.

use vstd::prelude::*;
use vstd::relations::{sorted_by, total_ordering};
use vstd::seq_lib::group_to_multiset_ensures;
use vstd::multiset::{group_multiset_axioms, Multiset};
use crate::text::{
    append_chars, chars_of, compare_text, decimal, digits_chars, digits_of, lemma_text_cmp_flip,
    lemma_text_cmp_trans, lemma_text_cmp_zero, string_of, text_cmp, text_from_chars,
};

verus! {

/// One indexed audio file with its metadata. Created while indexing and
/// never changed afterwards.
#[derive(Clone, Debug)]
pub struct Song {
    pub id: u64,
    pub title: String,
    pub genres: Vec<String>,
    pub artist: String,
    pub album: String,
    pub track: String,
    pub path: String,
    pub cover: Option<String>,
}

/// The index order of a track: artist, album, track number, title.
pub type SortKey = (Seq<char>, Seq<char>, Seq<char>, Seq<char>);

impl Song {
    pub open spec fn key(self) -> SortKey {
        (self.artist@, self.album@, self.track@, self.title@)
    }
}

/// Three-way comparison of sort keys, field by field.
pub open spec fn key_cmp(a: SortKey, b: SortKey) -> int {
    if text_cmp(a.0, b.0) != 0 {
        text_cmp(a.0, b.0)
    } else if text_cmp(a.1, b.1) != 0 {
        text_cmp(a.1, b.1)
    } else if text_cmp(a.2, b.2) != 0 {
        text_cmp(a.2, b.2)
    } else {
        text_cmp(a.3, b.3)
    }
}

/// The index order as a relation.
pub open spec fn key_order() -> spec_fn(SortKey, SortKey) -> bool {
    |a: SortKey, b: SortKey| key_cmp(a, b) <= 0
}

pub open spec fn keys_of(s: Seq<Song>) -> Seq<SortKey> {
    s.map_values(|x: Song| x.key())
}

/// `index` lists exactly the songs of `found`, in index order.
pub open spec fn is_index_of(index: Seq<Song>, found: Seq<Song>) -> bool {
    &&& index.to_multiset() == found.to_multiset()
    &&& keys_of(index).to_multiset() == keys_of(found).to_multiset()
    &&& sorted_by(keys_of(index), key_order())
}

proof fn lemma_key_facts(a: SortKey, b: SortKey)
    ensures
        key_cmp(a, b) == -key_cmp(b, a),
        key_cmp(a, b) == 0 <==> a == b,
{
    lemma_text_cmp_flip(a.0, b.0);
    lemma_text_cmp_flip(a.1, b.1);
    lemma_text_cmp_flip(a.2, b.2);
    lemma_text_cmp_flip(a.3, b.3);
    lemma_text_cmp_zero(a.0, b.0);
    lemma_text_cmp_zero(a.1, b.1);
    lemma_text_cmp_zero(a.2, b.2);
    lemma_text_cmp_zero(a.3, b.3);
}

proof fn lemma_key_trans(a: SortKey, b: SortKey, c: SortKey)
    requires
        key_cmp(a, b) <= 0,
        key_cmp(b, c) <= 0,
    ensures
        key_cmp(a, c) <= 0,
{
    lemma_key_facts(a, b);
    lemma_key_facts(b, c);
    lemma_key_facts(a, c);
    lemma_text_cmp_flip(a.0, b.0);
    lemma_text_cmp_flip(b.0, c.0);
    lemma_text_cmp_flip(a.0, c.0);
    lemma_text_cmp_flip(a.1, b.1);
    lemma_text_cmp_flip(b.1, c.1);
    lemma_text_cmp_flip(a.1, c.1);
    lemma_text_cmp_flip(a.2, b.2);
    lemma_text_cmp_flip(b.2, c.2);
    lemma_text_cmp_flip(a.2, c.2);
    lemma_text_cmp_flip(a.3, b.3);
    lemma_text_cmp_flip(b.3, c.3);
    lemma_text_cmp_flip(a.3, c.3);
    lemma_text_cmp_zero(a.0, b.0);
    lemma_text_cmp_zero(b.0, c.0);
    lemma_text_cmp_zero(a.0, c.0);
    lemma_text_cmp_zero(a.1, b.1);
    lemma_text_cmp_zero(b.1, c.1);
    lemma_text_cmp_zero(a.1, c.1);
    lemma_text_cmp_zero(a.2, b.2);
    lemma_text_cmp_zero(b.2, c.2);
    lemma_text_cmp_zero(a.2, c.2);
    if text_cmp(a.0, b.0) <= 0 && text_cmp(b.0, c.0) <= 0 {
        lemma_text_cmp_trans(a.0, b.0, c.0);
    }
    if text_cmp(a.1, b.1) <= 0 && text_cmp(b.1, c.1) <= 0 {
        lemma_text_cmp_trans(a.1, b.1, c.1);
    }
    if text_cmp(a.2, b.2) <= 0 && text_cmp(b.2, c.2) <= 0 {
        lemma_text_cmp_trans(a.2, b.2, c.2);
    }
    if text_cmp(a.3, b.3) <= 0 && text_cmp(b.3, c.3) <= 0 {
        lemma_text_cmp_trans(a.3, b.3, c.3);
    }
}

/// The index order is a total order on sort keys.
pub proof fn lemma_key_order_total()
    ensures
        total_ordering(key_order()),
{
    assert forall|x: SortKey| #[trigger] key_order()(x, x) by {
        lemma_key_facts(x, x);
    }
    assert forall|x: SortKey, y: SortKey|
        #[trigger] key_order()(x, y) && #[trigger] key_order()(y, x) implies x == y by {
        lemma_key_facts(x, y);
    }
    assert forall|x: SortKey, y: SortKey, z: SortKey|
        #[trigger] key_order()(x, y) && #[trigger] key_order()(y, z) implies key_order()(x, z) by {
        lemma_key_trans(x, y, z);
    }
    assert forall|x: SortKey, y: SortKey| #[trigger] key_order()(x, y) || #[trigger] key_order()(
        y,
        x,
    ) by {
        lemma_key_facts(x, y);
    }
}

/// Indexing is deterministic: two indexes built from the same tracks, in
/// whatever order the files were found, list the same sort keys in the same
/// order.
pub proof fn lemma_index_deterministic(
    found_a: Seq<Song>,
    found_b: Seq<Song>,
    index_a: Seq<Song>,
    index_b: Seq<Song>,
)
    requires
        keys_of(found_a).to_multiset() == keys_of(found_b).to_multiset(),
        is_index_of(index_a, found_a),
        is_index_of(index_b, found_b),
    ensures
        keys_of(index_a) == keys_of(index_b),
{
    lemma_key_order_total();
    vstd::seq_lib::lemma_sorted_unique(keys_of(index_a), keys_of(index_b), key_order());
}

struct KeyChars {
    artist: Vec<char>,
    album: Vec<char>,
    track: Vec<char>,
    title: Vec<char>,
}

impl KeyChars {
    spec fn view(&self) -> SortKey {
        (self.artist@, self.album@, self.track@, self.title@)
    }
}

fn key_chars(s: &Song) -> (r: KeyChars)
    ensures
        r.view() == s.key(),
{
    KeyChars {
        artist: chars_of(s.artist.as_str()),
        album: chars_of(s.album.as_str()),
        track: chars_of(s.track.as_str()),
        title: chars_of(s.title.as_str()),
    }
}

fn compare_keys(a: &KeyChars, b: &KeyChars) -> (r: i8)
    ensures
        r as int == key_cmp(a.view(), b.view()),
{
    let c = compare_text(&a.artist, &b.artist);
    if c != 0 {
        return c;
    }
    let c = compare_text(&a.album, &b.album);
    if c != 0 {
        return c;
    }
    let c = compare_text(&a.track, &b.track);
    if c != 0 {
        return c;
    }
    compare_text(&a.title, &b.title)
}

proof fn lemma_keys_insert(s: Seq<Song>, p: int, x: Song)
    requires
        0 <= p <= s.len(),
    ensures
        keys_of(s.insert(p, x)) == keys_of(s).insert(p, x.key()),
{
    assert(keys_of(s.insert(p, x)) =~= keys_of(s).insert(p, x.key()));
}

proof fn lemma_keys_push(s: Seq<Song>, x: Song)
    ensures
        keys_of(s.push(x)) == keys_of(s).push(x.key()),
{
    assert(keys_of(s.push(x)) =~= keys_of(s).push(x.key()));
}

/// Sorts songs into index order.
pub fn sort_songs(songs: Vec<Song>) -> (r: Vec<Song>)
    ensures
        is_index_of(r@, songs@),
{
    broadcast use group_to_multiset_ensures, group_multiset_axioms;

    proof {
        lemma_key_order_total();
    }
    let ghost all = songs@;
    let mut input = songs;
    let mut out: Vec<Song> = Vec::new();
    assert(input@ =~= all);
    loop
        invariant
            all == songs@,
            total_ordering(key_order()),
            sorted_by(keys_of(out@), key_order()),
            out@.to_multiset().add(input@.to_multiset()) == all.to_multiset(),
            keys_of(out@).to_multiset().add(keys_of(input@).to_multiset()) == keys_of(
                all,
            ).to_multiset(),
        decreases input.len(),
    {
        let ghost before = input@;
        match input.pop() {
            None => {
                proof {
                    vstd::seq_lib::to_multiset_len(input@);
                    vstd::seq_lib::to_multiset_len(keys_of(input@));
                    vstd::multiset::lemma_multiset_empty_len(input@.to_multiset());
                    vstd::multiset::lemma_multiset_empty_len(keys_of(input@).to_multiset());
                }
                assert(input@.to_multiset() =~= Multiset::empty());
                assert(keys_of(input@).to_multiset() =~= Multiset::empty());
                assert(out@.to_multiset() =~= all.to_multiset());
                assert(keys_of(out@).to_multiset() =~= keys_of(all).to_multiset());
                assert(out@.to_multiset() == all.to_multiset());
                assert(keys_of(out@).to_multiset() == keys_of(all).to_multiset());
                assert(is_index_of(out@, all));
                return out;
            },
            Some(x) => {
                assert(before == input@.push(x));
                proof {
                    lemma_keys_push(input@, x);
                }
                let xk = key_chars(&x);
                let mut lo: usize = 0;
                let mut hi: usize = out.len();
                while lo < hi
                    invariant
                        total_ordering(key_order()),
                        sorted_by(keys_of(out@), key_order()),
                        xk.view() == x.key(),
                        lo <= hi <= out.len(),
                        forall|i: int| 0 <= i < lo ==> #[trigger] key_order()(out@[i].key(), x.key()),
                        forall|i: int|
                            hi <= i < out.len() ==> #[trigger] key_order()(x.key(), out@[i].key()),
                    decreases hi - lo,
                {
                    let mid = lo + (hi - lo) / 2;
                    let mk = key_chars(&out[mid]);
                    let c = compare_keys(&mk, &xk);
                    assert(keys_of(out@)[mid as int] == out@[mid as int].key());
                    if c < 0 {
                        assert(key_order()(out@[mid as int].key(), x.key()));
                        assert forall|i: int| 0 <= i < mid + 1 implies #[trigger] key_order()(
                            out@[i].key(),
                            x.key(),
                        ) by {
                            if i < mid {
                                assert(keys_of(out@)[i] == out@[i].key());
                                assert(key_order()(keys_of(out@)[i], keys_of(out@)[mid as int]));
                            }
                        }
                        lo = mid + 1;
                    } else {
                        proof {
                            lemma_key_facts(mk.view(), xk.view());
                        }
                        assert(key_order()(x.key(), out@[mid as int].key()));
                        assert forall|i: int| mid <= i < out.len() implies #[trigger] key_order()(
                            x.key(),
                            out@[i].key(),
                        ) by {
                            if i > mid {
                                assert(keys_of(out@)[i] == out@[i].key());
                                assert(key_order()(keys_of(out@)[mid as int], keys_of(out@)[i]));
                            }
                        }
                        hi = mid;
                    }
                }
                let ghost old_out = out@;
                out.insert(lo, x);
                proof {
                    lemma_keys_insert(old_out, lo as int, x);
                    assert(out@ == old_out.insert(lo as int, x));
                    vstd::seq_lib::to_multiset_insert(old_out, lo as int, x);
                    vstd::seq_lib::to_multiset_insert(keys_of(old_out), lo as int, x.key());
                    assert(out@.to_multiset() == old_out.to_multiset().insert(x));
                    assert(keys_of(out@).to_multiset() == keys_of(old_out).to_multiset().insert(
                        x.key(),
                    ));
                    vstd::seq_lib::to_multiset_build(input@, x);
                    vstd::seq_lib::to_multiset_build(keys_of(input@), x.key());
                    assert(before.to_multiset() == input@.to_multiset().insert(x));
                    assert(keys_of(before).to_multiset() == keys_of(input@).to_multiset().insert(
                        x.key(),
                    ));
                    assert(out@.to_multiset().add(input@.to_multiset()) =~= all.to_multiset());
                    assert(keys_of(out@).to_multiset().add(keys_of(input@).to_multiset())
                        =~= keys_of(all).to_multiset());
                    let ks = keys_of(out@);
                    assert forall|i: int, j: int| 0 <= i < j < ks.len() implies #[trigger] key_order()(
                        ks[i],
                        ks[j],
                    ) by {
                        let ok = keys_of(old_out);
                        if j < lo {
                            assert(ks[i] == ok[i] && ks[j] == ok[j]);
                        } else if i > lo {
                            assert(ks[i] == ok[i - 1] && ks[j] == ok[j - 1]);
                        } else if i == lo {
                            assert(ks[j] == ok[j - 1] && ok[j - 1] == old_out[j - 1].key());
                        } else if j == lo {
                            assert(ks[i] == ok[i] && ok[i] == old_out[i].key());
                        } else {
                            assert(ks[i] == ok[i] && ok[i] == old_out[i].key());
                            assert(ks[j] == ok[j - 1] && ok[j - 1] == old_out[j - 1].key());
                            assert(key_order()(ks[i], x.key()));
                            assert(key_order()(x.key(), ks[j]));
                        }
                    }
                }
            },
        }
    }
}

/// The part of a raw track tag before the first `/` (the disc or total
/// count that may follow it is dropped).
pub open spec fn before_slash(t: Seq<char>) -> Seq<char>
    decreases t.len(),
{
    if t.len() == 0 {
        t
    } else if t[0] == '/' {
        Seq::empty()
    } else {
        seq![t[0]] + before_slash(t.drop_first())
    }
}

/// A number text without its leading zeros, keeping one `0` when it is all
/// zeros.
pub open spec fn strip_zeros(t: Seq<char>) -> Seq<char>
    decreases t.len(),
{
    if t.len() > 1 && t[0] == '0' {
        strip_zeros(t.drop_first())
    } else {
        t
    }
}

/// The normalised form of a raw track-number tag such as `03/12`.
pub open spec fn normalized_track(raw: Seq<char>) -> Seq<char> {
    strip_zeros(before_slash(raw))
}

fn before_slash_chars(cs: &Vec<char>) -> (r: Vec<char>)
    ensures
        r@ == before_slash(cs@),
{
    let mut out: Vec<char> = Vec::new();
    let mut i: usize = 0;
    assert(cs@.subrange(0, cs.len() as int) =~= cs@);
    while i < cs.len() && cs[i] != '/'
        invariant
            i <= cs.len(),
            out@ == cs@.subrange(0, i as int),
            before_slash(cs@) == out@ + before_slash(cs@.subrange(i as int, cs.len() as int)),
        decreases cs.len() - i,
    {
        let ghost rest = cs@.subrange(i as int, cs.len() as int);
        assert(rest.drop_first() =~= cs@.subrange(i + 1, cs.len() as int));
        assert(before_slash(rest) == seq![cs@[i as int]] + before_slash(rest.drop_first()));
        out.push(cs[i]);
        assert(out@ =~= cs@.subrange(0, i as int) + seq![cs@[i as int]]);
        i += 1;
    }
    assert(before_slash(cs@.subrange(i as int, cs.len() as int)) =~= Seq::<char>::empty());
    assert(out@ + Seq::<char>::empty() =~= out@);
    out
}

fn strip_zeros_chars(cs: &Vec<char>) -> (r: Vec<char>)
    ensures
        r@ == strip_zeros(cs@),
{
    let mut start: usize = 0;
    assert(cs@.subrange(0, cs.len() as int) =~= cs@);
    while cs.len() > 0 && start < cs.len() - 1 && cs[start] == '0'
        invariant
            start <= cs.len(),
            strip_zeros(cs@) == strip_zeros(cs@.subrange(start as int, cs.len() as int)),
        decreases cs.len() - start,
    {
        assert(cs@.subrange(start as int, cs.len() as int).drop_first() =~= cs@.subrange(
            start + 1,
            cs.len() as int,
        ));
        start += 1;
    }
    let mut out: Vec<char> = Vec::new();
    let mut i: usize = start;
    while i < cs.len()
        invariant
            start <= i <= cs.len(),
            out@ == cs@.subrange(start as int, i as int),
        decreases cs.len() - i,
    {
        out.push(cs[i]);
        assert(out@ =~= cs@.subrange(start as int, i + 1));
        i += 1;
    }
    out
}

/// Normalises a raw track-number tag: the part after a `/` is dropped and
/// leading zeros are stripped (`03/12` gives `3`).
pub fn normalize_track(raw: &str) -> (r: String)
    ensures
        r@ == normalized_track(raw@),
{
    let cs = chars_of(raw);
    let head = before_slash_chars(&cs);
    let out = strip_zeros_chars(&head);
    text_from_chars(&out)
}

/// Metadata read by the structured tag reader; absent fields are `None`.
pub struct TagFields {
    pub title: Option<String>,
    pub artist: Option<String>,
    pub album: Option<String>,
    pub genres: Option<Vec<String>>,
    pub track: Option<u32>,
    /// The file embeds cover art, to be stored beside the index.
    pub has_picture: bool,
}

/// Metadata read by the generic media probe, as raw tag texts.
pub struct ProbeFields {
    pub title: Option<String>,
    pub genre: Option<String>,
    pub artist: Option<String>,
    pub album: Option<String>,
    pub track: Option<String>,
}

/// What the two-stage reader made of one file: the structured tags, the
/// probe's tags when the structured reader had none, or why both failed.
pub enum Extraction {
    StructuredTag(TagFields),
    ProbeTag(ProbeFields),
    Failed(String),
}

pub open spec fn text_or(o: Option<String>, default: Seq<char>) -> Seq<char> {
    match o {
        Some(s) => s@,
        None => default,
    }
}

pub open spec fn genre_texts(g: Seq<String>) -> Seq<Seq<char>> {
    g.map_values(|s: String| s@)
}

/// Where the cover art of the track with the given id is stored.
pub open spec fn cover_file(art_dir: Seq<char>, id: u64) -> Seq<char> {
    art_dir + seq!['/'] + digits_of(id as nat) + seq!['.', 'j', 'p', 'g']
}

/// `s` is the track that structured tags `t` describe for the file `path`.
pub open spec fn describes_tags(s: Song, t: TagFields, path: Seq<char>, art_dir: Seq<char>) -> bool {
    &&& s.title@ == text_or(t.title, "Unknown"@)
    &&& s.artist@ == text_or(t.artist, "Unknown"@)
    &&& s.album@ == text_or(t.album, "Single"@)
    &&& genre_texts(s.genres@) == match t.genres {
        Some(g) => if g@.len() > 0 && g@[0]@.len() > 0 {
            genre_texts(g@)
        } else {
            seq!["Unknown"@]
        },
        None => seq!["Unknown"@],
    }
    &&& s.track@ == match t.track {
        Some(n) => digits_of(n as nat),
        None => "1"@,
    }
    &&& s.path@ == path
    &&& match s.cover {
        Some(c) => t.has_picture && c@ == cover_file(art_dir, s.id),
        None => !t.has_picture,
    }
}

/// `s` is the track that probe tags `p` describe for the file `path`.
pub open spec fn describes_probe(s: Song, p: ProbeFields, path: Seq<char>) -> bool {
    &&& s.title@ == text_or(p.title, "Unknown"@)
    &&& s.artist@ == text_or(p.artist, "Unknown"@)
    &&& s.album@ == text_or(p.album, "Single"@)
    &&& genre_texts(s.genres@) == match p.genre {
        Some(g) => seq![g@],
        None => seq!["Unknown"@],
    }
    &&& s.track@ == match p.track {
        Some(raw) => normalized_track(raw@),
        None => "1"@,
    }
    &&& s.path@ == path
    &&& s.cover is None
}

/// Relies on rand's `random::<u64>` (re-exported by random_number): any
/// value may come back.
#[verifier::external_body]
fn fresh_track_id() -> u64 {
    random_number::rand::random::<u64>()
}

fn text_or_default(o: Option<String>, default: &str) -> (r: String)
    ensures
        r@ == text_or(o, default@),
{
    match o {
        Some(s) => s,
        None => string_of(default),
    }
}

fn unknown_genres() -> (r: Vec<String>)
    ensures
        genre_texts(r@) == seq!["Unknown"@],
{
    let mut r: Vec<String> = Vec::new();
    r.push(string_of("Unknown"));
    assert(genre_texts(r@) =~= seq!["Unknown"@]);
    r
}

/// The text `<art_dir>/<id>.jpg`.
pub fn cover_path(art_dir: &str, id: u64) -> (r: String)
    ensures
        r@ == cover_file(art_dir@, id),
{
    let mut cs = chars_of(art_dir);
    cs.push('/');
    let digits = digits_chars(id);
    append_chars(&mut cs, &digits);
    cs.push('.');
    cs.push('j');
    cs.push('p');
    cs.push('g');
    assert(cs@ =~= cover_file(art_dir@, id));
    text_from_chars(&cs)
}

impl Song {
    /// The track described by structured tags, with a fresh random id.
    /// Missing fields take their defaults: `Unknown` for title, artist and
    /// genre, `Single` for album and `1` for the track number. When the file
    /// embeds art, `cover` names the file under `art_dir` it is to be
    /// stored in.
    pub fn from_tags(tags: TagFields, path: String, art_dir: &str) -> (r: Song)
        ensures
            describes_tags(r, tags, path@, art_dir@),
    {
        let id = fresh_track_id();
        let ghost t = tags;
        let TagFields { title, artist, album, genres, track, has_picture } = tags;
        let genres = match genres {
            Some(g) => {
                if g.len() > 0 && chars_of(g[0].as_str()).len() > 0 {
                    g
                } else {
                    unknown_genres()
                }
            },
            None => unknown_genres(),
        };
        let track = match track {
            Some(n) => text_from_chars(&digits_chars(n as u64)),
            None => string_of("1"),
        };
        let cover = if has_picture {
            Some(cover_path(art_dir, id))
        } else {
            None
        };
        Song {
            id,
            title: text_or_default(title, "Unknown"),
            genres,
            artist: text_or_default(artist, "Unknown"),
            album: text_or_default(album, "Single"),
            track,
            path,
            cover,
        }
    }

    /// The track described by the probe's tags, with a fresh random id. The
    /// same defaults apply; the track number is normalised.
    pub fn from_probe(fields: ProbeFields, path: String) -> (r: Song)
        ensures
            describes_probe(r, fields, path@),
    {
        let id = fresh_track_id();
        let ProbeFields { title, genre, artist, album, track } = fields;
        let genres = match genre {
            Some(g) => {
                let mut v: Vec<String> = Vec::new();
                v.push(g);
                assert(genre_texts(v@) =~= seq![v@[0]@]);
                v
            },
            None => unknown_genres(),
        };
        let track = match track {
            Some(raw) => normalize_track(raw.as_str()),
            None => string_of("1"),
        };
        Song {
            id,
            title: text_or_default(title, "Unknown"),
            genres,
            artist: text_or_default(artist, "Unknown"),
            album: text_or_default(album, "Single"),
            track,
            path,
            cover: None,
        }
    }

    /// The track for one file from the two-stage reader's result; a failed
    /// extraction gives its message back.
    pub fn from_extraction(e: Extraction, path: String, art_dir: &str) -> (r: Result<Song, String>)
        ensures
            match e {
                Extraction::StructuredTag(t) => r matches Ok(s) && describes_tags(
                    s,
                    t,
                    path@,
                    art_dir@,
                ),
                Extraction::ProbeTag(p) => r matches Ok(s) && describes_probe(s, p, path@),
                Extraction::Failed(m) => r == Err::<Song, String>(m),
            },
    {
        match e {
            Extraction::StructuredTag(t) => Ok(Song::from_tags(t, path, art_dir)),
            Extraction::ProbeTag(p) => Ok(Song::from_probe(p, path)),
            Extraction::Failed(m) => Err(m),
        }
    }
}

/// An index load that failed: at least one file could not be read. It
/// carries every failure message, one per line, in the order of the files.
pub struct IndexError {
    pub message: String,
}

/// The tracks read successfully, in the order of the files.
pub open spec fn found_songs(rs: Seq<Result<Song, String>>) -> Seq<Song>
    decreases rs.len(),
{
    if rs.len() == 0 {
        Seq::empty()
    } else {
        let rest = found_songs(rs.drop_last());
        match rs.last() {
            Ok(s) => rest.push(s),
            Err(_) => rest,
        }
    }
}

/// The failure messages, in the order of the files.
pub open spec fn failure_texts(rs: Seq<Result<Song, String>>) -> Seq<Seq<char>>
    decreases rs.len(),
{
    if rs.len() == 0 {
        Seq::empty()
    } else {
        let rest = failure_texts(rs.drop_last());
        match rs.last() {
            Ok(_) => rest,
            Err(m) => rest.push(m@),
        }
    }
}

/// Texts joined with a line break between each two.
pub open spec fn join_lines(ms: Seq<Seq<char>>) -> Seq<char>
    decreases ms.len(),
{
    if ms.len() == 0 {
        Seq::empty()
    } else if ms.len() == 1 {
        ms[0]
    } else {
        join_lines(ms.drop_last()) + seq!['\n'] + ms.last()
    }
}

/// `r` is what assembling an index from the per-file results `rs` gives:
/// the sorted index when every file was read, otherwise the failure.
pub open spec fn index_outcome(rs: Seq<Result<Song, String>>, r: Result<Vec<Song>, IndexError>) -> bool {
    match r {
        Ok(v) => failure_texts(rs).len() == 0 && is_index_of(v@, found_songs(rs)),
        Err(e) => failure_texts(rs).len() > 0 && e.message@ == join_lines(failure_texts(rs)),
    }
}

/// Assembles the index from the per-file results. All or nothing: one
/// failed file fails the whole load, and no partial index comes back.
pub fn index_from_results(results: Vec<Result<Song, String>>) -> (r: Result<Vec<Song>, IndexError>)
    ensures
        index_outcome(results@, r),
{
    let ghost all = results@;
    let mut found: Vec<Song> = Vec::new();
    let mut message: Vec<char> = Vec::new();
    let mut failures: usize = 0;
    let n = results.len();
    for item in it: results.into_iter()
        invariant
            it.seq() == all,
            all.len() == n,
            found@ == found_songs(all.subrange(0, it.index() as int)),
            failures == failure_texts(all.subrange(0, it.index() as int)).len(),
            message@ == join_lines(failure_texts(all.subrange(0, it.index() as int))),
            failures <= it.index(),
    {
        let ghost i = it.index() as int;
        proof {
            let pre = all.subrange(0, i + 1);
            assert(pre.drop_last() =~= all.subrange(0, i));
            assert(pre.last() == all[i]);
        }
        match item {
            Ok(s) => {
                found.push(s);
            },
            Err(m) => {
                let ghost prev = failure_texts(all.subrange(0, i));
                let ghost before = message@;
                if failures > 0 {
                    message.push('\n');
                }
                let mc = chars_of(m.as_str());
                append_chars(&mut message, &mc);
                proof {
                    let next = prev.push(m@);
                    assert(next.drop_last() =~= prev);
                    if prev.len() > 0 {
                        assert(message@ =~= join_lines(prev) + seq!['\n'] + m@);
                    } else {
                        assert(message@ =~= m@);
                    }
                }
                failures += 1;
            },
        }
    }
    assert(all.subrange(0, all.len() as int) =~= all);
    if failures == 0 {
        Ok(sort_songs(found))
    } else {
        Err(IndexError { message: text_from_chars(&message) })
    }
}

} // verus!
