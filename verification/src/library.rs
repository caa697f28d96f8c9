//! The track library: scan bookkeeping and the sorted collection of tracks.

use vstd::prelude::*;

use crate::text::{
    chars_eq, chars_le, chars_of, has_supported_extension, is_supported_audio_path,
    lemma_lex_le_antisymmetric, lemma_lex_le_reflexive, lemma_lex_le_total,
    lemma_lex_le_transitive, lex_le, lex_lt,
};
use crate::track::{SongInfo, SongView};

verus! {

/// The artist text a track is sorted under: its tag, or "Unknown".
pub open spec fn artist_key(s: SongView) -> Seq<char> {
    match s.artist {
        Some(a) => a,
        None => "Unknown"@,
    }
}

/// The album text a track is sorted under: its tag, or "Unknown".
pub open spec fn album_key(s: SongView) -> Seq<char> {
    match s.album {
        Some(a) => a,
        None => "Unknown"@,
    }
}

/// The track number a track is sorted under: its tag, or 0.
pub open spec fn track_key(s: SongView) -> u16 {
    match s.track.0 {
        Some(n) => n,
        None => 0,
    }
}

/// Library order: artist ascending, then album, then track number, with
/// absent fields read as "Unknown" and 0.  Tracks with equal keys are
/// related both ways; nothing beyond the keys orders them.
pub open spec fn song_le(a: SongView, b: SongView) -> bool {
    ||| lex_lt(artist_key(a), artist_key(b))
    ||| (artist_key(a) == artist_key(b) && (lex_lt(album_key(a), album_key(b)) || (album_key(a)
        == album_key(b) && track_key(a) <= track_key(b))))
}

/// Any two tracks are related by `song_le` one way or the other.
pub proof fn lemma_song_le_total(a: SongView, b: SongView)
    ensures
        song_le(a, b) || song_le(b, a),
{
    lemma_lex_le_total(artist_key(a), artist_key(b));
    lemma_lex_le_total(album_key(a), album_key(b));
    if artist_key(a) == artist_key(b) && album_key(a) == album_key(b) {
        assert(track_key(a) <= track_key(b) || track_key(b) <= track_key(a));
    }
}

/// `song_le` is transitive.
pub proof fn lemma_song_le_transitive(a: SongView, b: SongView, c: SongView)
    requires
        song_le(a, b),
        song_le(b, c),
    ensures
        song_le(a, c),
{
    let ka = artist_key(a);
    let kb = artist_key(b);
    let kc = artist_key(c);
    lemma_lex_le_reflexive(ka);
    lemma_lex_le_reflexive(kb);
    assert(lex_le(ka, kb));
    assert(lex_le(kb, kc));
    lemma_lex_le_transitive(ka, kb, kc);
    if ka == kc {
        lemma_lex_le_antisymmetric(ka, kb);
        let la = album_key(a);
        let lb = album_key(b);
        let lc = album_key(c);
        lemma_lex_le_reflexive(la);
        lemma_lex_le_reflexive(lb);
        assert(lex_le(la, lb));
        assert(lex_le(lb, lc));
        lemma_lex_le_transitive(la, lb, lc);
        if la == lc {
            lemma_lex_le_antisymmetric(la, lb);
        }
    }
}

/// The views of a run of tracks, in order.
pub open spec fn views_of(s: Seq<SongInfo>) -> Seq<SongView> {
    s.map_values(|x: SongInfo| x@)
}

/// Sorted in library order.
pub open spec fn songs_sorted(s: Seq<SongView>) -> bool {
    forall|i: int, j: int| 0 <= i < j < s.len() ==> song_le(#[trigger] s[i], #[trigger] s[j])
}

fn artist_key_chars(s: &SongInfo) -> (v: Vec<char>)
    ensures
        v@ == artist_key(s@),
{
    match s.artist() {
        Some(t) => chars_of(t),
        None => chars_of("Unknown"),
    }
}

fn album_key_chars(s: &SongInfo) -> (v: Vec<char>)
    ensures
        v@ == album_key(s@),
{
    match s.album() {
        Some(t) => chars_of(t),
        None => chars_of("Unknown"),
    }
}

fn track_key_number(s: &SongInfo) -> (n: u16)
    ensures
        n == track_key(s@),
{
    match s.track().0 {
        Some(n) => n,
        None => 0,
    }
}

/// Decides `song_le` on two tracks.
fn song_le_exec(a: &SongInfo, b: &SongInfo) -> (r: bool)
    ensures
        r == song_le(a@, b@),
{
    let ka = artist_key_chars(a);
    let kb = artist_key_chars(b);
    if !chars_eq(&ka, &kb) {
        return chars_le(&ka, &kb);
    }
    let la = album_key_chars(a);
    let lb = album_key_chars(b);
    if !chars_eq(&la, &lb) {
        return chars_le(&la, &lb);
    }
    track_key_number(a) <= track_key_number(b)
}

/// Inserting an element anywhere adds exactly it to the multiset.
proof fn lemma_insert_to_multiset(s: Seq<SongInfo>, p: int, x: SongInfo)
    requires
        0 <= p <= s.len(),
    ensures
        s.insert(p, x).to_multiset() == s.to_multiset().insert(x),
{
    broadcast use vstd::seq_lib::group_to_multiset_ensures;
    broadcast use vstd::multiset::group_multiset_axioms;

    let t = s.insert(p, x);
    assert(t.remove(p) =~= s);
    assert(t[p] == x);
    assert(s.to_multiset() =~= t.to_multiset().remove(x));
    assert(t.to_multiset().count(x) > 0) by {
        assert(t.contains(x));
    }
    assert(t.to_multiset() =~= s.to_multiset().insert(x)) by {
        assert(forall|y: SongInfo|
            #[trigger] t.to_multiset().count(y) == s.to_multiset().insert(x).count(y));
    }
}

/// Places one track into an already sorted vector, keeping it sorted.
fn insert_sorted(out: &mut Vec<SongInfo>, x: SongInfo)
    requires
        songs_sorted(views_of(old(out)@)),
    ensures
        songs_sorted(views_of(final(out)@)),
        final(out)@.to_multiset() == old(out)@.to_multiset().insert(x),
{
    let ghost xv = x@;
    let mut p: usize = 0;
    while p < out.len() && song_le_exec(&out[p], &x)
        invariant
            p <= out@.len(),
            songs_sorted(views_of(out@)),
            forall|i: int| 0 <= i < p ==> song_le(#[trigger] views_of(out@)[i], xv),
            out@ == old(out)@,
            xv == x@,
        decreases out@.len() - p,
    {
        proof {
            assert(views_of(out@)[p as int] == out@[p as int]@);
        }
        p += 1;
    }
    proof {
        if p < out@.len() {
            assert(!song_le(out@[p as int]@, xv));
            lemma_song_le_total(out@[p as int]@, xv);
            assert(song_le(xv, views_of(out@)[p as int]));
        }
        lemma_insert_to_multiset(out@, p as int, x);
    }
    let ghost pre = out@;
    out.insert(p, x);
    proof {
        let t = views_of(out@);
        let s = views_of(pre);
        assert(t =~= s.insert(p as int, xv)) by {
            assert(out@ == pre.insert(p as int, x));
            assert(forall|i: int| 0 <= i < out@.len() ==> #[trigger] t[i] == out@[i]@);
        }
        assert forall|i: int, j: int| 0 <= i < j < t.len() implies song_le(
            #[trigger] t[i],
            #[trigger] t[j],
        ) by {
            if j < p {
                assert(t[i] == s[i] && t[j] == s[j]);
            } else if i > p {
                assert(t[i] == s[i - 1] && t[j] == s[j - 1]);
            } else if i < p && j == p {
                assert(t[i] == s[i] && t[j] == xv);
            } else if i == p && j > p {
                assert(t[i] == xv && t[j] == s[j - 1]);
                assert(p < s.len());
                assert(song_le(xv, s[p as int]));
                if j - 1 > p {
                    lemma_song_le_transitive(xv, s[p as int], s[j - 1]);
                }
            } else if i < p && j > p {
                assert(t[i] == s[i] && t[j] == s[j - 1]);
                assert(i < j - 1 < s.len());
            }
        }
    }
}

/// Sorts the tracks in library order.  Only the key order is guaranteed;
/// tracks with equal keys may come out in any mutual order, and the result
/// holds exactly the tracks that went in.
pub fn sort_songs(v: &mut Vec<SongInfo>)
    ensures
        songs_sorted(views_of(final(v)@)),
        final(v)@.to_multiset() == old(v)@.to_multiset(),
{
    broadcast use vstd::seq_lib::group_to_multiset_ensures;

    let mut out: Vec<SongInfo> = Vec::new();
    proof {
        assert(views_of(out@) =~= Seq::<SongView>::empty());
        assert(out@.to_multiset().add(old(v)@.to_multiset()) =~= old(v)@.to_multiset());
    }
    while v.len() > 0
        invariant
            songs_sorted(views_of(out@)),
            out@.to_multiset().add(v@.to_multiset()) == old(v)@.to_multiset(),
        decreases v@.len(),
    {
        let ghost prev = v@;
        let x = v.pop().unwrap();
        proof {
            broadcast use vstd::multiset::group_multiset_axioms;

            assert(prev =~= v@.push(x));
            v@.to_multiset_ensures();
            assert(v@.push(x).to_multiset() =~= v@.to_multiset().insert(x));
            assert(prev.to_multiset() =~= v@.to_multiset().insert(x));
            assert(out@.to_multiset().insert(x).add(v@.to_multiset()) =~= out@.to_multiset().add(
                prev.to_multiset(),
            ));
        }
        insert_sorted(&mut out, x);
    }
    proof {
        assert(v@.to_multiset().len() == 0);
        assert(out@.to_multiset().add(v@.to_multiset()) =~= out@.to_multiset()) by {
            broadcast use vstd::multiset::group_multiset_axioms;

            assert(forall|y: SongInfo| v@.to_multiset().count(y) == 0);
        }
    }
    *v = out;
}

/// What one directory entry is, as the traversal collaborator reports it.
#[derive(PartialEq, Eq, Structural, Clone, Copy, Debug)]
pub enum EntryKind {
    Directory,
    File,
    Other,
}

/// Bookkeeping of one scan: the stack of directories still to visit, the
/// count of supported files seen, and the tracks loaded so far.
///
/// The walk itself is driven from outside: directories come off the stack
/// through `next_dir`, each listed entry is reported through `on_entry`,
/// and every track whose metadata could be read arrives through `on_track`.
/// A directory that cannot be listed is fatal to the scan; the session is
/// then dropped and the library cleared.
pub struct ScanSession {
    /// Directories not yet visited, depth first: the next is the last.
    pub pending: Vec<String>,
    /// Files seen with a supported extension, parseable or not.
    pub seen: usize,
    /// Tracks whose metadata was successfully extracted, in encounter order.
    pub loaded: Vec<SongInfo>,
}

impl ScanSession {
    /// Starts a scan at `root`.
    pub fn new(root: String) -> (s: Self)
        ensures
            s.pending@ =~= seq![root],
            s.seen == 0,
            s.loaded@ =~= Seq::<SongInfo>::empty(),
    {
        let mut pending: Vec<String> = Vec::new();
        pending.push(root);
        ScanSession { pending, seen: 0, loaded: Vec::new() }
    }

    /// The next directory to list, deepest first; None when the walk is done.
    pub fn next_dir(&mut self) -> (d: Option<String>)
        ensures
            final(self).seen == old(self).seen,
            final(self).loaded == old(self).loaded,
            old(self).pending@.len() == 0 ==> d is None && final(self).pending@
                == old(self).pending@,
            old(self).pending@.len() > 0 ==> d == Some(old(self).pending@.last())
                && final(self).pending@ == old(self).pending@.drop_last(),
    {
        let d = self.pending.pop();
        proof {
            if old(self).pending@.len() > 0 {
                assert(self.pending@ =~= old(self).pending@.drop_last());
            }
        }
        d
    }

    /// Notes one entry of the directory being listed.  A directory goes on
    /// the stack; a file with a supported extension is counted as seen and
    /// answers true, asking for its metadata; everything else is ignored.
    pub fn on_entry(&mut self, path: String, kind: EntryKind) -> (read_meta: bool)
        requires
            old(self).seen < usize::MAX,
        ensures
            read_meta == (kind == EntryKind::File && is_supported_audio_path(path@)),
            final(self).loaded == old(self).loaded,
            kind == EntryKind::Directory ==> final(self).pending@ == old(self).pending@.push(path)
                && final(self).seen == old(self).seen,
            kind != EntryKind::Directory ==> final(self).pending == old(self).pending,
            final(self).seen == if read_meta {
                old(self).seen + 1
            } else {
                old(self).seen as int
            },
    {
        match kind {
            EntryKind::Directory => {
                self.pending.push(path);
                false
            },
            EntryKind::File => {
                if has_supported_extension(path.as_str()) {
                    self.seen += 1;
                    true
                } else {
                    false
                }
            },
            EntryKind::Other => false,
        }
    }

    /// Accepts one track whose metadata the provider could extract.
    pub fn on_track(&mut self, t: SongInfo)
        ensures
            final(self).loaded@ == old(self).loaded@.push(t),
            final(self).pending == old(self).pending,
            final(self).seen == old(self).seen,
    {
        self.loaded.push(t);
    }

    /// How many supported files the scan has seen, parseable or not.
    pub fn files_seen(&self) -> (n: usize)
        ensures
            n == self.seen,
    {
        self.seen
    }
}

/// The sorted collection of tracks under one root directory.
pub struct Library {
    /// The directory tree the tracks were scanned from.
    pub root_dir: String,
    /// The tracks of the latest completed scan, in library order.
    pub files: Vec<SongInfo>,
}

impl Library {
    /// A library over `root_dir`, with no tracks until a scan completes.
    pub fn new(root_dir: &str) -> (l: Library)
        ensures
            l.root_dir@ == root_dir@,
            l.files@ =~= Seq::<SongInfo>::empty(),
    {
        Library { root_dir: root_dir.to_owned(), files: Vec::new() }
    }

    /// The tracks of the latest completed scan, in library order.
    pub fn files(&self) -> (r: &Vec<SongInfo>)
        ensures
            r == &self.files,
    {
        &self.files
    }

    /// The root the library scans from.
    pub fn root_dir(&self) -> (r: &str)
        ensures
            r@ == self.root_dir@,
    {
        self.root_dir.as_str()
    }

    /// Takes in a completed scan: the loaded tracks, sorted, replace the
    /// previous contents entirely, and the count of supported files seen
    /// (parseable or not) is handed back.
    pub fn scan(&mut self, session: ScanSession) -> (seen: usize)
        ensures
            seen == session.seen,
            final(self).root_dir == old(self).root_dir,
            songs_sorted(views_of(final(self).files@)),
            final(self).files@.to_multiset() == session.loaded@.to_multiset(),
    {
        let ScanSession { pending: _, seen, loaded } = session;
        self.files = loaded;
        sort_songs(&mut self.files);
        seen
    }

    /// A library already populated from a completed scan.
    pub fn with_scan(self, session: ScanSession) -> (l: Library)
        ensures
            l.root_dir == self.root_dir,
            songs_sorted(views_of(l.files@)),
            l.files@.to_multiset() == session.loaded@.to_multiset(),
    {
        let mut l = self;
        let _ = l.scan(session);
        l
    }

    /// Empties the library, as a failed scan leaves it.
    pub fn clear(&mut self)
        ensures
            final(self).root_dir == old(self).root_dir,
            final(self).files@ =~= Seq::<SongInfo>::empty(),
    {
        self.files.clear();
    }
}

} // verus!
