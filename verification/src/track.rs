//! The metadata record of one scanned audio file.

use vstd::prelude::*;

verus! {

/// Tag fields and duration of one audio file, immutable after creation.
///
/// Optional fields keep the distinction between "absent" and the literal
/// text "Unknown"; the placeholder is substituted only when sorting or
/// displaying.  The duration is a non-negative span in milliseconds, zero
/// when it could not be recovered.
pub struct SongInfo {
    title: Option<String>,
    album: Option<String>,
    artist: Option<String>,
    album_artist: Option<String>,
    year: Option<i32>,
    genre: Option<String>,
    track: (Option<u16>, Option<u16>),
    disc: (Option<u16>, Option<u16>),
    duration_ms: u64,
    file_path: String,
}

/// The mathematical value of a `SongInfo`: the same fields with every piece
/// of text as a sequence of characters.
#[verifier::ext_equal]
pub struct SongView {
    pub title: Option<Seq<char>>,
    pub album: Option<Seq<char>>,
    pub artist: Option<Seq<char>>,
    pub album_artist: Option<Seq<char>>,
    pub year: Option<i32>,
    pub genre: Option<Seq<char>>,
    pub track: (Option<u16>, Option<u16>),
    pub disc: (Option<u16>, Option<u16>),
    pub duration_ms: u64,
    pub file_path: Seq<char>,
}

pub open spec fn opt_text_view(o: Option<String>) -> Option<Seq<char>> {
    match o {
        Some(s) => Some(s@),
        None => None,
    }
}

impl View for SongInfo {
    type V = SongView;

    closed spec fn view(&self) -> SongView {
        SongView {
            title: opt_text_view(self.title),
            album: opt_text_view(self.album),
            artist: opt_text_view(self.artist),
            album_artist: opt_text_view(self.album_artist),
            year: self.year,
            genre: opt_text_view(self.genre),
            track: self.track,
            disc: self.disc,
            duration_ms: self.duration_ms,
            file_path: self.file_path@,
        }
    }
}

fn clone_opt_text(o: &Option<String>) -> (r: Option<String>)
    ensures
        opt_text_view(r) == opt_text_view(*o),
{
    match o {
        Some(s) => Some(s.clone()),
        None => None,
    }
}

impl SongInfo {
    /// Builds the record from already-extracted tag fields.  Tag reading
    /// itself is an outside collaborator; it hands plain values in.
    pub fn new(
        title: Option<String>,
        album: Option<String>,
        artist: Option<String>,
        album_artist: Option<String>,
        year: Option<i32>,
        genre: Option<String>,
        track: (Option<u16>, Option<u16>),
        disc: (Option<u16>, Option<u16>),
        duration_ms: u64,
        file_path: String,
    ) -> (r: Self)
        ensures
            r@ == (SongView {
                title: opt_text_view(title),
                album: opt_text_view(album),
                artist: opt_text_view(artist),
                album_artist: opt_text_view(album_artist),
                year,
                genre: opt_text_view(genre),
                track,
                disc,
                duration_ms,
                file_path: file_path@,
            }),
    {
        SongInfo { title, album, artist, album_artist, year, genre, track, disc, duration_ms, file_path }
    }

    /// An owned copy with the same value; the snapshot taken when a track
    /// becomes active.
    pub fn duplicate(&self) -> (r: Self)
        ensures
            r@ == self@,
    {
        SongInfo {
            title: clone_opt_text(&self.title),
            album: clone_opt_text(&self.album),
            artist: clone_opt_text(&self.artist),
            album_artist: clone_opt_text(&self.album_artist),
            year: self.year,
            genre: clone_opt_text(&self.genre),
            track: self.track,
            disc: self.disc,
            duration_ms: self.duration_ms,
            file_path: self.file_path.clone(),
        }
    }

    pub fn title(&self) -> (r: Option<&str>)
        ensures
            r matches Some(s) ==> self@.title == Some(s@),
            r is None <==> self@.title is None,
    {
        match &self.title {
            Some(s) => Some(s.as_str()),
            None => None,
        }
    }

    pub fn album(&self) -> (r: Option<&str>)
        ensures
            r matches Some(s) ==> self@.album == Some(s@),
            r is None <==> self@.album is None,
    {
        match &self.album {
            Some(s) => Some(s.as_str()),
            None => None,
        }
    }

    pub fn artist(&self) -> (r: Option<&str>)
        ensures
            r matches Some(s) ==> self@.artist == Some(s@),
            r is None <==> self@.artist is None,
    {
        match &self.artist {
            Some(s) => Some(s.as_str()),
            None => None,
        }
    }

    pub fn _album_artist(&self) -> (r: Option<&str>)
        ensures
            r matches Some(s) ==> self@.album_artist == Some(s@),
            r is None <==> self@.album_artist is None,
    {
        match &self.album_artist {
            Some(s) => Some(s.as_str()),
            None => None,
        }
    }

    pub fn _year(&self) -> (r: &Option<i32>)
        ensures
            *r == self@.year,
    {
        &self.year
    }

    pub fn _genre(&self) -> (r: Option<&str>)
        ensures
            r matches Some(s) ==> self@.genre == Some(s@),
            r is None <==> self@.genre is None,
    {
        match &self.genre {
            Some(s) => Some(s.as_str()),
            None => None,
        }
    }

    pub fn track(&self) -> (r: (Option<u16>, Option<u16>))
        ensures
            r == self@.track,
    {
        self.track
    }

    pub fn _disc(&self) -> (r: (Option<u16>, Option<u16>))
        ensures
            r == self@.disc,
    {
        self.disc
    }

    /// Total duration in milliseconds.
    pub fn duration(&self) -> (r: u64)
        ensures
            r == self@.duration_ms,
    {
        self.duration_ms
    }

    pub fn _file_path(&self) -> (r: &str)
        ensures
            r@ == self@.file_path,
    {
        self.file_path.as_str()
    }
}

} // verus!
