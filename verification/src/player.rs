//! The playback/session state machine.
//!
//! `PlayerApp` owns the library, a mirror of the audio engine's state and
//! the user-facing session state.  The audio engine itself (decode and
//! output) is an outside collaborator that behaves as a synchronous command
//! sink: the state machine decides, and its caller performs the engine
//! calls that the decisions ask for, reporting back what only the engine
//! can know (whether a source loaded, what duration it reported, whether a
//! seek was accepted).

use vstd::prelude::*;

use crate::library::{songs_sorted, views_of, Library, ScanSession};
use crate::text::{chars_contain, chars_of, contains_text, lower_of, lowercase, push_char,
    string_of_chars};
use crate::track::{opt_text_view, SongInfo, SongView};

verus! {

/// Full scale of the volume control, in hundredths: 100 stands for 1.0.
pub const MAX_VOLUME: u32 = 100;

/// How far one forward seek jumps, in milliseconds.
pub const SEEK_FORWARD_MS: u64 = 5000;

/// How far one backward seek jumps, in milliseconds: smaller than the
/// forward step, to skip ahead more eagerly than rewind.
pub const SEEK_BACKWARD_MS: u64 = 1000;

/// Mirror of the audio engine's sink state.  The engine is commanded only
/// through the session, so this mirror is authoritative: after every
/// mutation the caller brings the real sink to the state recorded here.
#[derive(Clone, Copy, Debug)]
pub struct AudioManager {
    /// Whether the sink is paused.
    pub paused: bool,
    /// Volume in hundredths of full scale, at most `MAX_VOLUME`.
    pub volume: u32,
    /// The session's playback clock: elapsed milliseconds of the loaded
    /// source, advanced once per update tick while playing.
    pub playback_progress_ms: u64,
    /// Total duration the engine reported for the loaded source, when it
    /// could report one.
    pub active_source_duration_ms: Option<u64>,
}

/// Volume moved by `delta` and clamped into [0, MAX_VOLUME].
pub open spec fn clamped_volume(v: u32, delta: i64) -> u32 {
    if v + delta < 0 {
        0u32
    } else if v + delta > MAX_VOLUME {
        MAX_VOLUME
    } else {
        (v + delta) as u32
    }
}

/// Where a backward seek lands: one step back, clamped at zero.
pub open spec fn seek_backward_target_of(progress: u64) -> u64 {
    if progress >= SEEK_BACKWARD_MS {
        (progress - SEEK_BACKWARD_MS) as u64
    } else {
        0u64
    }
}

impl AudioManager {
    /// The volume never leaves its scale.
    pub open spec fn wf(self) -> bool {
        self.volume <= MAX_VOLUME
    }

    /// The state a fresh sink is brought to: paused, full volume, nothing
    /// loaded.
    pub fn new() -> (am: Self)
        ensures
            am == (AudioManager {
                paused: true,
                volume: MAX_VOLUME,
                playback_progress_ms: 0,
                active_source_duration_ms: None::<u64>,
            }),
    {
        AudioManager { paused: true, volume: MAX_VOLUME, playback_progress_ms: 0, active_source_duration_ms: None }
    }

    pub fn play(&mut self)
        ensures
            *final(self) == (AudioManager { paused: false, ..*old(self) }),
    {
        self.paused = false;
    }

    pub fn pause(&mut self)
        ensures
            *final(self) == (AudioManager { paused: true, ..*old(self) }),
    {
        self.paused = true;
    }

    pub fn toggle_playback(&mut self)
        ensures
            *final(self) == (AudioManager { paused: !old(self).paused, ..*old(self) }),
    {
        self.paused = !self.paused;
    }

    pub fn is_paused(&self) -> (r: bool)
        ensures
            r == self.paused,
    {
        self.paused
    }

    /// Advances the playback clock by `dt` while playing; frozen while
    /// paused, whatever `dt` is.
    pub fn update(&mut self, dt: u64)
        requires
            old(self).paused || old(self).playback_progress_ms + dt <= u64::MAX,
        ensures
            old(self).paused ==> *final(self) == *old(self),
            !old(self).paused ==> *final(self) == (AudioManager {
                playback_progress_ms: (old(self).playback_progress_ms + dt) as u64,
                ..*old(self)
            }),
    {
        if !self.paused {
            self.playback_progress_ms = self.playback_progress_ms + dt;
        }
    }

    pub fn get_volume(&self) -> (v: u32)
        ensures
            v == self.volume,
    {
        self.volume
    }

    /// Sets the volume, clamped to full scale.
    pub fn set_volume(&mut self, volume: u32)
        ensures
            *final(self) == (AudioManager {
                volume: if volume > MAX_VOLUME {
                    MAX_VOLUME
                } else {
                    volume
                },
                ..*old(self)
            }),
            final(self).wf(),
    {
        self.volume = if volume > MAX_VOLUME {
            MAX_VOLUME
        } else {
            volume
        };
    }

    /// Moves the volume by `delta` hundredths; the result is clamped into
    /// [0, MAX_VOLUME] whatever the magnitude or sign of `delta`.
    pub fn adjust_volume(&mut self, delta: i64)
        requires
            old(self).wf(),
        ensures
            *final(self) == (AudioManager {
                volume: clamped_volume(old(self).volume, delta),
                ..*old(self)
            }),
            final(self).wf(),
    {
        let v = self.volume;
        let nv: u32 = if delta >= (MAX_VOLUME as i64) {
            MAX_VOLUME
        } else if delta <= -(MAX_VOLUME as i64) {
            0
        } else {
            let n: i64 = v as i64 + delta;
            if n < 0 {
                0
            } else if n > MAX_VOLUME as i64 {
                MAX_VOLUME
            } else {
                n as u32
            }
        };
        self.volume = nv;
    }

    /// Records that the engine accepted a new source: the clock restarts
    /// and the engine-reported duration is kept.
    pub fn set_active_source(&mut self, duration_ms: Option<u64>)
        ensures
            *final(self) == (AudioManager {
                playback_progress_ms: 0u64,
                active_source_duration_ms: duration_ms,
                ..*old(self)
            }),
    {
        self.playback_progress_ms = 0;
        self.active_source_duration_ms = duration_ms;
    }

    /// Jumps the clock straight to `duration_ms`, the active track's total
    /// duration: the skip-to-end control.
    pub fn skip(&mut self, duration_ms: u64)
        ensures
            *final(self) == (AudioManager { playback_progress_ms: duration_ms, ..*old(self) }),
    {
        self.playback_progress_ms = duration_ms;
    }

    /// Where one forward seek would land.  Committed only after the engine
    /// accepts the seek.
    pub fn seek_forward(&self) -> (t: u64)
        requires
            self.playback_progress_ms + SEEK_FORWARD_MS <= u64::MAX,
        ensures
            t == self.playback_progress_ms + SEEK_FORWARD_MS,
    {
        self.playback_progress_ms + SEEK_FORWARD_MS
    }

    /// Where one backward seek would land: clamped at zero.  Committed only
    /// after the engine accepts the seek.
    pub fn seek_backward(&self) -> (t: u64)
        ensures
            t == seek_backward_target_of(self.playback_progress_ms),
    {
        if self.playback_progress_ms >= SEEK_BACKWARD_MS {
            self.playback_progress_ms - SEEK_BACKWARD_MS
        } else {
            0
        }
    }

    /// Commits a seek the engine accepted: the clock moves to the target.
    /// A refused seek is never committed, so the clock never shows a
    /// position the engine could not honor.
    pub fn commit_seek(&mut self, target_ms: u64)
        ensures
            *final(self) == (AudioManager { playback_progress_ms: target_ms, ..*old(self) }),
    {
        self.playback_progress_ms = target_ms;
    }

    /// The playback clock, in milliseconds.
    pub fn playback_progress(&self) -> (t: u64)
        ensures
            t == self.playback_progress_ms,
    {
        self.playback_progress_ms
    }

    /// The engine-reported duration of the loaded source, if any.
    pub fn _active_source_duration(&self) -> (d: Option<u64>)
        ensures
            d == self.active_source_duration_ms,
    {
        self.active_source_duration_ms
    }
}

/// Which screen the player is on.  The three are mutually exclusive;
/// `InfoPopup` is recognized but inert: nothing transitions into it and
/// every event there is ignored.
#[derive(PartialEq, Eq, Structural, Clone, Copy, Debug)]
pub enum AppUiMode {
    FileList,
    SearchPopup,
    InfoPopup,
}

/// How the next track is chosen at end of track.
#[derive(PartialEq, Eq, Structural, Clone, Copy, Debug)]
pub enum PlaybackMode {
    /// The next library track in order.
    Sequential,
    /// A pseudo-random track other than the current one.
    Shuffle,
}

/// The session state the user steers directly.
pub struct AppState {
    /// Owned copy of the track loaded into the engine, present exactly
    /// while a track is active.
    pub active_song: Option<SongInfo>,
    /// Index into the unfiltered library of the actively loaded track;
    /// meaningful only while a track is active.
    pub playing_file_ix: usize,
    /// Index into the currently displayed (filtered) track list.
    pub selected_file_ix: usize,
    /// The search filter; absent means no filter.  Never the empty text:
    /// erasing the last character removes the filter instead.
    pub search_query: Option<String>,
    pub ui_mode: AppUiMode,
}

/// The mathematical value of the whole session.
#[verifier::ext_equal]
pub struct PlayerView {
    pub files: Seq<SongView>,
    pub root_dir: Seq<char>,
    pub am: AudioManager,
    pub alive: bool,
    pub active_song: Option<SongView>,
    pub playing_file_ix: usize,
    pub selected_file_ix: usize,
    pub search_query: Option<Seq<char>>,
    pub ui_mode: AppUiMode,
    pub playback_mode: PlaybackMode,
    pub shuffle_seed: u64,
}

/// The player: library, engine mirror, session state.
pub struct PlayerApp {
    pub library: Library,
    pub am: AudioManager,
    pub alive: bool,
    pub app_state: AppState,
    pub playback_mode: PlaybackMode,
    /// State of the pseudo-random generator that shuffle mode draws from.
    pub shuffle_seed: u64,
}

impl View for PlayerApp {
    type V = PlayerView;

    open spec fn view(&self) -> PlayerView {
        PlayerView {
            files: views_of(self.library.files@),
            root_dir: self.library.root_dir@,
            am: self.am,
            alive: self.alive,
            active_song: match self.app_state.active_song {
                Some(s) => Some(s@),
                None => None,
            },
            playing_file_ix: self.app_state.playing_file_ix,
            selected_file_ix: self.app_state.selected_file_ix,
            search_query: opt_text_view(self.app_state.search_query),
            ui_mode: self.app_state.ui_mode,
            playback_mode: self.playback_mode,
            shuffle_seed: self.shuffle_seed,
        }
    }
}

/// The text of an optional tag field, absent read as empty.
pub open spec fn text_or_empty(o: Option<Seq<char>>) -> Seq<char> {
    match o {
        Some(t) => t,
        None => Seq::empty(),
    }
}

/// Whether a track matches a (already lowercased) search needle: its
/// title, artist or album contains the needle case-insensitively.
pub open spec fn song_matches(s: SongView, needle: Seq<char>) -> bool {
    ||| contains_text(lower_of(text_or_empty(s.title)), needle)
    ||| contains_text(lower_of(text_or_empty(s.artist)), needle)
    ||| contains_text(lower_of(text_or_empty(s.album)), needle)
}

/// Whether a track is displayed under the given filter: no filter shows
/// everything.
pub open spec fn matches_query(s: SongView, q: Option<Seq<char>>) -> bool {
    match q {
        None => true,
        Some(t) => song_matches(s, lower_of(t)),
    }
}

/// The library indices of the displayed list, in library order: exactly
/// the tracks that match the filter.
pub open spec fn filtered_ixs(files: Seq<SongView>, q: Option<Seq<char>>) -> Seq<int>
    decreases files.len(),
{
    if files.len() == 0 {
        Seq::empty()
    } else {
        let prefix = filtered_ixs(files.drop_last(), q);
        if matches_query(files.last(), q) {
            prefix.push(files.len() - 1)
        } else {
            prefix
        }
    }
}

/// What `filtered_ixs` holds: strictly increasing library indices of
/// exactly the matching tracks.
pub proof fn lemma_filtered_ixs(files: Seq<SongView>, q: Option<Seq<char>>)
    ensures
        forall|k: int|
            0 <= k < filtered_ixs(files, q).len() ==> 0 <= #[trigger] filtered_ixs(files, q)[k]
                < files.len() && matches_query(files[filtered_ixs(files, q)[k]], q),
        forall|k1: int, k2: int|
            0 <= k1 < k2 < filtered_ixs(files, q).len() ==> #[trigger] filtered_ixs(files, q)[k1]
                < #[trigger] filtered_ixs(files, q)[k2],
        forall|j: int|
            0 <= j < files.len() && matches_query(#[trigger] files[j], q) ==> filtered_ixs(
                files,
                q,
            ).contains(j),
        filtered_ixs(files, q).len() <= files.len(),
    decreases files.len(),
{
    if files.len() > 0 {
        lemma_filtered_ixs(files.drop_last(), q);
        let fx = filtered_ixs(files, q);
        let pre = filtered_ixs(files.drop_last(), q);
        assert(forall|j: int| 0 <= j < files.len() - 1 ==> files[j] == files.drop_last()[j]);
        assert forall|j: int|
            0 <= j < files.len() && matches_query(#[trigger] files[j], q) implies fx.contains(
            j,
        ) by {
            if j < files.len() - 1 {
                assert(pre.contains(j));
                let k = choose|k: int| 0 <= k < pre.len() && pre[k] == j;
                assert(fx[k] == j);
            } else {
                assert(matches_query(files.last(), q));
                assert(fx[fx.len() - 1] == j);
            }
        }
    }
}

/// How many tracks the displayed list holds.
pub open spec fn filtered_len(v: PlayerView) -> int {
    filtered_ixs(v.files, v.search_query).len() as int
}

/// A selection index brought back into the displayed list's bounds.
pub open spec fn clamped_selection(sel: usize, n: int) -> usize {
    if n == 0 {
        0usize
    } else if sel < n {
        sel
    } else {
        (n - 1) as usize
    }
}

/// The selection moved one row down, clamped inside the displayed list.
pub open spec fn spec_select_next(v: PlayerView) -> PlayerView {
    let n = filtered_len(v);
    PlayerView {
        selected_file_ix: if n > 0 && v.selected_file_ix + 1 < n {
            (v.selected_file_ix + 1) as usize
        } else {
            v.selected_file_ix
        },
        ..v
    }
}

/// The selection moved one row up, clamped at 0.
pub open spec fn spec_select_previous(v: PlayerView) -> PlayerView {
    PlayerView {
        selected_file_ix: if v.selected_file_ix > 0 {
            (v.selected_file_ix - 1) as usize
        } else {
            0usize
        },
        ..v
    }
}

/// The session invariant: the volume is on scale, the playing index names
/// a library track whenever one is active, the search filter is never the
/// empty text, and the selection sits inside the displayed list (or at 0
/// when the list is empty).
pub open spec fn session_wf(v: PlayerView) -> bool {
    &&& v.am.wf()
    &&& (v.active_song is Some ==> v.playing_file_ix < v.files.len())
    &&& (v.search_query matches Some(q) ==> q.len() > 0)
    &&& (if filtered_len(v) == 0 {
        v.selected_file_ix == 0
    } else {
        v.selected_file_ix < filtered_len(v)
    })
}

/// The lowercased characters of an optional tag field, absent read as
/// empty.
fn lowered_or_empty(o: Option<&str>) -> (v: Vec<char>)
    ensures
        o matches Some(t) ==> v@ == lower_of(t@),
        o is None ==> v@ == lower_of(Seq::<char>::empty()),
{
    match o {
        Some(t) => {
            let low = lowercase(t);
            chars_of(low.as_str())
        },
        None => {
            let low = lowercase("");
            proof {
                reveal_strlit("");
                assert(""@ =~= Seq::<char>::empty());
            }
            chars_of(low.as_str())
        },
    }
}

/// Decides `song_matches` against an already lowercased needle.
fn song_matches_exec(s: &SongInfo, needle_low: &Vec<char>) -> (r: bool)
    ensures
        r == song_matches(s@, needle_low@),
{
    let tl = lowered_or_empty(s.title());
    if chars_contain(&tl, needle_low) {
        return true;
    }
    let al = lowered_or_empty(s.artist());
    if chars_contain(&al, needle_low) {
        return true;
    }
    let bl = lowered_or_empty(s.album());
    chars_contain(&bl, needle_low)
}

impl PlayerApp {
    /// The session invariant, on the player's value.
    pub open spec fn wf(&self) -> bool {
        session_wf(self@)
    }

    /// A fresh session over an already scanned library: nothing active,
    /// nothing selected beyond the first row, no filter, file list shown,
    /// sequential playback, engine mirror in its fresh state.
    pub fn new(library: Library) -> (p: Self)
        ensures
            p.wf(),
            p@ == (PlayerView {
                files: views_of(library.files@),
                root_dir: library.root_dir@,
                am: AudioManager {
                    paused: true,
                    volume: MAX_VOLUME,
                    playback_progress_ms: 0,
                    active_source_duration_ms: None::<u64>,
                },
                alive: true,
                active_song: None::<SongView>,
                playing_file_ix: 0usize,
                selected_file_ix: 0usize,
                search_query: None::<Seq<char>>,
                ui_mode: AppUiMode::FileList,
                playback_mode: PlaybackMode::Sequential,
                shuffle_seed: 1u64,
            }),
    {
        let p = PlayerApp {
            library,
            am: AudioManager::new(),
            alive: true,
            app_state: AppState {
                active_song: None,
                playing_file_ix: 0,
                selected_file_ix: 0,
                search_query: None,
                ui_mode: AppUiMode::FileList,
            },
            playback_mode: PlaybackMode::Sequential,
            shuffle_seed: 1,
        };
        proof {
            assert(p@ =~= (PlayerView {
                files: views_of(p.library.files@),
                root_dir: p.library.root_dir@,
                am: p.am,
                alive: true,
                active_song: None::<SongView>,
                playing_file_ix: 0usize,
                selected_file_ix: 0usize,
                search_query: None::<Seq<char>>,
                ui_mode: AppUiMode::FileList,
                playback_mode: PlaybackMode::Sequential,
                shuffle_seed: 1u64,
            }));
        }
        p
    }

    pub fn library(&self) -> (l: &Library)
        ensures
            l == &self.library,
    {
        &self.library
    }

    pub fn audio_manager(&self) -> (am: &AudioManager)
        ensures
            am == &self.am,
    {
        &self.am
    }

    pub fn ui_mode(&self) -> (m: &AppUiMode)
        ensures
            *m == self@.ui_mode,
    {
        &self.app_state.ui_mode
    }

    pub fn search_query(&self) -> (q: Option<&str>)
        ensures
            q matches Some(t) ==> self@.search_query == Some(t@),
            q is None <==> self@.search_query is None,
    {
        match &self.app_state.search_query {
            Some(s) => Some(s.as_str()),
            None => None,
        }
    }

    pub fn selected_file_ix(&self) -> (i: usize)
        ensures
            i == self@.selected_file_ix,
    {
        self.app_state.selected_file_ix
    }

    pub fn active_song(&self) -> (s: Option<&SongInfo>)
        ensures
            s matches Some(t) ==> self@.active_song == Some(t@),
            s is None <==> self@.active_song is None,
    {
        match &self.app_state.active_song {
            Some(s) => Some(s),
            None => None,
        }
    }

    pub fn is_alive(&self) -> (r: bool)
        ensures
            r == self@.alive,
    {
        self.alive
    }

    pub fn is_playing(&self) -> (r: bool)
        ensures
            r == !self@.am.paused,
    {
        !self.am.is_paused()
    }

    pub fn volume(&self) -> (v: u32)
        ensures
            v == self@.am.volume,
    {
        self.am.get_volume()
    }

    pub fn playback_mode(&self) -> (m: PlaybackMode)
        ensures
            m == self@.playback_mode,
    {
        self.playback_mode
    }

    /// The library indices of the displayed (filtered) list, in order.
    pub fn filtered_indices(&self) -> (r: Vec<usize>)
        ensures
            r@.map_values(|i: usize| i as int) == filtered_ixs(self@.files, self@.search_query),
            forall|k: int| 0 <= k < r@.len() ==> #[trigger] r@[k] < self@.files.len(),
    {
        let ghost q = self@.search_query;
        let needle_low: Option<Vec<char>> = match &self.app_state.search_query {
            Some(s) => {
                let low = lowercase(s.as_str());
                Some(chars_of(low.as_str()))
            },
            None => None,
        };
        let files = &self.library.files;
        let mut r: Vec<usize> = Vec::new();
        let mut i: usize = 0;
        proof {
            assert(views_of(files@).take(0) =~= Seq::<SongView>::empty());
            assert(r@.map_values(|x: usize| x as int) =~= Seq::<int>::empty());
        }

        while i < files.len()
            invariant
                i <= files@.len(),
                q == self@.search_query,
                files == &self.library.files,
                needle_low matches Some(nl) ==> q matches Some(t) && nl@ == lower_of(t),
                needle_low is None <==> q is None,
                r@.map_values(|x: usize| x as int) == filtered_ixs(views_of(files@).take(i as int), q),
                forall|k: int| 0 <= k < r@.len() ==> #[trigger] r@[k] < files@.len(),
            decreases files@.len() - i,
        {
            let m = match &needle_low {
                None => true,
                Some(nl) => song_matches_exec(&files[i], nl),
            };
            proof {
                assert(m == matches_query(views_of(files@)[i as int], q));
                let pre = views_of(files@).take(i as int);
                let cur = views_of(files@).take(i + 1);
                assert(cur.drop_last() =~= pre);
                assert(cur.last() == views_of(files@)[i as int]);
            }
            if m {
                let ghost prev = r@;
                r.push(i);
                proof {
                    assert(r@.map_values(|x: usize| x as int) =~= prev.map_values(
                        |x: usize| x as int,
                    ).push(i as int));
                }
            }
            i += 1;
        }
        proof {
            assert(views_of(files@).take(files@.len() as int) =~= views_of(files@));
        }
        r
    }

    /// The tracks of the displayed (filtered) list, in order: copies for
    /// the renderer.
    pub fn filtered_tracks(&self) -> (r: Vec<SongInfo>)
        ensures
            r@.len() == filtered_ixs(self@.files, self@.search_query).len(),
            forall|k: int|
                0 <= k < r@.len() ==> #[trigger] r@[k]@ == self@.files[filtered_ixs(
                    self@.files,
                    self@.search_query,
                )[k]],
    {
        let fx = self.filtered_indices();
        let mut r: Vec<SongInfo> = Vec::new();
        let mut k: usize = 0;
        while k < fx.len()
            invariant
                k <= fx@.len(),
                fx@.map_values(|i: usize| i as int) == filtered_ixs(self@.files, self@.search_query),
                forall|j: int| 0 <= j < fx@.len() ==> #[trigger] fx@[j] < self@.files.len(),
                r@.len() == k,
                forall|j: int|
                    0 <= j < k ==> #[trigger] r@[j]@ == self@.files[filtered_ixs(
                        self@.files,
                        self@.search_query,
                    )[j]],
            decreases fx@.len() - k,
        {
            let ix = fx[k];
            r.push(self.library.files[ix].duplicate());
            k += 1;
        }
        r
    }

    /// One row down in the displayed list, clamped at its end; nothing
    /// else moves.  On an empty list the selection stays at 0.
    pub fn select_next(&mut self)
        requires
            old(self).wf(),
        ensures
            final(self).wf(),
            final(self)@ == spec_select_next(old(self)@),
            filtered_len(old(self)@) == 0 ==> final(self)@.selected_file_ix == 0,
            filtered_len(old(self)@) > 0 ==> final(self)@.selected_file_ix < filtered_len(
                old(self)@,
            ),
    {
        let fx = self.filtered_indices();
        let n = fx.len();
        proof {
            assert(n == filtered_len(self@));
        }
        if n > 0 && self.app_state.selected_file_ix + 1 < n {
            self.app_state.selected_file_ix = self.app_state.selected_file_ix + 1;
        }
        proof {
            assert(self@ =~= (PlayerView {
                selected_file_ix: self@.selected_file_ix,
                ..old(self)@
            }));
        }
    }

    /// One row up in the displayed list, clamped at 0; nothing else moves.
    pub fn select_previous(&mut self)
        requires
            old(self).wf(),
        ensures
            final(self).wf(),
            final(self)@ == spec_select_previous(old(self)@),
    {
        if self.app_state.selected_file_ix > 0 {
            self.app_state.selected_file_ix = self.app_state.selected_file_ix - 1;
        }
        proof {
            assert(self@ =~= (PlayerView {
                selected_file_ix: self@.selected_file_ix,
                ..old(self)@
            }));
        }
    }
}

/// Multiplier of the linear congruential generator shuffle draws from.
pub const LCG_MUL: u64 = 1103515245;

/// Increment of the generator.
pub const LCG_ADD: u64 = 12345;

/// Modulus of the generator.
pub const LCG_MOD: u64 = 0x8000_0000;

/// The generator's next state.
pub open spec fn lcg_next(seed: u64) -> u64 {
    ((seed % LCG_MOD * LCG_MUL + LCG_ADD) % (LCG_MOD as int)) as u64
}

fn lcg_step(seed: u64) -> (r: u64)
    ensures
        r == lcg_next(seed),
{
    (seed % LCG_MOD * LCG_MUL + LCG_ADD) % LCG_MOD
}

/// Which track shuffle mode jumps to: a pseudo-random library index other
/// than the current one.  Meaningful when the library has at least two
/// tracks and `current` is a library index.
pub open spec fn shuffle_pick(seed: u64, current: int, len: int) -> int {
    let r = lcg_next(seed) as int % (len - 1);
    if r >= current {
        r + 1
    } else {
        r
    }
}

/// The shuffle draw stays inside the library and away from the current
/// track.
pub proof fn lemma_shuffle_pick_in_range(seed: u64, current: int, len: int)
    requires
        len > 1,
        0 <= current < len,
    ensures
        0 <= shuffle_pick(seed, current, len) < len,
        shuffle_pick(seed, current, len) != current,
{
    let x = lcg_next(seed) as int;
    let m = len - 1;
    assert(0 <= x % m < m) by (nonlinear_arith)
        requires
            m > 0,
            x >= 0,
    ;
}

fn pick_shuffle(seed: u64, current: usize, len: usize) -> (j: usize)
    requires
        len > 1,
        current < len,
    ensures
        j as int == shuffle_pick(seed, current as int, len as int),
        j < len,
        j != current,
{
    proof {
        lemma_shuffle_pick_in_range(seed, current as int, len as int);
    }
    let m = (len - 1) as u64;
    let r = (lcg_step(seed) % m) as usize;
    proof {
        assert(0 <= lcg_next(seed) as int % (len - 1)) by (nonlinear_arith)
            requires
                len > 1,
                lcg_next(seed) >= 0,
        ;
        assert(r == lcg_next(seed) as int % (len - 1));
    }
    if r >= current {
        r + 1
    } else {
        r
    }
}

/// What an update asks its caller to do: decode this library track and hand
/// it to the engine.  The state machine has already committed the change.
#[derive(Debug, Clone, PartialEq, Eq)]
pub struct TrackChange {
    /// Index of the new track in the unfiltered library.
    pub library_ix: usize,
    /// Its file path, for the decoder.
    pub path: String,
}

/// The clock after one tick: advanced while playing, frozen while paused.
pub open spec fn advance_clock(am: AudioManager, dt: u64) -> AudioManager {
    if am.paused {
        am
    } else {
        AudioManager { playback_progress_ms: (am.playback_progress_ms + dt) as u64, ..am }
    }
}

/// Whether a playing track has reached its end: a track is active, the
/// engine is not paused, and the clock stands at or past the track's
/// duration.  The comparison is `>=`, never `>`, so a tick that overshoots
/// the duration by any margin still ends the track.
pub open spec fn end_of_track_reached(v: PlayerView) -> bool {
    &&& v.active_song is Some
    &&& !v.am.paused
    &&& v.am.playback_progress_ms >= v.active_song->0.duration_ms
}

/// The session after library track `j` is loaded and played: clock at
/// zero, engine duration not yet known, snapshot replaced, playing.
pub open spec fn loaded_track(v: PlayerView, j: int) -> PlayerView {
    PlayerView {
        am: AudioManager {
            paused: false,
            playback_progress_ms: 0,
            active_source_duration_ms: None,
            volume: v.am.volume,
        },
        active_song: Some(v.files[j]),
        playing_file_ix: j as usize,
        ..v
    }
}

/// One tick of the session: the clock advances while playing, and a track
/// that has reached its end hands over — to the next library track in
/// sequential mode, to a pseudo-random other track in shuffle mode — or
/// pauses at the end of the line.  The second component is the library
/// index the caller must now decode and load, if any.
pub open spec fn spec_update(v: PlayerView, dt: u64) -> (PlayerView, Option<int>) {
    let v1 = PlayerView { am: advance_clock(v.am, dt), ..v };
    if end_of_track_reached(v1) {
        match v.playback_mode {
            PlaybackMode::Sequential => {
                if v1.playing_file_ix + 1 < v1.files.len() {
                    (loaded_track(v1, v1.playing_file_ix + 1), Some(v1.playing_file_ix + 1))
                } else {
                    (PlayerView { am: AudioManager { paused: true, ..v1.am }, ..v1 }, None)
                }
            },
            PlaybackMode::Shuffle => {
                if v1.files.len() > 1 {
                    let j = shuffle_pick(v1.shuffle_seed, v1.playing_file_ix as int, v1.files.len() as int);
                    (
                        PlayerView { shuffle_seed: lcg_next(v1.shuffle_seed), ..loaded_track(v1, j) },
                        Some(j),
                    )
                } else {
                    (PlayerView { am: AudioManager { paused: true, ..v1.am }, ..v1 }, None)
                }
            },
        }
    } else {
        (v1, None)
    }
}

/// Playback flipped between paused and playing, exactly when a track is
/// active; with none, nothing happens.
pub open spec fn spec_toggle_playback(v: PlayerView) -> PlayerView {
    if v.active_song is Some {
        PlayerView { am: AudioManager { paused: !v.am.paused, ..v.am }, ..v }
    } else {
        v
    }
}

/// The clock jumped to the active track's total duration.
pub open spec fn spec_skip_to_end(v: PlayerView) -> PlayerView {
    PlayerView {
        am: AudioManager {
            playback_progress_ms: v.active_song->0.duration_ms,
            ..v.am
        },
        ..v
    }
}

/// The session after the caller confirmed that library track `j` loaded,
/// with the duration the engine reported: snapshot, playing index and
/// clock replaced, playback running.
pub open spec fn spec_activate(v: PlayerView, j: int, engine_duration_ms: Option<u64>) -> PlayerView {
    PlayerView {
        am: AudioManager {
            paused: false,
            playback_progress_ms: 0,
            active_source_duration_ms: engine_duration_ms,
            volume: v.am.volume,
        },
        active_song: Some(v.files[j]),
        playing_file_ix: j as usize,
        ..v
    }
}

impl PlayerApp {
    /// Commits an automatic track change and reports what to load.
    fn load_internal(&mut self, j: usize) -> (tc: TrackChange)
        requires
            j < old(self)@.files.len(),
        ensures
            final(self)@ == loaded_track(old(self)@, j as int),
            tc.library_ix == j,
            tc.path@ == old(self)@.files[j as int].file_path,
    {
        self.am.set_active_source(None);
        self.am.play();
        let snap = self.library.files[j].duplicate();
        let path = self.library.files[j]._file_path().to_owned();
        self.app_state.active_song = Some(snap);
        self.app_state.playing_file_ix = j;
        proof {
            assert(self@ =~= loaded_track(old(self)@, j as int));
        }
        TrackChange { library_ix: j, path }
    }

    /// One tick: advances the playback clock by `dt` milliseconds (frozen
    /// while paused) and performs at most one end-of-track transition.
    /// When a new track was committed, the caller must decode the returned
    /// path, hand it to the engine, and keep it playing.
    pub fn update(&mut self, dt: u64) -> (req: Option<TrackChange>)
        requires
            old(self).wf(),
            old(self)@.am.paused || old(self)@.am.playback_progress_ms + dt <= u64::MAX,
        ensures
            final(self).wf(),
            final(self)@ == spec_update(old(self)@, dt).0,
            match (req, spec_update(old(self)@, dt).1) {
                (Some(tc), Some(j)) => tc.library_ix == j && 0 <= j < old(self)@.files.len()
                    && tc.path@ == old(self)@.files[j].file_path,
                (None, None) => true,
                _ => false,
            },
            // A paused session never moves: not the clock, not anything.
            old(self)@.am.paused ==> final(self)@ == old(self)@ && req is None,
    {
        let ghost pre = self@;
        self.am.update(dt);
        let ghost v1 = PlayerView { am: advance_clock(pre.am, dt), ..pre };
        proof {
            assert(self@ =~= v1);
        }
        let at_end = match &self.app_state.active_song {
            Some(s) => !self.am.is_paused() && self.am.playback_progress() >= s.duration(),
            None => false,
        };
        proof {
            assert(at_end == end_of_track_reached(v1));
        }
        if at_end {
            proof {
                assert(pre.active_song is Some);
                assert(self.app_state.playing_file_ix < self.library.files@.len());
            }
            let len = self.library.files.len();
            proof {
                assert(self.app_state.playing_file_ix < len);
            }
            match self.playback_mode {
                PlaybackMode::Sequential => {
                    if self.app_state.playing_file_ix + 1 < len {
                        let j = self.app_state.playing_file_ix + 1;
                        let tc = self.load_internal(j);
                        Some(tc)
                    } else {
                        self.am.pause();
                        proof {
                            assert(self@ =~= (PlayerView {
                                am: AudioManager { paused: true, ..v1.am },
                                ..v1
                            }));
                        }
                        None
                    }
                },
                PlaybackMode::Shuffle => {
                    let len = self.library.files.len();
                    if len > 1 {
                        let j = pick_shuffle(self.shuffle_seed, self.app_state.playing_file_ix, len);
                        let seed2 = lcg_step(self.shuffle_seed);
                        let tc = self.load_internal(j);
                        self.shuffle_seed = seed2;
                        proof {
                            assert(self@ =~= (PlayerView {
                                shuffle_seed: lcg_next(v1.shuffle_seed),
                                ..loaded_track(v1, j as int)
                            }));
                        }
                        Some(tc)
                    } else {
                        self.am.pause();
                        proof {
                            assert(self@ =~= (PlayerView {
                                am: AudioManager { paused: true, ..v1.am },
                                ..v1
                            }));
                        }
                        None
                    }
                },
            }
        } else {
            None
        }
    }

    /// Flips between paused and playing; with no active track, nothing
    /// happens.
    pub fn toggle_playback(&mut self)
        requires
            old(self).wf(),
        ensures
            final(self).wf(),
            final(self)@ == spec_toggle_playback(old(self)@),
    {
        if self.app_state.active_song.is_some() {
            self.am.toggle_playback();
        }
        proof {
            assert(self@ =~= spec_toggle_playback(old(self)@));
        }
    }

    /// Jumps the clock to the active track's total duration.  Calling this
    /// with no active track is a programming error, ruled out here.
    pub fn skip_to_end(&mut self)
        requires
            old(self).wf(),
            old(self)@.active_song is Some,
        ensures
            final(self).wf(),
            final(self)@ == spec_skip_to_end(old(self)@),
    {
        let d = match &self.app_state.active_song {
            Some(s) => s.duration(),
            None => 0,
        };
        self.am.skip(d);
        proof {
            assert(self@ =~= spec_skip_to_end(old(self)@));
        }
    }

    /// What activating the current selection would load: the selected
    /// displayed row's library index and file path.  None exactly when the
    /// displayed list is empty.  The state does not change until the caller
    /// reports a successful load through `activate`; a failed load thus
    /// leaves the prior playback state intact.
    pub fn activation_request(&self) -> (r: Option<TrackChange>)
        requires
            self.wf(),
        ensures
            r is None <==> filtered_len(self@) == 0,
            r matches Some(tc) ==> {
                &&& tc.library_ix as int == filtered_ixs(self@.files, self@.search_query)[self@.selected_file_ix as int]
                &&& tc.library_ix < self@.files.len()
                &&& tc.path@ == self@.files[tc.library_ix as int].file_path
            },
    {
        let fx = self.filtered_indices();
        if fx.len() == 0 {
            None
        } else {
            let ix = fx[self.app_state.selected_file_ix];
            let path = self.library.files[ix]._file_path().to_owned();
            Some(TrackChange { library_ix: ix, path })
        }
    }

    /// Confirms that library track `j` was decoded and handed to the
    /// engine, which reported `engine_duration_ms`: the snapshot, playing
    /// index and clock change over and playback runs.
    pub fn activate(&mut self, j: usize, engine_duration_ms: Option<u64>)
        requires
            old(self).wf(),
            j < old(self)@.files.len(),
        ensures
            final(self).wf(),
            final(self)@ == spec_activate(old(self)@, j as int, engine_duration_ms),
    {
        self.am.set_active_source(engine_duration_ms);
        self.am.play();
        let snap = self.library.files[j].duplicate();
        self.app_state.active_song = Some(snap);
        self.app_state.playing_file_ix = j;
        proof {
            assert(self@ =~= spec_activate(old(self)@, j as int, engine_duration_ms));
        }
    }
}

/// The search text with one character appended; typing into no filter
/// starts one.
pub open spec fn pushed_query(q: Option<Seq<char>>, c: char) -> Option<Seq<char>> {
    match q {
        None => Some(seq![c]),
        Some(t) => Some(t.push(c)),
    }
}

/// The search text with its last character erased; erasing the only
/// character removes the filter entirely, never leaving an empty text.
pub open spec fn popped_query(q: Option<Seq<char>>) -> Option<Seq<char>> {
    match q {
        None => None,
        Some(t) => if t.len() <= 1 {
            None
        } else {
            Some(t.drop_last())
        },
    }
}

/// The selection brought back inside the displayed list's bounds.
pub open spec fn reclamped(v: PlayerView) -> PlayerView {
    PlayerView { selected_file_ix: clamped_selection(v.selected_file_ix, filtered_len(v)), ..v }
}

/// One character typed into the search filter, with the selection
/// re-clamped against the newly filtered list.
pub open spec fn spec_search_push(v: PlayerView, c: char) -> PlayerView {
    reclamped(PlayerView { search_query: pushed_query(v.search_query, c), ..v })
}

/// One character erased from the search filter, with the selection
/// re-clamped against the newly filtered list.
pub open spec fn spec_search_pop(v: PlayerView) -> PlayerView {
    reclamped(PlayerView { search_query: popped_query(v.search_query), ..v })
}

impl PlayerApp {
    /// Brings the selection back inside the displayed list's bounds.
    fn reclamp_selection(&mut self)
        ensures
            final(self)@ == reclamped(old(self)@),
            final(self).library == old(self).library,
    {
        let fx = self.filtered_indices();
        let n = fx.len();
        proof {
            assert(n == filtered_len(self@));
        }
        if n == 0 {
            self.app_state.selected_file_ix = 0;
        } else if self.app_state.selected_file_ix >= n {
            self.app_state.selected_file_ix = n - 1;
        }
        proof {
            assert(self@ =~= reclamped(old(self)@));
        }
    }

    /// Opens the search popup; the filter text is kept as it was.
    pub fn open_search(&mut self)
        requires
            old(self).wf(),
        ensures
            final(self).wf(),
            final(self)@ == (PlayerView { ui_mode: AppUiMode::SearchPopup, ..old(self)@ }),
    {
        self.app_state.ui_mode = AppUiMode::SearchPopup;
        proof {
            assert(self@ =~= (PlayerView { ui_mode: AppUiMode::SearchPopup, ..old(self)@ }));
        }
    }

    /// Confirms the search and returns to the file list; the filter text
    /// is retained.
    pub fn close_search(&mut self)
        requires
            old(self).wf(),
        ensures
            final(self).wf(),
            final(self)@ == (PlayerView { ui_mode: AppUiMode::FileList, ..old(self)@ }),
    {
        self.app_state.ui_mode = AppUiMode::FileList;
        proof {
            assert(self@ =~= (PlayerView { ui_mode: AppUiMode::FileList, ..old(self)@ }));
        }
    }

    /// Appends one character to the search filter and re-clamps the
    /// selection against the shrunken (or grown) displayed list.
    pub fn search_push(&mut self, c: char)
        requires
            old(self).wf(),
        ensures
            final(self).wf(),
            final(self)@ == spec_search_push(old(self)@, c),
    {
        let new_q = match self.app_state.search_query.take() {
            None => {
                let mut s = String::new();
                push_char(&mut s, c);
                proof {
                    assert(s@ =~= seq![c]);
                }
                s
            },
            Some(mut s) => {
                push_char(&mut s, c);
                s
            },
        };
        self.app_state.search_query = Some(new_q);
        proof {
            assert(self@ =~= (PlayerView {
                search_query: pushed_query(old(self)@.search_query, c),
                ..old(self)@
            }));
        }
        self.reclamp_selection();
    }

    /// Erases the last character of the search filter — erasing the only
    /// one removes the filter — and re-clamps the selection.
    pub fn search_pop(&mut self)
        requires
            old(self).wf(),
        ensures
            final(self).wf(),
            final(self)@ == spec_search_pop(old(self)@),
    {
        match self.app_state.search_query.take() {
            None => {},
            Some(s) => {
                let mut cs = chars_of(s.as_str());
                if cs.len() > 1 {
                    let _erased = cs.pop();
                    proof {
                        assert(cs@ =~= s@.drop_last());
                    }
                    let shorter = string_of_chars(&cs);
                    self.app_state.search_query = Some(shorter);
                }
            },
        }
        proof {
            assert(self@ =~= (PlayerView {
                search_query: popped_query(old(self)@.search_query),
                ..old(self)@
            }));
        }
        self.reclamp_selection();
    }
}

/// One discrete key event, as the input collaborator reports it.
#[derive(PartialEq, Eq, Structural, Clone, Copy, Debug)]
pub enum InputEvent {
    Char(char),
    Up,
    Down,
    Left,
    Right,
    /// Right arrow with shift held: the skip-to-end chord.
    ShiftRight,
    Enter,
    Backspace,
    /// Any key the player does not react to.
    Other,
}

/// What the session should do in response to one event.
#[derive(PartialEq, Eq, Structural, Clone, Copy, Debug)]
pub enum Intent {
    Ignore,
    Quit,
    TogglePlayback,
    Rescan,
    SelectNext,
    SelectPrevious,
    SkipToEnd,
    SeekForward,
    SeekBackward,
    ActivateSelection,
    VolumeUp,
    VolumeDown,
    OpenSearch,
    ConfirmSearch,
    SearchInput(char),
    SearchBackspace,
}

/// The input mapping: which intent each event carries in each screen.
/// Search-text editing exists only in the search popup; navigation and
/// playback control only in the file list; everything else, and every
/// event in the inert info popup, is ignored.
pub open spec fn spec_dispatch(mode: AppUiMode, ev: InputEvent) -> Intent {
    match mode {
        AppUiMode::FileList => match ev {
            InputEvent::Char(c) => if c == 'q' {
                Intent::Quit
            } else if c == 'p' {
                Intent::TogglePlayback
            } else if c == 's' {
                Intent::Rescan
            } else if c == '=' {
                Intent::VolumeUp
            } else if c == '-' {
                Intent::VolumeDown
            } else if c == '/' {
                Intent::OpenSearch
            } else {
                Intent::Ignore
            },
            InputEvent::Down => Intent::SelectNext,
            InputEvent::Up => Intent::SelectPrevious,
            InputEvent::ShiftRight => Intent::SkipToEnd,
            InputEvent::Right => Intent::SeekForward,
            InputEvent::Left => Intent::SeekBackward,
            InputEvent::Enter => Intent::ActivateSelection,
            _ => Intent::Ignore,
        },
        AppUiMode::SearchPopup => match ev {
            InputEvent::Enter => Intent::ConfirmSearch,
            InputEvent::Backspace => Intent::SearchBackspace,
            InputEvent::Char(c) => Intent::SearchInput(c),
            _ => Intent::Ignore,
        },
        AppUiMode::InfoPopup => Intent::Ignore,
    }
}

/// Decides `spec_dispatch`: the pure mapping from screen and event to
/// intent.
pub fn dispatch(mode: AppUiMode, ev: InputEvent) -> (i: Intent)
    ensures
        i == spec_dispatch(mode, ev),
{
    match mode {
        AppUiMode::FileList => match ev {
            InputEvent::Char(c) => if c == 'q' {
                Intent::Quit
            } else if c == 'p' {
                Intent::TogglePlayback
            } else if c == 's' {
                Intent::Rescan
            } else if c == '=' {
                Intent::VolumeUp
            } else if c == '-' {
                Intent::VolumeDown
            } else if c == '/' {
                Intent::OpenSearch
            } else {
                Intent::Ignore
            },
            InputEvent::Down => Intent::SelectNext,
            InputEvent::Up => Intent::SelectPrevious,
            InputEvent::ShiftRight => Intent::SkipToEnd,
            InputEvent::Right => Intent::SeekForward,
            InputEvent::Left => Intent::SeekBackward,
            InputEvent::Enter => Intent::ActivateSelection,
            _ => Intent::Ignore,
        },
        AppUiMode::SearchPopup => match ev {
            InputEvent::Enter => Intent::ConfirmSearch,
            InputEvent::Backspace => Intent::SearchBackspace,
            InputEvent::Char(c) => Intent::SearchInput(c),
            _ => Intent::Ignore,
        },
        AppUiMode::InfoPopup => Intent::Ignore,
    }
}

/// What is left for the caller to perform outside the session after one
/// event: nothing, a rescan of the library root, a seek offered to the
/// engine, or a track to decode and load.
#[derive(Debug, Clone, PartialEq, Eq)]
pub enum Effect {
    /// Nothing to do outside.
    Nothing,
    /// Walk the library root again, then report back through
    /// `finish_rescan` or `rescan_failed`.
    Rescan,
    /// Offer this clock position to the engine; commit through
    /// `commit_seek` only if the engine accepts.
    TrySeek { target_ms: u64 },
    /// Decode this track; confirm through `activate` on success.
    Load(TrackChange),
}

impl PlayerApp {
    /// Commits a seek the engine accepted.
    pub fn commit_seek(&mut self, target_ms: u64)
        requires
            old(self).wf(),
        ensures
            final(self).wf(),
            final(self)@ == (PlayerView {
                am: AudioManager { playback_progress_ms: target_ms, ..old(self)@.am },
                ..old(self)@
            }),
    {
        self.am.commit_seek(target_ms);
        proof {
            assert(self@ =~= (PlayerView { am: self.am, ..old(self)@ }));
        }
    }

    /// Handles one key event: maps it to an intent for the current screen,
    /// applies every intent the session can complete by itself, and hands
    /// back what must be done outside (a rescan, a seek offer, a load).
    pub fn handle_event(&mut self, ev: InputEvent) -> (eff: Effect)
        requires
            old(self).wf(),
            old(self)@.am.playback_progress_ms + SEEK_FORWARD_MS <= u64::MAX,
        ensures
            final(self).wf(),
            ({
                let v = old(self)@;
                match spec_dispatch(v.ui_mode, ev) {
                    Intent::Ignore => final(self)@ == v && eff == Effect::Nothing,
                    Intent::Quit => final(self)@ == (PlayerView { alive: false, ..v }) && eff
                        == Effect::Nothing,
                    Intent::TogglePlayback => final(self)@ == spec_toggle_playback(v) && eff
                        == Effect::Nothing,
                    Intent::Rescan => final(self)@ == v && eff == Effect::Rescan,
                    Intent::SelectNext => final(self)@ == spec_select_next(v) && eff
                        == Effect::Nothing,
                    Intent::SelectPrevious => final(self)@ == spec_select_previous(v) && eff
                        == Effect::Nothing,
                    Intent::SkipToEnd => eff == Effect::Nothing && (if v.active_song is Some {
                        final(self)@ == spec_skip_to_end(v)
                    } else {
                        final(self)@ == v
                    }),
                    Intent::SeekForward => final(self)@ == v && (if v.active_song is Some {
                        eff == (Effect::TrySeek {
                            target_ms: (v.am.playback_progress_ms + SEEK_FORWARD_MS) as u64,
                        })
                    } else {
                        eff == Effect::Nothing
                    }),
                    Intent::SeekBackward => final(self)@ == v && (if v.active_song is Some {
                        eff == (Effect::TrySeek {
                            target_ms: seek_backward_target_of(v.am.playback_progress_ms),
                        })
                    } else {
                        eff == Effect::Nothing
                    }),
                    Intent::ActivateSelection => final(self)@ == v && (if filtered_len(v) == 0 {
                        eff == Effect::Nothing
                    } else {
                        eff matches Effect::Load(tc) && tc.library_ix as int == filtered_ixs(
                            v.files,
                            v.search_query,
                        )[v.selected_file_ix as int] && tc.library_ix < v.files.len() && tc.path@
                            == v.files[tc.library_ix as int].file_path
                    }),
                    Intent::VolumeUp => final(self)@ == (PlayerView {
                        am: AudioManager { volume: clamped_volume(v.am.volume, 1), ..v.am },
                        ..v
                    }) && eff == Effect::Nothing,
                    Intent::VolumeDown => final(self)@ == (PlayerView {
                        am: AudioManager { volume: clamped_volume(v.am.volume, -1i64), ..v.am },
                        ..v
                    }) && eff == Effect::Nothing,
                    Intent::OpenSearch => final(self)@ == (PlayerView {
                        ui_mode: AppUiMode::SearchPopup,
                        ..v
                    }) && eff == Effect::Nothing,
                    Intent::ConfirmSearch => final(self)@ == (PlayerView {
                        ui_mode: AppUiMode::FileList,
                        ..v
                    }) && eff == Effect::Nothing,
                    Intent::SearchInput(c) => final(self)@ == spec_search_push(v, c) && eff
                        == Effect::Nothing,
                    Intent::SearchBackspace => final(self)@ == spec_search_pop(v) && eff
                        == Effect::Nothing,
                }
            }),
    {
        let intent = dispatch(self.app_state.ui_mode, ev);
        match intent {
            Intent::Ignore => Effect::Nothing,
            Intent::Quit => {
                self.alive = false;
                proof {
                    assert(self@ =~= (PlayerView { alive: false, ..old(self)@ }));
                }
                Effect::Nothing
            },
            Intent::TogglePlayback => {
                self.toggle_playback();
                Effect::Nothing
            },
            Intent::Rescan => Effect::Rescan,
            Intent::SelectNext => {
                self.select_next();
                Effect::Nothing
            },
            Intent::SelectPrevious => {
                self.select_previous();
                Effect::Nothing
            },
            Intent::SkipToEnd => {
                if self.app_state.active_song.is_some() {
                    self.skip_to_end();
                }
                Effect::Nothing
            },
            Intent::SeekForward => {
                if self.app_state.active_song.is_some() {
                    let t = self.am.seek_forward();
                    Effect::TrySeek { target_ms: t }
                } else {
                    Effect::Nothing
                }
            },
            Intent::SeekBackward => {
                if self.app_state.active_song.is_some() {
                    let t = self.am.seek_backward();
                    Effect::TrySeek { target_ms: t }
                } else {
                    Effect::Nothing
                }
            },
            Intent::ActivateSelection => {
                match self.activation_request() {
                    None => Effect::Nothing,
                    Some(tc) => Effect::Load(tc),
                }
            },
            Intent::VolumeUp => {
                self.am.adjust_volume(1);
                proof {
                    assert(self@ =~= (PlayerView { am: self.am, ..old(self)@ }));
                }
                Effect::Nothing
            },
            Intent::VolumeDown => {
                self.am.adjust_volume(-1);
                proof {
                    assert(self@ =~= (PlayerView { am: self.am, ..old(self)@ }));
                }
                Effect::Nothing
            },
            Intent::OpenSearch => {
                self.open_search();
                Effect::Nothing
            },
            Intent::ConfirmSearch => {
                self.close_search();
                Effect::Nothing
            },
            Intent::SearchInput(c) => {
                self.search_push(c);
                Effect::Nothing
            },
            Intent::SearchBackspace => {
                self.search_pop();
                Effect::Nothing
            },
        }
    }

    /// Takes in a completed rescan: the library is replaced by the sorted
    /// results, the selection is re-clamped, and an active track whose
    /// playing index no longer names a library track is dropped with
    /// playback paused.  Returns the files-seen count and whether the
    /// active track was dropped (the caller then clears the engine).
    pub fn finish_rescan(&mut self, session: ScanSession) -> (r: (usize, bool))
        requires
            old(self).wf(),
        ensures
            final(self).wf(),
            r.0 == session.seen,
            songs_sorted(final(self)@.files),
            final(self).library.files@.to_multiset() == session.loaded@.to_multiset(),
            final(self)@.root_dir == old(self)@.root_dir,
            final(self)@.search_query == old(self)@.search_query,
            final(self)@.ui_mode == old(self)@.ui_mode,
            final(self)@.playback_mode == old(self)@.playback_mode,
            final(self)@.alive == old(self)@.alive,
            final(self)@.shuffle_seed == old(self)@.shuffle_seed,
            final(self)@.am.volume == old(self)@.am.volume,
            final(self)@.selected_file_ix == clamped_selection(
                old(self)@.selected_file_ix,
                filtered_len(final(self)@),
            ),
            r.1 == (old(self)@.active_song is Some && old(self)@.playing_file_ix
                >= final(self)@.files.len()),
            !r.1 ==> final(self)@.active_song == old(self)@.active_song
                && final(self)@.playing_file_ix == old(self)@.playing_file_ix
                && final(self)@.am == old(self)@.am,
            r.1 ==> final(self)@.active_song is None && final(self)@.playing_file_ix == 0
                && final(self)@.am == (AudioManager { paused: true, ..old(self)@.am }),
    {
        let seen = self.library.scan(session);
        let len = self.library.files.len();
        let dropped = self.app_state.active_song.is_some() && self.app_state.playing_file_ix >= len;
        if dropped {
            self.app_state.active_song = None;
            self.app_state.playing_file_ix = 0;
            self.am.pause();
        }
        let ghost mid = self@;
        self.reclamp_selection();
        proof {
            assert(final(self)@ =~= reclamped(mid));
        }
        (seen, dropped)
    }

    /// Notes that a rescan failed fatally: the library is left cleared,
    /// nothing is active, playback is paused, and the selection rests at
    /// the top.  The caller reports the error and clears the engine.
    pub fn rescan_failed(&mut self)
        requires
            old(self).wf(),
        ensures
            final(self).wf(),
            final(self)@.files.len() == 0,
            final(self)@.root_dir == old(self)@.root_dir,
            final(self)@.search_query == old(self)@.search_query,
            final(self)@.ui_mode == old(self)@.ui_mode,
            final(self)@.playback_mode == old(self)@.playback_mode,
            final(self)@.alive == old(self)@.alive,
            final(self)@.active_song is None,
            final(self)@.playing_file_ix == 0,
            final(self)@.selected_file_ix == 0,
            final(self)@.am == (AudioManager { paused: true, ..old(self)@.am }),
    {
        self.library.clear();
        self.app_state.active_song = None;
        self.app_state.playing_file_ix = 0;
        self.am.pause();
        self.app_state.selected_file_ix = 0;
        proof {
            assert(views_of(self.library.files@) =~= Seq::<SongView>::empty());
        }
    }

    /// Flips between sequential and shuffle playback.
    pub fn toggle_playback_mode(&mut self)
        requires
            old(self).wf(),
        ensures
            final(self).wf(),
            final(self)@ == (PlayerView {
                playback_mode: if old(self)@.playback_mode == PlaybackMode::Sequential {
                    PlaybackMode::Shuffle
                } else {
                    PlaybackMode::Sequential
                },
                ..old(self)@
            }),
    {
        self.playback_mode = match self.playback_mode {
            PlaybackMode::Sequential => PlaybackMode::Shuffle,
            PlaybackMode::Shuffle => PlaybackMode::Sequential,
        };
        proof {
            assert(self@ =~= (PlayerView { playback_mode: self.playback_mode, ..old(self)@ }));
        }
    }
}

/// An update of a paused session changes nothing: not the elapsed time,
/// not anything else, for any time delta.
pub proof fn lemma_advance_paused_freezes(v: PlayerView, dt: u64)
    requires
        v.am.paused,
    ensures
        spec_update(v, dt).0 == v,
        spec_update(v, dt).1 is None,
{
    assert((PlayerView { am: v.am, ..v }) =~= v);
}

/// Reaching the end of a track fires exactly one transition: once a new
/// track is committed its clock is back at zero, so a following update
/// whose delta stays under the new track's duration commits no further
/// change, however far the first delta overshot.
pub proof fn lemma_end_of_track_fires_once(v: PlayerView, dt1: u64, dt2: u64)
    requires
        session_wf(v),
        spec_update(v, dt1).1 is Some,
        dt2 < spec_update(v, dt1).0.active_song->0.duration_ms,
    ensures
        spec_update(v, dt1).0.active_song is Some,
        spec_update(v, dt1).0.am.playback_progress_ms == 0,
        spec_update(spec_update(v, dt1).0, dt2).1 is None,
{
    let v1 = PlayerView { am: advance_clock(v.am, dt1), ..v };
    let v2 = spec_update(v, dt1).0;
    assert(end_of_track_reached(v1));
    let v3 = PlayerView { am: advance_clock(v2.am, dt2), ..v2 };
    assert(v3.am.playback_progress_ms == dt2);
    assert(!end_of_track_reached(v3));
}

/// End of track on the last library track, sequential mode: playback
/// pauses, the clock stays at or past the duration, and the playing index
/// stays where it was — inside the library.
pub proof fn lemma_last_track_end_pauses(v: PlayerView, dt: u64)
    requires
        session_wf(v),
        v.playback_mode == PlaybackMode::Sequential,
        v.active_song is Some,
        !v.am.paused,
        v.am.playback_progress_ms + dt <= u64::MAX,
        v.am.playback_progress_ms + dt >= v.active_song->0.duration_ms,
        v.playing_file_ix + 1 == v.files.len(),
    ensures
        spec_update(v, dt).0.am.paused,
        spec_update(v, dt).0.am.playback_progress_ms >= v.active_song->0.duration_ms,
        spec_update(v, dt).0.playing_file_ix == v.playing_file_ix,
        spec_update(v, dt).0.playing_file_ix < spec_update(v, dt).0.files.len(),
        spec_update(v, dt).1 is None,
{
}

/// The selection never leaves the displayed list: under the session
/// invariant it sits in [0, len-1] on a non-empty list and at 0 on an
/// empty one, and moving it either way keeps the invariant.
pub proof fn lemma_selection_stays_in_bounds(v: PlayerView)
    requires
        session_wf(v),
    ensures
        filtered_len(v) > 0 ==> v.selected_file_ix < filtered_len(v),
        filtered_len(v) == 0 ==> v.selected_file_ix == 0,
        session_wf(spec_select_next(v)),
        session_wf(spec_select_previous(v)),
{
    assert(spec_select_next(v).files =~= v.files);
}

} // verus!
