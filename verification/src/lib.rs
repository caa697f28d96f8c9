//! Core of a terminal music player.
//!
//! The crate owns the logic of the player: the track metadata model, the
//! scanned and sorted library, the search filter, and the playback/session
//! state machine that ties user selection to the audio engine.  Directory
//! listing, tag reading, audio output and terminal drawing are outside
//! collaborators; the functions here decide what those collaborators are
//! asked to do, and every decision is verified.

pub mod library;
pub mod player;
pub mod text;
pub mod track;
