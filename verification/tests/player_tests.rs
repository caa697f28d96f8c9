use tunes::library::{Library, ScanSession};
use tunes::player::{
    dispatch, AppUiMode, AudioManager, Effect, InputEvent, Intent, PlaybackMode, PlayerApp,
};
use tunes::track::SongInfo;

fn song(title: &str, artist: &str, duration_ms: u64, path: &str) -> SongInfo {
    SongInfo::new(
        Some(String::from(title)),
        None,
        Some(String::from(artist)),
        None,
        None,
        None,
        (None, None),
        (None, None),
        duration_ms,
        String::from(path),
    )
}

fn player_with(tracks: Vec<SongInfo>) -> PlayerApp {
    let mut session = ScanSession::new(String::from("r"));
    let _ = session.next_dir();
    for t in tracks {
        session.on_track(t);
    }
    PlayerApp::new(Library::new("r").with_scan(session))
}

#[test]
fn test_audio_manager_toggle_playback() {
    let mut am = AudioManager::new();
    assert!(am.is_paused());
    am.toggle_playback();
    assert!(!am.is_paused());
    am.toggle_playback();
    assert!(am.is_paused());
    am.play();
    assert!(!am.is_paused());
    am.play();
    assert!(!am.is_paused());
    am.pause();
    assert!(am.is_paused());
    am.pause();
    assert!(am.is_paused());
}

#[test]
fn paused_advance_never_changes_elapsed() {
    let mut p = player_with(vec![song("a", "A", 5_000, "r/a.mp3")]);
    assert!(!p.is_playing());
    let req = p.update(123_456);
    assert!(req.is_none());
    assert_eq!(p.audio_manager().playback_progress(), 0);

    p.activate(0, None);
    let req = p.update(1_000);
    assert!(req.is_none());
    assert_eq!(p.audio_manager().playback_progress(), 1_000);
    p.toggle_playback();
    assert!(!p.is_playing());
    let req = p.update(999_999);
    assert!(req.is_none());
    assert_eq!(p.audio_manager().playback_progress(), 1_000);
}

#[test]
fn end_of_track_advances_exactly_once() {
    let mut p = player_with(vec![
        song("a", "A", 5_000, "r/a.mp3"),
        song("b", "B", 9_000, "r/b.mp3"),
    ]);
    p.activate(0, None);
    // One tick overshooting the 5 s duration by a wide margin.
    let req = p.update(7_000).expect("one transition expected");
    assert_eq!(req.library_ix, 1);
    assert_eq!(req.path, "r/b.mp3");
    assert_eq!(p.app_state.playing_file_ix, 1);
    assert_eq!(p.audio_manager().playback_progress(), 0);
    assert!(p.is_playing());
    // The next tick commits nothing further.
    assert!(p.update(100).is_none());
    assert_eq!(p.audio_manager().playback_progress(), 100);
    assert_eq!(p.app_state.playing_file_ix, 1);
}

#[test]
fn end_of_last_track_pauses_without_leaving_bounds() {
    let mut p = player_with(vec![song("only", "A", 5_000, "r/a.mp3")]);
    p.activate(0, None);
    assert!(p.is_playing());
    let req = p.update(10_000);
    assert!(req.is_none());
    assert!(!p.is_playing());
    assert!(p.audio_manager().playback_progress() >= 5_000);
    assert_eq!(p.app_state.playing_file_ix, 0);
    assert!(p.active_song().is_some());
}

#[test]
fn selection_clamps_at_both_ends() {
    let mut p = player_with(vec![
        song("a", "A", 1, "r/a.mp3"),
        song("b", "B", 1, "r/b.mp3"),
    ]);
    assert_eq!(p.selected_file_ix(), 0);
    p.select_previous();
    assert_eq!(p.selected_file_ix(), 0);
    p.select_next();
    assert_eq!(p.selected_file_ix(), 1);
    p.select_next();
    p.select_next();
    assert_eq!(p.selected_file_ix(), 1);
    p.select_previous();
    assert_eq!(p.selected_file_ix(), 0);
}

#[test]
fn selection_on_empty_list_stays_at_zero() {
    let mut p = player_with(vec![]);
    p.select_next();
    assert_eq!(p.selected_file_ix(), 0);
    p.select_previous();
    assert_eq!(p.selected_file_ix(), 0);
}

#[test]
fn volume_clamps_to_scale_regardless_of_delta() {
    let mut p = player_with(vec![]);
    assert_eq!(p.volume(), 100);
    p.am.adjust_volume(9_999_999);
    assert_eq!(p.volume(), 100);
    p.am.adjust_volume(-9_999_999);
    assert_eq!(p.volume(), 0);
    p.am.adjust_volume(i64::MIN);
    assert_eq!(p.volume(), 0);
    p.am.adjust_volume(7);
    assert_eq!(p.volume(), 7);
    p.am.adjust_volume(-3);
    assert_eq!(p.volume(), 4);
    assert_eq!(p.handle_event(InputEvent::Char('=')), Effect::Nothing);
    assert_eq!(p.volume(), 5);
    assert_eq!(p.handle_event(InputEvent::Char('-')), Effect::Nothing);
    assert_eq!(p.volume(), 4);
}

#[test]
fn search_filter_is_case_insensitive() {
    let mut p = player_with(vec![
        song("BoB rules", "Carol", 1, "r/a.mp3"),
        song("quiet", "Dan", 1, "r/b.mp3"),
    ]);
    assert_eq!(p.handle_event(InputEvent::Char('/')), Effect::Nothing);
    assert_eq!(*p.ui_mode(), AppUiMode::SearchPopup);
    for c in ['b', 'o', 'b'] {
        assert_eq!(p.handle_event(InputEvent::Char(c)), Effect::Nothing);
    }
    assert_eq!(p.handle_event(InputEvent::Enter), Effect::Nothing);
    assert_eq!(*p.ui_mode(), AppUiMode::FileList);
    assert_eq!(p.search_query(), Some("bob"));
    let shown = p.filtered_tracks();
    assert_eq!(shown.len(), 1);
    assert_eq!(shown[0].title(), Some("BoB rules"));
}

#[test]
fn search_matches_artist_and_album_too() {
    let mut p = player_with(vec![
        song("one", "Alice", 1, "r/a.mp3"),
        song("two", "Bob", 1, "r/b.mp3"),
    ]);
    p.open_search();
    for c in ['a', 'l', 'i'] {
        p.search_push(c);
    }
    p.close_search();
    let shown = p.filtered_tracks();
    assert_eq!(shown.len(), 1);
    assert_eq!(shown[0].artist(), Some("Alice"));
}

#[test]
fn erasing_last_search_character_removes_the_filter() {
    let mut p = player_with(vec![song("a", "A", 1, "r/a.mp3")]);
    p.open_search();
    p.search_push('z');
    assert_eq!(p.search_query(), Some("z"));
    assert_eq!(p.filtered_tracks().len(), 0);
    p.search_pop();
    assert_eq!(p.search_query(), None);
    assert_eq!(p.filtered_tracks().len(), 1);
    // Backspace with no filter set stays a no-op.
    p.search_pop();
    assert_eq!(p.search_query(), None);
}

#[test]
fn search_narrowing_reclamps_selection() {
    let mut p = player_with(vec![
        song("a", "A", 1, "r/a.mp3"),
        song("b", "B", 1, "r/b.mp3"),
        song("c", "C", 1, "r/c.mp3"),
    ]);
    p.select_next();
    p.select_next();
    assert_eq!(p.selected_file_ix(), 2);
    p.open_search();
    p.search_push('b');
    // Only one track matches; the selection is pulled back in bounds.
    assert_eq!(p.selected_file_ix(), 0);
    assert_eq!(p.filtered_tracks().len(), 1);
}

#[test]
fn activation_goes_through_the_filtered_list() {
    let mut p = player_with(vec![
        song("alpha", "A", 1_000, "r/alpha.mp3"),
        song("beta", "B", 2_000, "r/beta.mp3"),
    ]);
    p.open_search();
    p.search_push('b');
    p.search_push('e');
    p.close_search();
    // The displayed list holds only "beta", at library index 1.
    let req = p.activation_request().expect("one row displayed");
    assert_eq!(req.library_ix, 1);
    assert_eq!(req.path, "r/beta.mp3");
    p.activate(req.library_ix, Some(2_000));
    assert_eq!(p.active_song().unwrap().title(), Some("beta"));
    assert_eq!(p.app_state.playing_file_ix, 1);
    assert_eq!(p.audio_manager().playback_progress(), 0);
    assert_eq!(p.audio_manager()._active_source_duration(), Some(2_000));
    assert!(p.is_playing());
}

#[test]
fn activation_on_empty_displayed_list_is_refused() {
    let mut p = player_with(vec![song("a", "A", 1, "r/a.mp3")]);
    p.open_search();
    p.search_push('z');
    p.search_push('z');
    p.close_search();
    assert!(p.activation_request().is_none());
    assert_eq!(p.handle_event(InputEvent::Enter), Effect::Nothing);
}

#[test]
fn seek_targets_and_commit() {
    let mut p = player_with(vec![song("a", "A", 60_000, "r/a.mp3")]);
    p.activate(0, None);
    let _ = p.update(2_000);
    assert_eq!(p.audio_manager().playback_progress(), 2_000);
    // Forward: the target is offered; elapsed moves only on commit.
    match p.handle_event(InputEvent::Right) {
        Effect::TrySeek { target_ms } => {
            assert_eq!(target_ms, 7_000);
            assert_eq!(p.audio_manager().playback_progress(), 2_000);
            p.commit_seek(target_ms);
        }
        other => panic!("expected a seek offer, got {other:?}"),
    }
    assert_eq!(p.audio_manager().playback_progress(), 7_000);
    // Backward from 7 s lands at 6 s.
    match p.handle_event(InputEvent::Left) {
        Effect::TrySeek { target_ms } => assert_eq!(target_ms, 6_000),
        other => panic!("expected a seek offer, got {other:?}"),
    }
    // A refused seek is simply not committed: elapsed unchanged.
    assert_eq!(p.audio_manager().playback_progress(), 7_000);
}

#[test]
fn backward_seek_clamps_at_zero() {
    let mut am = AudioManager::new();
    am.commit_seek(500);
    assert_eq!(am.seek_backward(), 0);
    am.commit_seek(1_000);
    assert_eq!(am.seek_backward(), 0);
    am.commit_seek(1_500);
    assert_eq!(am.seek_backward(), 500);
}

#[test]
fn skip_to_end_uses_the_tracks_duration() {
    let mut p = player_with(vec![song("a", "A", 5_000, "r/a.mp3")]);
    p.activate(0, None);
    assert_eq!(p.handle_event(InputEvent::ShiftRight), Effect::Nothing);
    assert_eq!(p.audio_manager().playback_progress(), 5_000);
    // Without an active track the chord does nothing.
    let mut q = player_with(vec![song("a", "A", 5_000, "r/a.mp3")]);
    assert_eq!(q.handle_event(InputEvent::ShiftRight), Effect::Nothing);
    assert_eq!(q.audio_manager().playback_progress(), 0);
}

#[test]
fn toggle_playback_needs_an_active_track() {
    let mut p = player_with(vec![song("a", "A", 1, "r/a.mp3")]);
    assert_eq!(p.handle_event(InputEvent::Char('p')), Effect::Nothing);
    assert!(!p.is_playing());
    p.activate(0, None);
    assert!(p.is_playing());
    assert_eq!(p.handle_event(InputEvent::Char('p')), Effect::Nothing);
    assert!(!p.is_playing());
}

#[test]
fn quit_key_ends_the_session() {
    let mut p = player_with(vec![]);
    assert!(p.is_alive());
    assert_eq!(p.handle_event(InputEvent::Char('q')), Effect::Nothing);
    assert!(!p.is_alive());
}

#[test]
fn rescan_key_asks_for_a_walk() {
    let mut p = player_with(vec![]);
    assert_eq!(p.handle_event(InputEvent::Char('s')), Effect::Rescan);
}

#[test]
fn dispatch_maps_keys_by_screen() {
    assert_eq!(dispatch(AppUiMode::FileList, InputEvent::Char('q')), Intent::Quit);
    assert_eq!(dispatch(AppUiMode::FileList, InputEvent::Char('p')), Intent::TogglePlayback);
    assert_eq!(dispatch(AppUiMode::FileList, InputEvent::Char('s')), Intent::Rescan);
    assert_eq!(dispatch(AppUiMode::FileList, InputEvent::Down), Intent::SelectNext);
    assert_eq!(dispatch(AppUiMode::FileList, InputEvent::Up), Intent::SelectPrevious);
    assert_eq!(dispatch(AppUiMode::FileList, InputEvent::Right), Intent::SeekForward);
    assert_eq!(dispatch(AppUiMode::FileList, InputEvent::ShiftRight), Intent::SkipToEnd);
    assert_eq!(dispatch(AppUiMode::FileList, InputEvent::Left), Intent::SeekBackward);
    assert_eq!(dispatch(AppUiMode::FileList, InputEvent::Enter), Intent::ActivateSelection);
    assert_eq!(dispatch(AppUiMode::FileList, InputEvent::Char('=')), Intent::VolumeUp);
    assert_eq!(dispatch(AppUiMode::FileList, InputEvent::Char('-')), Intent::VolumeDown);
    assert_eq!(dispatch(AppUiMode::FileList, InputEvent::Char('/')), Intent::OpenSearch);
    assert_eq!(dispatch(AppUiMode::FileList, InputEvent::Char('x')), Intent::Ignore);
    assert_eq!(dispatch(AppUiMode::FileList, InputEvent::Backspace), Intent::Ignore);

    // Typing in the search popup is text input, not control.
    assert_eq!(dispatch(AppUiMode::SearchPopup, InputEvent::Char('q')), Intent::SearchInput('q'));
    assert_eq!(dispatch(AppUiMode::SearchPopup, InputEvent::Enter), Intent::ConfirmSearch);
    assert_eq!(dispatch(AppUiMode::SearchPopup, InputEvent::Backspace), Intent::SearchBackspace);
    assert_eq!(dispatch(AppUiMode::SearchPopup, InputEvent::Down), Intent::Ignore);

    // The info popup is inert.
    assert_eq!(dispatch(AppUiMode::InfoPopup, InputEvent::Char('q')), Intent::Ignore);
    assert_eq!(dispatch(AppUiMode::InfoPopup, InputEvent::Enter), Intent::Ignore);
}

#[test]
fn shuffle_picks_another_track() {
    let mut p = player_with(vec![
        song("a", "A", 1_000, "r/a.mp3"),
        song("b", "B", 1_000, "r/b.mp3"),
        song("c", "C", 1_000, "r/c.mp3"),
    ]);
    p.toggle_playback_mode();
    assert_eq!(p.playback_mode(), PlaybackMode::Shuffle);
    p.activate(1, None);
    let req = p.update(2_000).expect("shuffle hands over at end of track");
    assert_ne!(req.library_ix, 1);
    assert!(req.library_ix < 3);
    assert_eq!(p.app_state.playing_file_ix, req.library_ix);
    assert_eq!(p.audio_manager().playback_progress(), 0);
}

#[test]
fn shuffle_on_a_single_track_pauses_at_the_end() {
    let mut p = player_with(vec![song("a", "A", 1_000, "r/a.mp3")]);
    p.toggle_playback_mode();
    p.activate(0, None);
    assert!(p.update(5_000).is_none());
    assert!(!p.is_playing());
    assert_eq!(p.app_state.playing_file_ix, 0);
}

#[test]
fn rescan_that_shrinks_the_library_drops_the_active_track() {
    let mut p = player_with(vec![
        song("a", "A", 1_000, "r/a.mp3"),
        song("b", "B", 1_000, "r/b.mp3"),
    ]);
    p.activate(1, None);
    let mut session = ScanSession::new(String::from("r"));
    let _ = session.next_dir();
    session.on_track(song("solo", "S", 1_000, "r/solo.mp3"));
    let (seen, dropped) = p.finish_rescan(session);
    assert_eq!(seen, 0);
    assert!(dropped);
    assert!(p.active_song().is_none());
    assert!(!p.is_playing());
    assert_eq!(p.app_state.playing_file_ix, 0);
    assert_eq!(p.library().files().len(), 1);
}

#[test]
fn rescan_that_keeps_the_index_keeps_playing() {
    let mut p = player_with(vec![
        song("a", "A", 1_000, "r/a.mp3"),
        song("b", "B", 1_000, "r/b.mp3"),
    ]);
    p.activate(0, None);
    let mut session = ScanSession::new(String::from("r"));
    let _ = session.next_dir();
    session.on_track(song("x", "X", 1_000, "r/x.mp3"));
    session.on_track(song("y", "Y", 1_000, "r/y.mp3"));
    let (_, dropped) = p.finish_rescan(session);
    assert!(!dropped);
    assert!(p.active_song().is_some());
    assert!(p.is_playing());
}

#[test]
fn failed_rescan_clears_and_pauses() {
    let mut p = player_with(vec![song("a", "A", 1_000, "r/a.mp3")]);
    p.activate(0, None);
    p.rescan_failed();
    assert!(p.library().files().is_empty());
    assert!(p.active_song().is_none());
    assert!(!p.is_playing());
    assert_eq!(p.selected_file_ix(), 0);
}
