use mpdnd::engine::{
    decide, same_song, tick, Cursor, Decision, NotificationKind, PlayState, PlaybackStatus, SongId,
};

fn status(state: PlayState, song: Option<u32>, elapsed_nanos: Option<u128>) -> PlaybackStatus {
    PlaybackStatus { state, current_song_id: song.map(SongId), elapsed_nanos }
}

fn cursor(song: Option<u32>, handle: Option<u32>) -> Cursor {
    Cursor { last_song_id: song.map(SongId), last_notification_handle: handle }
}

#[test]
fn new_cursor_is_empty() {
    assert_eq!(Cursor::new(), cursor(None, None));
}

#[test]
fn same_song_at_zero_is_playing_again() {
    let mut c = cursor(Some(5), Some(9));
    let d = tick(&mut c, &status(PlayState::Playing, Some(5), Some(0)));
    assert_eq!(d, Decision::Emit(NotificationKind::PlayingAgain, Some(SongId(5))));
    assert_eq!(c, cursor(Some(5), Some(9)));
}

#[test]
fn other_song_is_now_playing_and_is_recorded() {
    let mut c = cursor(Some(5), None);
    let d = tick(&mut c, &status(PlayState::Playing, Some(7), Some(30_000_000_000)));
    assert_eq!(d, Decision::Emit(NotificationKind::NowPlaying, Some(SongId(7))));
    assert_eq!(c.last_song_id, Some(SongId(7)));
}

#[test]
fn stop_is_announced_and_keeps_the_song() {
    let mut c = cursor(Some(7), Some(3));
    let d = tick(&mut c, &status(PlayState::Stopped, None, None));
    assert_eq!(d, Decision::Emit(NotificationKind::Stopped, None));
    assert_eq!(c, cursor(Some(7), Some(3)));
}

#[test]
fn pause_is_suppressed_even_for_another_song() {
    let mut c = cursor(Some(5), Some(1));
    for _ in 0..3 {
        let d = tick(&mut c, &status(PlayState::Paused, Some(8), Some(1)));
        assert_eq!(d, Decision::Suppressed);
        assert_eq!(c, cursor(Some(5), Some(1)));
    }
    let d = tick(&mut c, &status(PlayState::Paused, None, None));
    assert_eq!(d, Decision::Suppressed);
    assert_eq!(c, cursor(Some(5), Some(1)));
}

#[test]
fn resume_of_same_song_is_suppressed() {
    let mut c = cursor(Some(5), None);
    let d = tick(&mut c, &status(PlayState::Playing, Some(5), Some(1)));
    assert_eq!(d, Decision::Suppressed);
    assert_eq!(c, cursor(Some(5), None));
}

#[test]
fn playing_without_song_on_empty_cursor_counts_as_same() {
    let c = cursor(None, None);
    assert_eq!(
        decide(&c, &status(PlayState::Playing, None, Some(0))),
        Decision::Emit(NotificationKind::PlayingAgain, None)
    );
    assert_eq!(decide(&c, &status(PlayState::Playing, None, Some(12))), Decision::Suppressed);
}

#[test]
fn first_song_on_empty_cursor_is_now_playing() {
    let mut c = Cursor::new();
    let d = tick(&mut c, &status(PlayState::Playing, Some(1), Some(0)));
    assert_eq!(d, Decision::Emit(NotificationKind::NowPlaying, Some(SongId(1))));
    assert_eq!(c.last_song_id, Some(SongId(1)));
}

#[test]
fn resume_after_stop_on_same_song_is_not_new() {
    let mut c = cursor(Some(4), None);
    tick(&mut c, &status(PlayState::Stopped, None, None));
    let d = tick(&mut c, &status(PlayState::Playing, Some(4), Some(2_000_000_000)));
    assert_eq!(d, Decision::Suppressed);
}

#[test]
fn advance_ignores_stopped_and_suppressed() {
    let mut c = cursor(Some(2), Some(8));
    c.advance(Decision::Emit(NotificationKind::Stopped, None));
    assert_eq!(c, cursor(Some(2), Some(8)));
    c.advance(Decision::Suppressed);
    assert_eq!(c, cursor(Some(2), Some(8)));
    c.advance(Decision::Emit(NotificationKind::PlayingAgain, Some(SongId(3))));
    assert_eq!(c, cursor(Some(3), Some(8)));
}

#[test]
fn display_outcome_sets_and_clears_the_handle() {
    let mut c = cursor(Some(2), None);
    c.record_display(Some(41));
    assert_eq!(c, cursor(Some(2), Some(41)));
    c.record_display(None);
    assert_eq!(c, cursor(Some(2), None));
}

#[test]
fn reconnect_drops_the_handle_and_keeps_the_song() {
    let mut c = cursor(Some(2), Some(41));
    c.record_reconnect();
    assert_eq!(c, cursor(Some(2), None));
}

#[test]
fn same_song_compares_presence_and_value() {
    assert!(same_song(None, None));
    assert!(same_song(Some(SongId(3)), Some(SongId(3))));
    assert!(!same_song(Some(SongId(3)), Some(SongId(4))));
    assert!(!same_song(Some(SongId(0)), None));
    assert!(!same_song(None, Some(SongId(0))));
}

#[test]
fn well_formed_needs_elapsed_only_when_playing() {
    assert!(status(PlayState::Stopped, None, None).is_well_formed());
    assert!(status(PlayState::Paused, Some(1), None).is_well_formed());
    assert!(status(PlayState::Playing, Some(1), Some(5)).is_well_formed());
    assert!(!status(PlayState::Playing, Some(1), None).is_well_formed());
}
