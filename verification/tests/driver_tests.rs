use mpdnd::driver::{Action, Driver, Event, HaltReason, Notice, Phase};
use mpdnd::engine::{Cursor, NotificationKind, PlayState, PlaybackStatus, SongId};
use mpdnd::supervisor::{IoKind, PlayerError};

fn playing(song: u32, elapsed_nanos: u128) -> Event {
    Event::Status(PlaybackStatus {
        state: PlayState::Playing,
        current_song_id: Some(SongId(song)),
        elapsed_nanos: Some(elapsed_nanos),
    })
}

fn connected() -> Driver {
    let (mut d, first) = Driver::start();
    assert_eq!(first, Action::Connect { backoff_secs: 0 });
    assert_eq!(d.step(5, Event::Connected), Action::Wait);
    d
}

#[test]
fn start_asks_for_a_connection() {
    let (d, a) = Driver::start();
    assert_eq!(d.cursor, Cursor { last_song_id: None, last_notification_handle: None });
    assert_eq!(d.phase, Phase::Connecting { tries: 0, resuming: false });
    assert_eq!(a, Action::Connect { backoff_secs: 0 });
}

#[test]
fn first_connection_is_not_announced() {
    let d = connected();
    assert_eq!(d.phase, Phase::Waiting);
}

#[test]
fn a_new_song_goes_through_all_phases() {
    let mut d = connected();
    assert_eq!(d.step(5, Event::Changed), Action::PollStatus);
    assert_eq!(d.phase, Phase::Polling);
    assert_eq!(d.step(5, playing(7, 0)), Action::FetchSong);
    assert_eq!(d.phase, Phase::Formatting(NotificationKind::NowPlaying, Some(SongId(7))));
    assert_eq!(d.cursor.last_song_id, None);
    assert_eq!(
        d.step(5, Event::SongReady),
        Action::Show { notice: Notice::Playback(NotificationKind::NowPlaying), replaces: None }
    );
    assert_eq!(d.cursor.last_song_id, Some(SongId(7)));
    assert_eq!(d.step(5, Event::Displayed(Some(11))), Action::Wait);
    assert_eq!(d.phase, Phase::Waiting);
    assert_eq!(d.cursor.last_notification_handle, Some(11));

    assert_eq!(d.step(5, Event::Changed), Action::PollStatus);
    assert_eq!(d.step(5, playing(7, 0)), Action::FetchSong);
    assert_eq!(d.phase, Phase::Formatting(NotificationKind::PlayingAgain, Some(SongId(7))));
    assert_eq!(
        d.step(5, Event::SongReady),
        Action::Show {
            notice: Notice::Playback(NotificationKind::PlayingAgain),
            replaces: Some(11)
        }
    );
}

#[test]
fn pause_and_resume_go_straight_back_to_waiting() {
    let mut d = connected();
    d.cursor.last_song_id = Some(SongId(7));
    d.step(5, Event::Changed);
    let paused = PlaybackStatus {
        state: PlayState::Paused,
        current_song_id: Some(SongId(9)),
        elapsed_nanos: Some(4),
    };
    assert_eq!(d.step(5, Event::Status(paused)), Action::Wait);
    assert_eq!(d.cursor.last_song_id, Some(SongId(7)));
    d.step(5, Event::Changed);
    assert_eq!(d.step(5, playing(7, 4)), Action::Wait);
    assert_eq!(d.phase, Phase::Waiting);
}

#[test]
fn stop_is_shown_without_fetching_a_song() {
    let mut d = connected();
    d.cursor.last_notification_handle = Some(2);
    d.step(5, Event::Changed);
    let stopped =
        PlaybackStatus { state: PlayState::Stopped, current_song_id: None, elapsed_nanos: None };
    assert_eq!(
        d.step(5, Event::Status(stopped)),
        Action::Show { notice: Notice::Playback(NotificationKind::Stopped), replaces: Some(2) }
    );
    assert_eq!(d.phase, Phase::Showing(Notice::Playback(NotificationKind::Stopped)));
}

#[test]
fn display_failure_clears_the_handle() {
    let mut d = connected();
    d.cursor.last_notification_handle = Some(2);
    d.step(5, Event::Changed);
    d.step(5, playing(1, 0));
    d.step(5, Event::SongReady);
    assert_eq!(d.step(5, Event::Displayed(None)), Action::Wait);
    assert_eq!(d.cursor.last_notification_handle, None);
    assert_eq!(d.cursor.last_song_id, Some(SongId(1)));
}

#[test]
fn lost_connection_is_announced_once_each_way() {
    let mut d = connected();
    d.cursor = Cursor { last_song_id: Some(SongId(5)), last_notification_handle: Some(3) };
    let mut actions = vec![];
    actions.push(d.step(4, Event::Failed(PlayerError::Io(IoKind::BrokenPipe))));
    actions.push(d.step(4, Event::Displayed(Some(8))));
    actions.push(d.step(4, Event::ConnectFailed));
    actions.push(d.step(4, Event::ConnectFailed));
    actions.push(d.step(4, Event::ConnectFailed));
    actions.push(d.step(4, Event::Connected));
    assert_eq!(d.cursor.last_notification_handle, None);
    actions.push(d.step(4, Event::Displayed(Some(8))));
    assert_eq!(
        actions,
        vec![
            Action::Show { notice: Notice::Disconnected, replaces: Some(3) },
            Action::Connect { backoff_secs: 0 },
            Action::Connect { backoff_secs: 5 },
            Action::Connect { backoff_secs: 5 },
            Action::Connect { backoff_secs: 5 },
            Action::Show { notice: Notice::Reconnected, replaces: None },
            Action::Wait,
        ]
    );
    assert_eq!(d.phase, Phase::Waiting);
    assert_eq!(d.cursor, Cursor { last_song_id: Some(SongId(5)), last_notification_handle: Some(8) });
}

#[test]
fn reset_while_polling_reconnects_too() {
    let mut d = connected();
    d.step(5, Event::Changed);
    assert_eq!(
        d.step(5, Event::Failed(PlayerError::Io(IoKind::ConnectionReset))),
        Action::Show { notice: Notice::Disconnected, replaces: None }
    );
    assert_eq!(d.step(5, Event::Displayed(None)), Action::Connect { backoff_secs: 0 });
    assert_eq!(d.phase, Phase::Connecting { tries: 0, resuming: true });
}

#[test]
fn same_song_after_reconnect_is_not_announced_again() {
    let mut d = connected();
    d.cursor.last_song_id = Some(SongId(5));
    d.step(5, Event::Failed(PlayerError::Io(IoKind::BrokenPipe)));
    d.step(5, Event::Displayed(Some(1)));
    d.step(5, Event::Connected);
    d.step(5, Event::Displayed(Some(1)));
    d.step(5, Event::Changed);
    assert_eq!(d.step(5, playing(5, 90)), Action::Wait);
}

#[test]
fn unknown_io_failure_halts() {
    let mut d = connected();
    assert_eq!(
        d.step(5, Event::Failed(PlayerError::Io(IoKind::Other))),
        Action::Halt(HaltReason::FatalIo)
    );
    assert_eq!(d.phase, Phase::Halted);
    assert_eq!(d.step(5, Event::Changed), Action::Halt(HaltReason::UnexpectedEvent));
}

#[test]
fn protocol_failure_drops_the_tick() {
    let mut d = connected();
    d.cursor = Cursor { last_song_id: Some(SongId(1)), last_notification_handle: Some(4) };
    let before = d.cursor;
    d.step(5, Event::Changed);
    assert_eq!(d.step(5, Event::Failed(PlayerError::Other)), Action::Wait);
    assert_eq!(d.phase, Phase::Waiting);
    assert_eq!(d.cursor, before);
}

#[test]
fn failed_song_fetch_leaves_the_cursor_and_the_song_is_announced_later() {
    let mut d = connected();
    d.cursor = Cursor { last_song_id: Some(SongId(1)), last_notification_handle: Some(4) };
    let before = d.cursor;
    d.step(5, Event::Changed);
    assert_eq!(d.step(5, playing(3, 0)), Action::FetchSong);
    assert_eq!(d.cursor, before);
    assert_eq!(d.step(5, Event::Failed(PlayerError::Other)), Action::Wait);
    assert_eq!(d.phase, Phase::Waiting);
    assert_eq!(d.cursor, before);

    assert_eq!(d.step(5, Event::Changed), Action::PollStatus);
    assert_eq!(d.step(5, playing(3, 40)), Action::FetchSong);
    assert_eq!(d.phase, Phase::Formatting(NotificationKind::NowPlaying, Some(SongId(3))));
    assert_eq!(
        d.step(5, Event::SongReady),
        Action::Show {
            notice: Notice::Playback(NotificationKind::NowPlaying),
            replaces: Some(4)
        }
    );
    assert_eq!(d.cursor.last_song_id, Some(SongId(3)));
}

#[test]
fn lost_connection_during_the_fetch_leaves_the_cursor() {
    let mut d = connected();
    d.cursor = Cursor { last_song_id: Some(SongId(1)), last_notification_handle: None };
    d.step(5, Event::Changed);
    d.step(5, playing(3, 0));
    assert_eq!(
        d.step(5, Event::Failed(PlayerError::Io(IoKind::BrokenPipe))),
        Action::Show { notice: Notice::Disconnected, replaces: None }
    );
    assert_eq!(d.cursor.last_song_id, Some(SongId(1)));
}

#[test]
fn exhausted_retries_halt() {
    let (mut d, _) = Driver::start();
    assert_eq!(d.step(3, Event::ConnectFailed), Action::Connect { backoff_secs: 5 });
    assert_eq!(d.step(3, Event::ConnectFailed), Action::Connect { backoff_secs: 5 });
    assert_eq!(d.step(3, Event::ConnectFailed), Action::Halt(HaltReason::RetriesExhausted));
    assert_eq!(d.phase, Phase::Halted);
}

#[test]
fn unlimited_retries_go_on() {
    let (mut d, _) = Driver::start();
    for _ in 0..100_001 {
        assert_eq!(d.step(0, Event::ConnectFailed), Action::Connect { backoff_secs: 5 });
    }
    assert_eq!(d.phase, Phase::Connecting { tries: 0, resuming: false });
    assert_eq!(d.step(0, Event::Connected), Action::Wait);
}

#[test]
fn playing_without_elapsed_halts() {
    let mut d = connected();
    d.step(5, Event::Changed);
    let broken = PlaybackStatus {
        state: PlayState::Playing,
        current_song_id: Some(SongId(1)),
        elapsed_nanos: None,
    };
    assert_eq!(d.step(5, Event::Status(broken)), Action::Halt(HaltReason::MissingElapsed));
}

#[test]
fn event_out_of_turn_halts() {
    let mut d = connected();
    assert_eq!(d.step(5, Event::SongReady), Action::Halt(HaltReason::UnexpectedEvent));
    let mut d = connected();
    assert_eq!(d.step(5, Event::Connected), Action::Halt(HaltReason::UnexpectedEvent));
    let (mut d, _) = Driver::start();
    assert_eq!(
        d.step(5, Event::Failed(PlayerError::Other)),
        Action::Halt(HaltReason::UnexpectedEvent)
    );
}
