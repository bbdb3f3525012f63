//! The transition engine: from the previous cursor and a fresh playback
//! snapshot to the decision whether a notification is due, and of which kind.

use vstd::prelude::*;

verus! {

/// Identifier that the daemon gives to a queued song.
#[derive(Clone, Copy, Debug, PartialEq, Eq, Structural)]
pub struct SongId(pub u32);

/// Playback state as the daemon reports it.
#[derive(Clone, Copy, Debug, PartialEq, Eq, Structural)]
pub enum PlayState {
    Stopped,
    Playing,
    Paused,
}

/// One polled snapshot of the player. `elapsed_nanos` is the position in the
/// current song, in nanoseconds.
#[derive(Clone, Copy, Debug, PartialEq, Eq, Structural)]
pub struct PlaybackStatus {
    pub state: PlayState,
    pub current_song_id: Option<SongId>,
    pub elapsed_nanos: Option<u128>,
}

/// What a notification announces.
#[derive(Clone, Copy, Debug, PartialEq, Eq, Structural)]
pub enum NotificationKind {
    Stopped,
    NowPlaying,
    PlayingAgain,
}

/// Outcome of one tick of the engine.
#[derive(Clone, Copy, Debug, PartialEq, Eq, Structural)]
pub enum Decision {
    /// Nothing is shown this tick and the cursor stays as it is.
    Suppressed,
    /// A notification of the given kind is due; the second field is the song
    /// to record in the cursor, absent for `Stopped`.
    Emit(NotificationKind, Option<SongId>),
}

/// The in-memory record of the last accepted song and of the notification
/// that is currently on screen.
#[derive(Clone, Copy, Debug, PartialEq, Eq, Structural)]
pub struct Cursor {
    pub last_song_id: Option<SongId>,
    pub last_notification_handle: Option<u32>,
}

impl PlaybackStatus {
    /// A playing daemon always reports an elapsed time.
    pub open spec fn well_formed(self) -> bool {
        self.state == PlayState::Playing ==> self.elapsed_nanos.is_some()
    }

    /// Executable form of [`PlaybackStatus::well_formed`].
    pub fn is_well_formed(&self) -> (ok: bool)
        ensures
            ok == self.well_formed(),
    {
        match self.state {
            PlayState::Playing => self.elapsed_nanos.is_some(),
            _ => true,
        }
    }
}

/// The decision that the rules prescribe for `status` after `previous`.
pub open spec fn decide_spec(previous: Cursor, status: PlaybackStatus) -> Decision {
    match status.state {
        PlayState::Stopped => Decision::Emit(NotificationKind::Stopped, None),
        PlayState::Paused => Decision::Suppressed,
        PlayState::Playing => {
            if status.current_song_id != previous.last_song_id {
                Decision::Emit(NotificationKind::NowPlaying, status.current_song_id)
            } else if status.elapsed_nanos == Some(0u128) {
                Decision::Emit(NotificationKind::PlayingAgain, status.current_song_id)
            } else {
                Decision::Suppressed
            }
        },
    }
}

/// The cursor after `decision` has been accepted: a song is recorded for
/// `NowPlaying` and `PlayingAgain` only, and the handle is never touched.
pub open spec fn advance_spec(previous: Cursor, decision: Decision) -> Cursor {
    match decision {
        Decision::Emit(NotificationKind::NowPlaying, song) => Cursor {
            last_song_id: song,
            last_notification_handle: previous.last_notification_handle,
        },
        Decision::Emit(NotificationKind::PlayingAgain, song) => Cursor {
            last_song_id: song,
            last_notification_handle: previous.last_notification_handle,
        },
        _ => previous,
    }
}

/// The cursor after the display transport has answered: a handle on success,
/// no handle after a failure, so that the next notification is created afresh.
pub open spec fn displayed_spec(previous: Cursor, outcome: Option<u32>) -> Cursor {
    Cursor { last_song_id: previous.last_song_id, last_notification_handle: outcome }
}

/// The cursor after the connection to the daemon was made anew: the song is
/// kept, so that the next tick is compared with what played before the loss,
/// and the handle is dropped.
pub open spec fn reconnected_spec(previous: Cursor) -> Cursor {
    Cursor { last_song_id: previous.last_song_id, last_notification_handle: None }
}

/// Tells whether two optional song identifiers are the same, both absent
/// included.
pub fn same_song(a: Option<SongId>, b: Option<SongId>) -> (same: bool)
    ensures
        same == (a == b),
{
    match (a, b) {
        (None, None) => true,
        (Some(x), Some(y)) => x.0 == y.0,
        _ => false,
    }
}

/// Decides what one tick announces.
///
/// A stopped player is always announced. A paused player never is. A playing
/// one is announced as `NowPlaying` when the song differs from the one in the
/// cursor, as `PlayingAgain` when it is the same song at position zero, and
/// not at all otherwise.
pub fn decide(previous: &Cursor, status: &PlaybackStatus) -> (decision: Decision)
    requires
        status.well_formed(),
    ensures
        decision == decide_spec(*previous, *status),
{
    match status.state {
        PlayState::Stopped => Decision::Emit(NotificationKind::Stopped, None),
        PlayState::Paused => Decision::Suppressed,
        PlayState::Playing => {
            if !same_song(status.current_song_id, previous.last_song_id) {
                Decision::Emit(NotificationKind::NowPlaying, status.current_song_id)
            } else {
                match status.elapsed_nanos {
                    Some(elapsed) => {
                        if elapsed == 0 {
                            Decision::Emit(NotificationKind::PlayingAgain, status.current_song_id)
                        } else {
                            Decision::Suppressed
                        }
                    },
                    None => Decision::Suppressed,
                }
            }
        },
    }
}

impl Cursor {
    /// The cursor at process start: no song seen, nothing on screen.
    pub fn new() -> (cursor: Cursor)
        ensures
            cursor == (Cursor { last_song_id: None, last_notification_handle: None }),
    {
        Cursor { last_song_id: None, last_notification_handle: None }
    }

    /// Records an accepted decision.
    pub fn advance(&mut self, decision: Decision)
        ensures
            *final(self) == advance_spec(*old(self), decision),
    {
        match decision {
            Decision::Emit(NotificationKind::NowPlaying, song) => {
                self.last_song_id = song;
            },
            Decision::Emit(NotificationKind::PlayingAgain, song) => {
                self.last_song_id = song;
            },
            _ => {},
        }
    }

    /// Records the answer of the display transport: `Some` handle when the
    /// notification was shown, `None` when it was rejected.
    pub fn record_display(&mut self, outcome: Option<u32>)
        ensures
            *final(self) == displayed_spec(*old(self), outcome),
    {
        self.last_notification_handle = outcome;
    }

    /// Records that the connection to the daemon was made anew.
    pub fn record_reconnect(&mut self)
        ensures
            *final(self) == reconnected_spec(*old(self)),
    {
        self.last_notification_handle = None;
    }
}

/// Runs one tick: decides, records the decision in the cursor and returns it.
pub fn tick(cursor: &mut Cursor, status: &PlaybackStatus) -> (decision: Decision)
    requires
        status.well_formed(),
    ensures
        decision == decide_spec(*old(cursor), *status),
        *final(cursor) == advance_spec(*old(cursor), decision),
{
    let decision = decide(cursor, status);
    cursor.advance(decision);
    decision
}

/// The cursor after a whole sequence of ticks, applied in order.
pub open spec fn run_ticks(start: Cursor, ticks: Seq<PlaybackStatus>) -> Cursor
    decreases ticks.len(),
{
    if ticks.len() == 0 {
        start
    } else {
        let before = run_ticks(start, ticks.drop_last());
        advance_spec(before, decide_spec(before, ticks.last()))
    }
}

/// The song of the most recent tick that was announced as new or as played
/// again, and the song of `start` where no tick was.
pub open spec fn last_accepted(start: Cursor, ticks: Seq<PlaybackStatus>) -> Option<SongId>
    decreases ticks.len(),
{
    if ticks.len() == 0 {
        start.last_song_id
    } else {
        match decide_spec(run_ticks(start, ticks.drop_last()), ticks.last()) {
            Decision::Emit(NotificationKind::NowPlaying, song) => song,
            Decision::Emit(NotificationKind::PlayingAgain, song) => song,
            _ => last_accepted(start, ticks.drop_last()),
        }
    }
}

/// After any sequence of ticks the cursor holds the song of the most recent
/// accepted announcement of a song, which need not be the song that the
/// daemon plays, and the notification handle that it started with: ticks
/// alone never touch the handle.
pub proof fn cursor_tracks_last_accepted(start: Cursor, ticks: Seq<PlaybackStatus>)
    ensures
        run_ticks(start, ticks).last_song_id == last_accepted(start, ticks),
        run_ticks(start, ticks).last_notification_handle == start.last_notification_handle,
    decreases ticks.len(),
{
    if ticks.len() > 0 {
        cursor_tracks_last_accepted(start, ticks.drop_last());
    }
}

/// A paused snapshot is a no-op: it is never announced and it leaves the
/// cursor as it found it, wherever in a sequence of ticks it arrives and
/// however often it is repeated.
pub proof fn paused_is_noop(start: Cursor, ticks: Seq<PlaybackStatus>, status: PlaybackStatus)
    requires
        status.state == PlayState::Paused,
    ensures
        decide_spec(run_ticks(start, ticks), status) == Decision::Suppressed,
        run_ticks(start, ticks.push(status)) == run_ticks(start, ticks),
        run_ticks(start, ticks.push(status).push(status)) == run_ticks(start, ticks),
{
    assert(ticks.push(status).drop_last() =~= ticks);
    assert(ticks.push(status).push(status).drop_last() =~= ticks.push(status));
}

/// Playing the song of the cursor at a position past zero is a resume: it is
/// suppressed and the cursor does not change.
pub proof fn resume_is_suppressed(previous: Cursor, status: PlaybackStatus)
    requires
        status.state == PlayState::Playing,
        status.current_song_id == previous.last_song_id,
        status.elapsed_nanos.is_some(),
        status.elapsed_nanos.unwrap() > 0,
    ensures
        decide_spec(previous, status) == Decision::Suppressed,
        advance_spec(previous, decide_spec(previous, status)) == previous,
{
}

/// Playing the song of the cursor at position zero is a replay.
pub proof fn restart_is_playing_again(previous: Cursor, status: PlaybackStatus)
    requires
        status.state == PlayState::Playing,
        status.current_song_id == previous.last_song_id,
        status.elapsed_nanos == Some(0u128),
    ensures
        decide_spec(previous, status) == Decision::Emit(
            NotificationKind::PlayingAgain,
            status.current_song_id,
        ),
        advance_spec(previous, decide_spec(previous, status)) == previous,
{
}

/// Playing a song other than the one in the cursor is announced as new, and
/// the cursor then holds that song; the notification handle is kept.
pub proof fn change_is_now_playing(previous: Cursor, status: PlaybackStatus)
    requires
        status.state == PlayState::Playing,
        status.current_song_id != previous.last_song_id,
    ensures
        decide_spec(previous, status) == Decision::Emit(
            NotificationKind::NowPlaying,
            status.current_song_id,
        ),
        advance_spec(previous, decide_spec(previous, status)).last_song_id
            == status.current_song_id,
        advance_spec(previous, decide_spec(previous, status)).last_notification_handle
            == previous.last_notification_handle,
{
}

/// A stopped player is announced and the recorded song survives the stop.
pub proof fn stop_keeps_song(previous: Cursor, status: PlaybackStatus)
    requires
        status.state == PlayState::Stopped,
    ensures
        decide_spec(previous, status) == Decision::Emit(NotificationKind::Stopped, None),
        advance_spec(previous, decide_spec(previous, status)) == previous,
{
}

} // verus!
