//! The driver as a state machine: each answer of the outside world is an
//! event, and each step names the next thing to do.
//!
//! The machine is idle exactly when a step has returned [`Action::Wait`]:
//! the only place where the process sleeps is the daemon's change wait.
//! Deciding takes no time of its own; it is part of the step that takes the
//! polled status. A song is recorded in the cursor when it has been
//! fetched, so a tick that fails before that leaves the cursor as it was.

use vstd::prelude::*;
use crate::engine::{
    advance_spec, decide, decide_spec, displayed_spec, reconnected_spec, Cursor, Decision,
    NotificationKind, PlaybackStatus, SongId,
};
use crate::supervisor::{
    after_failure, after_failure_spec, classify, classify_spec, Classification, PlayerError,
    RetryStep, BACKOFF_SECS,
};

verus! {

/// What a notification is about.
#[derive(Clone, Copy, Debug, PartialEq, Eq, Structural)]
pub enum Notice {
    Playback(NotificationKind),
    Disconnected,
    Reconnected,
}

/// What the driver is waiting for.
#[derive(Clone, Copy, Debug, PartialEq, Eq, Structural)]
pub enum Phase {
    /// A connection attempt is under way; `resuming` tells a reconnection
    /// after a loss from the first connection. `tries` counts the failed
    /// attempts where there is a limit.
    Connecting { tries: u32, resuming: bool },
    /// Blocked until the daemon reports a change.
    Waiting,
    /// The status was asked for.
    Polling,
    /// The current song is being fetched for a notification of this kind.
    /// The song to record travels with the phase: the cursor takes it only
    /// once the fetch has succeeded.
    Formatting(NotificationKind, Option<SongId>),
    /// A notification was handed to the display transport.
    Showing(Notice),
    /// The process must stop.
    Halted,
}

/// An answer of the outside world.
#[derive(Clone, Copy, Debug, PartialEq, Eq, Structural)]
pub enum Event {
    Connected,
    ConnectFailed,
    /// The change wait returned.
    Changed,
    /// The status poll returned.
    Status(PlaybackStatus),
    /// The current song was fetched.
    SongReady,
    /// A call to the daemon failed.
    Failed(PlayerError),
    /// The display transport answered: a handle, or nothing on failure.
    Displayed(Option<u32>),
}

/// Why the driver stopped.
#[derive(Clone, Copy, Debug, PartialEq, Eq, Structural)]
pub enum HaltReason {
    /// An I/O failure that is not survivable.
    FatalIo,
    /// The connection could not be made within the allowed attempts.
    RetriesExhausted,
    /// The daemon reported a playing song without an elapsed time.
    MissingElapsed,
    /// An event arrived that the current phase does not wait for.
    UnexpectedEvent,
}

/// What the embedding program has to do next.
#[derive(Clone, Copy, Debug, PartialEq, Eq, Structural)]
pub enum Action {
    /// Sleep for `backoff_secs`, then try to connect.
    Connect { backoff_secs: u64 },
    /// Block until the daemon reports a change of the player.
    Wait,
    PollStatus,
    FetchSong,
    /// Show the notice, in place of the notification `replaces` if there is
    /// one.
    Show { notice: Notice, replaces: Option<u32> },
    Halt(HaltReason),
}

/// The whole state of the driver.
#[derive(Clone, Copy, Debug, PartialEq, Eq, Structural)]
pub struct Driver {
    pub cursor: Cursor,
    pub phase: Phase,
}

/// The driver in `phase` with the cursor of `driver`.
pub open spec fn moved(driver: Driver, phase: Phase) -> Driver {
    Driver { cursor: driver.cursor, phase }
}

/// Showing `notice` in place of whatever the cursor has on screen.
pub open spec fn show(driver: Driver, notice: Notice) -> (Driver, Action) {
    (
        moved(driver, Phase::Showing(notice)),
        Action::Show { notice, replaces: driver.cursor.last_notification_handle },
    )
}

/// Stopping for `reason`.
pub open spec fn halt(driver: Driver, reason: HaltReason) -> (Driver, Action) {
    (moved(driver, Phase::Halted), Action::Halt(reason))
}

/// A failed call: announce the loss, stop, or drop the tick. The cursor is
/// left untouched, and since no step of a tick before the song is fetched
/// touches it either, a failed wait, status poll or fetch of the song
/// leaves the cursor as it was before the tick.
pub open spec fn on_failure(driver: Driver, error: PlayerError) -> (Driver, Action) {
    match classify_spec(error) {
        Classification::Transient(_) => show(driver, Notice::Disconnected),
        Classification::Fatal => halt(driver, HaltReason::FatalIo),
        Classification::Skip => (moved(driver, Phase::Waiting), Action::Wait),
    }
}

/// A polled status: decide, and go on to what the decision needs. The
/// cursor is not touched here: a stop records nothing, and a song is
/// recorded only when it has been fetched.
pub open spec fn on_status(driver: Driver, status: PlaybackStatus) -> (Driver, Action) {
    if !status.well_formed() {
        halt(driver, HaltReason::MissingElapsed)
    } else {
        match decide_spec(driver.cursor, status) {
            Decision::Suppressed => (moved(driver, Phase::Waiting), Action::Wait),
            Decision::Emit(NotificationKind::Stopped, _) => show(
                driver,
                Notice::Playback(NotificationKind::Stopped),
            ),
            Decision::Emit(kind, song) => (
                moved(driver, Phase::Formatting(kind, song)),
                Action::FetchSong,
            ),
        }
    }
}

/// The fetched song: the decision is accepted, the cursor records the song,
/// and the notification is shown.
pub open spec fn on_song(driver: Driver, kind: NotificationKind, song: Option<SongId>) -> (
    Driver,
    Action,
) {
    show(
        Driver {
            cursor: advance_spec(driver.cursor, Decision::Emit(kind, song)),
            phase: driver.phase,
        },
        Notice::Playback(kind),
    )
}

/// An answer to a connection attempt. The first connection goes straight to
/// waiting; a reconnection drops the handle of the cursor and is announced
/// by a notification of its own.
pub open spec fn on_connect(driver: Driver, max_tries: u32, tries: u32, resuming: bool, ok: bool) -> (
    Driver,
    Action,
) {
    if ok {
        if resuming {
            show(
                Driver { cursor: reconnected_spec(driver.cursor), phase: driver.phase },
                Notice::Reconnected,
            )
        } else {
            (moved(driver, Phase::Waiting), Action::Wait)
        }
    } else {
        match after_failure_spec(max_tries, tries) {
            RetryStep::Retry { tries: counted } => (
                moved(driver, Phase::Connecting { tries: counted, resuming }),
                Action::Connect { backoff_secs: BACKOFF_SECS },
            ),
            RetryStep::GiveUp => halt(driver, HaltReason::RetriesExhausted),
        }
    }
}

/// The answer of the display transport: the handle is recorded or cleared,
/// and a shown loss leads to reconnecting, anything else back to waiting.
pub open spec fn on_displayed(driver: Driver, notice: Notice, outcome: Option<u32>) -> (
    Driver,
    Action,
) {
    let recorded = Driver { cursor: displayed_spec(driver.cursor, outcome), phase: driver.phase };
    match notice {
        Notice::Disconnected => (
            moved(recorded, Phase::Connecting { tries: 0, resuming: true }),
            Action::Connect { backoff_secs: 0 },
        ),
        _ => (moved(recorded, Phase::Waiting), Action::Wait),
    }
}

/// One step of the machine: the state after `event` and the action that it
/// calls for. `max_tries` is the limit of connection attempts, zero for none.
pub open spec fn step_spec(max_tries: u32, driver: Driver, event: Event) -> (Driver, Action) {
    match (driver.phase, event) {
        (Phase::Connecting { tries, resuming }, Event::Connected) => on_connect(
            driver,
            max_tries,
            tries,
            resuming,
            true,
        ),
        (Phase::Connecting { tries, resuming }, Event::ConnectFailed) => on_connect(
            driver,
            max_tries,
            tries,
            resuming,
            false,
        ),
        (Phase::Waiting, Event::Changed) => (moved(driver, Phase::Polling), Action::PollStatus),
        (Phase::Waiting, Event::Failed(error)) => on_failure(driver, error),
        (Phase::Polling, Event::Failed(error)) => on_failure(driver, error),
        (Phase::Formatting(_, _), Event::Failed(error)) => on_failure(driver, error),
        (Phase::Polling, Event::Status(status)) => on_status(driver, status),
        (Phase::Formatting(kind, song), Event::SongReady) => on_song(driver, kind, song),
        (Phase::Showing(notice), Event::Displayed(outcome)) => on_displayed(
            driver,
            notice,
            outcome,
        ),
        _ => halt(driver, HaltReason::UnexpectedEvent),
    }
}

impl Driver {
    /// The driver at process start, about to make its first connection
    /// attempt, and the action that makes it.
    pub fn start() -> (begun: (Driver, Action))
        ensures
            begun.0 == (Driver {
                cursor: Cursor { last_song_id: None, last_notification_handle: None },
                phase: Phase::Connecting { tries: 0, resuming: false },
            }),
            begun.1 == (Action::Connect { backoff_secs: 0 }),
    {
        (
            Driver { cursor: Cursor::new(), phase: Phase::Connecting { tries: 0, resuming: false } },
            Action::Connect { backoff_secs: 0 },
        )
    }

    fn show(&mut self, notice: Notice) -> (action: Action)
        ensures
            (*final(self), action) == show(*old(self), notice),
    {
        self.phase = Phase::Showing(notice);
        Action::Show { notice, replaces: self.cursor.last_notification_handle }
    }

    fn halt(&mut self, reason: HaltReason) -> (action: Action)
        ensures
            (*final(self), action) == halt(*old(self), reason),
    {
        self.phase = Phase::Halted;
        Action::Halt(reason)
    }

    fn on_failure(&mut self, error: PlayerError) -> (action: Action)
        ensures
            (*final(self), action) == on_failure(*old(self), error),
    {
        match classify(error) {
            Classification::Transient(_) => self.show(Notice::Disconnected),
            Classification::Fatal => self.halt(HaltReason::FatalIo),
            Classification::Skip => {
                self.phase = Phase::Waiting;
                Action::Wait
            },
        }
    }

    fn on_status(&mut self, status: PlaybackStatus) -> (action: Action)
        ensures
            (*final(self), action) == on_status(*old(self), status),
    {
        if !status.is_well_formed() {
            return self.halt(HaltReason::MissingElapsed);
        }
        match decide(&self.cursor, &status) {
            Decision::Suppressed => {
                self.phase = Phase::Waiting;
                Action::Wait
            },
            Decision::Emit(NotificationKind::Stopped, _) => self.show(
                Notice::Playback(NotificationKind::Stopped),
            ),
            Decision::Emit(kind, song) => {
                self.phase = Phase::Formatting(kind, song);
                Action::FetchSong
            },
        }
    }

    fn on_song(&mut self, kind: NotificationKind, song: Option<SongId>) -> (action: Action)
        ensures
            (*final(self), action) == on_song(*old(self), kind, song),
    {
        self.cursor.advance(Decision::Emit(kind, song));
        self.show(Notice::Playback(kind))
    }

    fn on_connect(&mut self, max_tries: u32, tries: u32, resuming: bool, ok: bool) -> (action:
        Action)
        ensures
            (*final(self), action) == on_connect(*old(self), max_tries, tries, resuming, ok),
    {
        if ok {
            if resuming {
                self.cursor.record_reconnect();
                self.show(Notice::Reconnected)
            } else {
                self.phase = Phase::Waiting;
                Action::Wait
            }
        } else {
            match after_failure(max_tries, tries) {
                RetryStep::Retry { tries: counted } => {
                    self.phase = Phase::Connecting { tries: counted, resuming };
                    Action::Connect { backoff_secs: BACKOFF_SECS }
                },
                RetryStep::GiveUp => self.halt(HaltReason::RetriesExhausted),
            }
        }
    }

    fn on_displayed(&mut self, notice: Notice, outcome: Option<u32>) -> (action: Action)
        ensures
            (*final(self), action) == on_displayed(*old(self), notice, outcome),
    {
        self.cursor.record_display(outcome);
        match notice {
            Notice::Disconnected => {
                self.phase = Phase::Connecting { tries: 0, resuming: true };
                Action::Connect { backoff_secs: 0 }
            },
            _ => {
                self.phase = Phase::Waiting;
                Action::Wait
            },
        }
    }

    /// Takes one event and returns the next action.
    ///
    /// An event that the current phase does not wait for halts the driver;
    /// so does a playing status without an elapsed time.
    pub fn step(&mut self, max_tries: u32, event: Event) -> (action: Action)
        ensures
            (*final(self), action) == step_spec(max_tries, *old(self), event),
    {
        match (self.phase, event) {
            (Phase::Connecting { tries, resuming }, Event::Connected) => self.on_connect(
                max_tries,
                tries,
                resuming,
                true,
            ),
            (Phase::Connecting { tries, resuming }, Event::ConnectFailed) => self.on_connect(
                max_tries,
                tries,
                resuming,
                false,
            ),
            (Phase::Waiting, Event::Changed) => {
                self.phase = Phase::Polling;
                Action::PollStatus
            },
            (Phase::Waiting, Event::Failed(error)) => self.on_failure(error),
            (Phase::Polling, Event::Failed(error)) => self.on_failure(error),
            (Phase::Formatting(_, _), Event::Failed(error)) => self.on_failure(error),
            (Phase::Polling, Event::Status(status)) => self.on_status(status),
            (Phase::Formatting(kind, song), Event::SongReady) => self.on_song(kind, song),
            (Phase::Showing(notice), Event::Displayed(outcome)) => self.on_displayed(
                notice,
                outcome,
            ),
            _ => self.halt(HaltReason::UnexpectedEvent),
        }
    }
}

/// The driver and the actions, in order, after a sequence of events.
pub open spec fn run(max_tries: u32, driver: Driver, events: Seq<Event>) -> (Driver, Seq<Action>)
    decreases events.len(),
{
    if events.len() == 0 {
        (driver, Seq::empty())
    } else {
        let (next, action) = step_spec(max_tries, driver, events[0]);
        let (last, actions) = run(max_tries, next, events.skip(1));
        (last, seq![action] + actions)
    }
}

/// The events of one loss of connection: the failed call, the answer to the
/// first notice, `failures` failed attempts, the connection, and the answer
/// to the second notice.
pub open spec fn episode_events(
    error: PlayerError,
    first_shown: Option<u32>,
    failures: nat,
    second_shown: Option<u32>,
) -> Seq<Event> {
    seq![Event::Failed(error), Event::Displayed(first_shown)] + Seq::new(
        failures,
        |i: int| Event::ConnectFailed,
    ) + seq![Event::Connected, Event::Displayed(second_shown)]
}

/// The actions that one loss of connection calls for.
pub open spec fn episode_actions(on_screen: Option<u32>, failures: nat) -> Seq<Action> {
    seq![
        Action::Show { notice: Notice::Disconnected, replaces: on_screen },
        Action::Connect { backoff_secs: 0 },
    ] + Seq::new(failures, |i: int| Action::Connect { backoff_secs: BACKOFF_SECS }) + seq![
        Action::Show { notice: Notice::Reconnected, replaces: None },
        Action::Wait,
    ]
}

proof fn run_in_two(max_tries: u32, driver: Driver, front: Seq<Event>, back: Seq<Event>)
    ensures
        run(max_tries, driver, front + back) == ({
            let (mid, first) = run(max_tries, driver, front);
            let (last, second) = run(max_tries, mid, back);
            (last, first + second)
        }),
    decreases front.len(),
{
    let (mid, first) = run(max_tries, driver, front);
    let (last, second) = run(max_tries, mid, back);
    if front.len() == 0 {
        assert(front + back =~= back);
        assert(first + second =~= second);
    } else {
        let whole = front + back;
        let (next, action) = step_spec(max_tries, driver, front[0]);
        assert(whole[0] == front[0]);
        assert(whole.skip(1) =~= front.skip(1) + back);
        run_in_two(max_tries, next, front.skip(1), back);
        let (_m, rest) = run(max_tries, next, front.skip(1));
        assert(seq![action] + (rest + second) =~= (seq![action] + rest) + second);
    }
}

proof fn run_failures(max_tries: u32, cursor: Cursor, tries: u32, resuming: bool, failures: nat)
    requires
        max_tries == 0 || tries + failures < max_tries,
    ensures
        run(
            max_tries,
            Driver { cursor, phase: Phase::Connecting { tries, resuming } },
            Seq::new(failures, |i: int| Event::ConnectFailed),
        ) == (
            Driver {
                cursor,
                phase: Phase::Connecting {
                    tries: if max_tries == 0 {
                        tries
                    } else {
                        (tries + failures) as u32
                    },
                    resuming,
                },
            },
            Seq::new(failures, |i: int| Action::Connect { backoff_secs: BACKOFF_SECS }),
        ),
    decreases failures,
{
    let events = Seq::new(failures, |i: int| Event::ConnectFailed);
    let wanted = Seq::new(failures, |i: int| Action::Connect { backoff_secs: BACKOFF_SECS });
    if failures == 0 {
        assert(wanted =~= Seq::empty());
    } else {
        let fewer = (failures - 1) as nat;
        let counted: u32 = if max_tries == 0 {
            tries
        } else {
            (tries + 1) as u32
        };
        assert(events.skip(1) =~= Seq::new(fewer, |i: int| Event::ConnectFailed));
        run_failures(max_tries, cursor, counted, resuming, fewer);
        assert(seq![Action::Connect { backoff_secs: BACKOFF_SECS }] + Seq::new(
            fewer,
            |i: int| Action::Connect { backoff_secs: BACKOFF_SECS },
        ) =~= wanted);
    }
}

/// A survivable failure is answered by exactly one notice of the loss, in
/// place of what was on screen, and, once the connection is back, by exactly
/// one notice of the return, shown afresh, whatever the display transport
/// answers and however many attempts fail within the limit. The driver then
/// waits again, with the song of its cursor as it was before the loss.
pub proof fn reconnect_episode(
    max_tries: u32,
    start: Driver,
    error: PlayerError,
    first_shown: Option<u32>,
    failures: nat,
    second_shown: Option<u32>,
)
    requires
        start.phase == Phase::Waiting || start.phase == Phase::Polling
            || start.phase is Formatting,
        classify_spec(error) is Transient,
        max_tries == 0 || failures < max_tries,
    ensures
        run(max_tries, start, episode_events(error, first_shown, failures, second_shown)) == (
            Driver {
                cursor: Cursor {
                    last_song_id: start.cursor.last_song_id,
                    last_notification_handle: second_shown,
                },
                phase: Phase::Waiting,
            },
            episode_actions(start.cursor.last_notification_handle, failures),
        ),
{
    let front = seq![Event::Failed(error), Event::Displayed(first_shown)];
    let middle = Seq::new(failures, |i: int| Event::ConnectFailed);
    let back = seq![Event::Connected, Event::Displayed(second_shown)];
    let lost = Cursor { last_song_id: start.cursor.last_song_id, last_notification_handle: first_shown };
    let connecting = Driver { cursor: lost, phase: Phase::Connecting { tries: 0, resuming: true } };
    let counted: u32 = if max_tries == 0 {
        0
    } else {
        failures as u32
    };
    let connecting_still = Driver {
        cursor: lost,
        phase: Phase::Connecting { tries: counted, resuming: true },
    };

    reveal_with_fuel(run, 3);
    assert(front.skip(1).skip(1) =~= Seq::empty());
    assert(front.skip(1)[0] == Event::Displayed(first_shown));
    assert(run(max_tries, start, front).0 == connecting);
    assert(run(max_tries, start, front).1 =~= seq![
        Action::Show { notice: Notice::Disconnected, replaces: start.cursor.last_notification_handle },
        Action::Connect { backoff_secs: 0 },
    ]);
    run_failures(max_tries, lost, 0, true, failures);
    assert(back.skip(1).skip(1) =~= Seq::empty());
    assert(back.skip(1)[0] == Event::Displayed(second_shown));
    assert(run(max_tries, connecting_still, back).1 =~= seq![
        Action::Show { notice: Notice::Reconnected, replaces: None },
        Action::Wait,
    ]);
    run_in_two(max_tries, start, front, middle);
    run_in_two(max_tries, start, front + middle, back);
}

/// With a limit of attempts, as many failures in a row as the limit allows
/// halt the driver: it asks for a new attempt after each failure but the
/// last, and then stops for good.
pub proof fn exhausted_retries_halt(max_tries: u32, cursor: Cursor, resuming: bool)
    requires
        max_tries > 0,
    ensures
        run(
            max_tries,
            Driver { cursor, phase: Phase::Connecting { tries: 0, resuming } },
            Seq::new(max_tries as nat, |i: int| Event::ConnectFailed),
        ) == (
            Driver { cursor, phase: Phase::Halted },
            Seq::new((max_tries - 1) as nat, |i: int| Action::Connect { backoff_secs: BACKOFF_SECS })
                + seq![Action::Halt(HaltReason::RetriesExhausted)],
        ),
{
    let start = Driver { cursor, phase: Phase::Connecting { tries: 0, resuming } };
    let fewer = (max_tries - 1) as nat;
    let front = Seq::new(fewer, |i: int| Event::ConnectFailed);
    let back = seq![Event::ConnectFailed];
    let last = Driver { cursor, phase: Phase::Connecting { tries: fewer as u32, resuming } };
    run_failures(max_tries, cursor, 0, resuming, fewer);
    reveal_with_fuel(run, 2);
    assert(back.skip(1) =~= Seq::empty());
    assert(run(max_tries, last, back).1 =~= seq![Action::Halt(HaltReason::RetriesExhausted)]);
    run_in_two(max_tries, start, front, back);
    assert(front + back =~= Seq::new(max_tries as nat, |i: int| Event::ConnectFailed));
}

/// Without a limit the driver never gives up: after any number of failures
/// in a row it is still connecting, and each failure was answered by a new
/// attempt.
pub proof fn unlimited_retries_go_on(cursor: Cursor, resuming: bool, failures: nat)
    ensures
        run(
            0,
            Driver { cursor, phase: Phase::Connecting { tries: 0, resuming } },
            Seq::new(failures, |i: int| Event::ConnectFailed),
        ) == (
            Driver { cursor, phase: Phase::Connecting { tries: 0, resuming } },
            Seq::new(failures, |i: int| Action::Connect { backoff_secs: BACKOFF_SECS }),
        ),
{
    run_failures(0, cursor, 0, resuming, failures);
}

/// The events of one tick on which the fetch of the song fails.
pub open spec fn failed_fetch_events(status: PlaybackStatus, error: PlayerError) -> Seq<Event> {
    seq![Event::Changed, Event::Status(status), Event::Failed(error)]
}

/// A tick whose song cannot be fetched is discarded. Whatever the failure,
/// the cursor is the one from before the tick. Where the failure is neither
/// of the transport nor fatal, the whole driver is as it was before the
/// tick, nothing was shown, and the same status on the next tick is
/// announced as it would have been on this one.
pub proof fn failed_fetch_discards_tick(
    max_tries: u32,
    cursor: Cursor,
    status: PlaybackStatus,
    error: PlayerError,
)
    requires
        status.well_formed(),
        decide_spec(cursor, status) is Emit,
        decide_spec(cursor, status)->Emit_0 != NotificationKind::Stopped,
    ensures
        run(
            max_tries,
            Driver { cursor, phase: Phase::Waiting },
            failed_fetch_events(status, error),
        ).0.cursor == cursor,
        classify_spec(error) == Classification::Skip ==> run(
            max_tries,
            Driver { cursor, phase: Phase::Waiting },
            failed_fetch_events(status, error),
        ) == (
            Driver { cursor, phase: Phase::Waiting },
            seq![Action::PollStatus, Action::FetchSong, Action::Wait],
        ),
        classify_spec(error) == Classification::Skip ==> run(
            max_tries,
            Driver { cursor, phase: Phase::Waiting },
            failed_fetch_events(status, error) + seq![
                Event::Changed,
                Event::Status(status),
                Event::SongReady,
            ],
        ).1 == seq![
            Action::PollStatus,
            Action::FetchSong,
            Action::Wait,
            Action::PollStatus,
            Action::FetchSong,
            Action::Show {
                notice: Notice::Playback(decide_spec(cursor, status)->Emit_0),
                replaces: cursor.last_notification_handle,
            },
        ],
{
    let start = Driver { cursor, phase: Phase::Waiting };
    let events = failed_fetch_events(status, error);
    let again = seq![Event::Changed, Event::Status(status), Event::SongReady];
    reveal_with_fuel(run, 4);
    assert(events.skip(1)[0] == Event::Status(status));
    assert(events.skip(1).skip(1)[0] == Event::Failed(error));
    assert(events.skip(1).skip(1).skip(1) =~= Seq::empty());
    assert(again.skip(1)[0] == Event::Status(status));
    assert(again.skip(1).skip(1)[0] == Event::SongReady);
    assert(again.skip(1).skip(1).skip(1) =~= Seq::empty());
    if classify_spec(error) == Classification::Skip {
        assert(run(max_tries, start, events).1 =~= seq![
            Action::PollStatus,
            Action::FetchSong,
            Action::Wait,
        ]);
        assert(run(max_tries, start, again).1 =~= seq![
            Action::PollStatus,
            Action::FetchSong,
            Action::Show {
                notice: Notice::Playback(decide_spec(cursor, status)->Emit_0),
                replaces: cursor.last_notification_handle,
            },
        ]);
        run_in_two(max_tries, start, events, again);
        assert(seq![Action::PollStatus, Action::FetchSong, Action::Wait] + seq![
            Action::PollStatus,
            Action::FetchSong,
            Action::Show {
                notice: Notice::Playback(decide_spec(cursor, status)->Emit_0),
                replaces: cursor.last_notification_handle,
            },
        ] =~= seq![
            Action::PollStatus,
            Action::FetchSong,
            Action::Wait,
            Action::PollStatus,
            Action::FetchSong,
            Action::Show {
                notice: Notice::Playback(decide_spec(cursor, status)->Emit_0),
                replaces: cursor.last_notification_handle,
            },
        ]);
    }
}

/// A tick that runs to its end leaves the cursor as the engine's decision
/// asks: a decision that names a song is recorded once the song is fetched,
/// and the notice is then shown; a stop is shown at once and a suppressed
/// status goes straight back to waiting, both with the cursor as it was.
pub proof fn completed_tick_follows_engine(max_tries: u32, cursor: Cursor, status: PlaybackStatus)
    requires
        status.well_formed(),
    ensures
        match decide_spec(cursor, status) {
            Decision::Suppressed => run(
                max_tries,
                Driver { cursor, phase: Phase::Waiting },
                seq![Event::Changed, Event::Status(status)],
            ) == (
                Driver { cursor, phase: Phase::Waiting },
                seq![Action::PollStatus, Action::Wait],
            ),
            Decision::Emit(NotificationKind::Stopped, _) => run(
                max_tries,
                Driver { cursor, phase: Phase::Waiting },
                seq![Event::Changed, Event::Status(status)],
            ) == (
                Driver {
                    cursor,
                    phase: Phase::Showing(Notice::Playback(NotificationKind::Stopped)),
                },
                seq![
                    Action::PollStatus,
                    Action::Show {
                        notice: Notice::Playback(NotificationKind::Stopped),
                        replaces: cursor.last_notification_handle,
                    },
                ],
            ),
            Decision::Emit(kind, song) => run(
                max_tries,
                Driver { cursor, phase: Phase::Waiting },
                seq![Event::Changed, Event::Status(status), Event::SongReady],
            ) == (
                Driver {
                    cursor: advance_spec(cursor, Decision::Emit(kind, song)),
                    phase: Phase::Showing(Notice::Playback(kind)),
                },
                seq![
                    Action::PollStatus,
                    Action::FetchSong,
                    Action::Show {
                        notice: Notice::Playback(kind),
                        replaces: cursor.last_notification_handle,
                    },
                ],
            ),
        },
{
    let start = Driver { cursor, phase: Phase::Waiting };
    let short = seq![Event::Changed, Event::Status(status)];
    let long = seq![Event::Changed, Event::Status(status), Event::SongReady];
    reveal_with_fuel(run, 4);
    assert(short.skip(1)[0] == Event::Status(status));
    assert(short.skip(1).skip(1) =~= Seq::empty());
    assert(long.skip(1)[0] == Event::Status(status));
    assert(long.skip(1).skip(1)[0] == Event::SongReady);
    assert(long.skip(1).skip(1).skip(1) =~= Seq::empty());
    match decide_spec(cursor, status) {
        Decision::Suppressed => {
            assert(run(max_tries, start, short).1 =~= seq![Action::PollStatus, Action::Wait]);
        },
        Decision::Emit(NotificationKind::Stopped, _) => {
            assert(run(max_tries, start, short).1 =~= seq![
                Action::PollStatus,
                Action::Show {
                    notice: Notice::Playback(NotificationKind::Stopped),
                    replaces: cursor.last_notification_handle,
                },
            ]);
        },
        Decision::Emit(kind, song) => {
            assert(run(max_tries, start, long).1 =~= seq![
                Action::PollStatus,
                Action::FetchSong,
                Action::Show {
                    notice: Notice::Playback(kind),
                    replaces: cursor.last_notification_handle,
                },
            ]);
        },
    }
}

} // verus!
