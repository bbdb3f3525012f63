//! Connection supervision: which failures are survivable, and how often a
//! connection attempt is repeated.

use vstd::prelude::*;

verus! {

/// Seconds to wait between two connection attempts.
pub const BACKOFF_SECS: u64 = 5;

/// The kinds of I/O failure that the supervisor tells apart.
#[derive(Clone, Copy, Debug, PartialEq, Eq, Structural)]
pub enum IoKind {
    BrokenPipe,
    ConnectionReset,
    Other,
}

/// The kinds of malformed response that are told apart.
#[derive(Clone, Copy, Debug, PartialEq, Eq, Structural)]
pub enum ParseKind {
    /// A line that is no pair of name and value. This is also how the daemon
    /// answers when it has no cover art for a song.
    BadPair,
    Other,
}

/// A failure of a call to the daemon.
#[derive(Clone, Copy, Debug, PartialEq, Eq, Structural)]
pub enum PlayerError {
    /// The transport failed.
    Io(IoKind),
    /// The response could not be parsed.
    Parse(ParseKind),
    /// Anything else: a breach of the protocol, or an error that the daemon
    /// itself reports.
    Other,
}

/// What the driver does about a failure.
#[derive(Clone, Copy, Debug, PartialEq, Eq, Structural)]
pub enum Classification {
    /// The daemon went away; reconnect and go on.
    Transient(IoKind),
    /// The process must stop.
    Fatal,
    /// The tick is dropped and the loop goes on with the cursor untouched.
    Skip,
}

/// What follows a failed connection attempt.
#[derive(Clone, Copy, Debug, PartialEq, Eq, Structural)]
pub enum RetryStep {
    /// Wait and try again; `tries` is the number of failures counted so far.
    Retry { tries: u32 },
    /// The budget is spent.
    GiveUp,
}

/// Only a broken pipe and a reset connection are survivable; every other I/O
/// failure is fatal, and what is no I/O failure costs one tick.
pub open spec fn classify_spec(error: PlayerError) -> Classification {
    match error {
        PlayerError::Io(IoKind::BrokenPipe) => Classification::Transient(IoKind::BrokenPipe),
        PlayerError::Io(IoKind::ConnectionReset) => Classification::Transient(
            IoKind::ConnectionReset,
        ),
        PlayerError::Io(IoKind::Other) => Classification::Fatal,
        PlayerError::Parse(_) => Classification::Skip,
        PlayerError::Other => Classification::Skip,
    }
}

/// Classifies a failure of a call to the daemon.
pub fn classify(error: PlayerError) -> (class: Classification)
    ensures
        class == classify_spec(error),
{
    match error {
        PlayerError::Io(kind) => match kind {
            IoKind::BrokenPipe => Classification::Transient(kind),
            IoKind::ConnectionReset => Classification::Transient(kind),
            IoKind::Other => Classification::Fatal,
        },
        PlayerError::Parse(_) => Classification::Skip,
        PlayerError::Other => Classification::Skip,
    }
}

/// The step after a failed attempt when `tries` failures were counted before
/// it. A limit of zero means no limit, and then nothing is counted.
pub open spec fn after_failure_spec(max_tries: u32, tries: u32) -> RetryStep {
    if max_tries == 0 {
        RetryStep::Retry { tries }
    } else if tries >= max_tries - 1 {
        RetryStep::GiveUp
    } else {
        RetryStep::Retry { tries: (tries + 1) as u32 }
    }
}

/// Decides what follows a failed connection attempt.
pub fn after_failure(max_tries: u32, tries: u32) -> (step: RetryStep)
    ensures
        step == after_failure_spec(max_tries, tries),
{
    if max_tries == 0 {
        RetryStep::Retry { tries }
    } else if tries >= max_tries - 1 {
        RetryStep::GiveUp
    } else {
        RetryStep::Retry { tries: tries + 1 }
    }
}

/// The step that stands after `failures` failed attempts in a row, counted
/// from a fresh start.
pub open spec fn after_failures(max_tries: u32, failures: nat) -> RetryStep
    decreases failures,
{
    if failures == 0 {
        RetryStep::Retry { tries: 0 }
    } else {
        match after_failures(max_tries, (failures - 1) as nat) {
            RetryStep::Retry { tries } => after_failure_spec(max_tries, tries),
            RetryStep::GiveUp => RetryStep::GiveUp,
        }
    }
}

/// With a limit, the supervisor retries after each failure short of the
/// limit and gives up at the failure that reaches it, and stays so.
pub proof fn bounded_retries_end(max_tries: u32, failures: nat)
    requires
        max_tries > 0,
    ensures
        failures < max_tries ==> after_failures(max_tries, failures) == (RetryStep::Retry {
            tries: failures as u32,
        }),
        failures >= max_tries ==> after_failures(max_tries, failures) == RetryStep::GiveUp,
    decreases failures,
{
    if failures > 0 {
        bounded_retries_end(max_tries, (failures - 1) as nat);
    }
}

/// Without a limit, the supervisor never gives up.
pub proof fn unbounded_retries_go_on(failures: nat)
    ensures
        after_failures(0, failures) == (RetryStep::Retry { tries: 0 }),
    decreases failures,
{
    if failures > 0 {
        unbounded_retries_go_on((failures - 1) as nat);
    }
}

} // verus!
