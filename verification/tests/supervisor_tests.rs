use mpdnd::supervisor::{
    after_failure, classify, Classification, IoKind, ParseKind, PlayerError, RetryStep,
    BACKOFF_SECS,
};

#[test]
fn broken_pipe_and_reset_are_transient() {
    assert_eq!(
        classify(PlayerError::Io(IoKind::BrokenPipe)),
        Classification::Transient(IoKind::BrokenPipe)
    );
    assert_eq!(
        classify(PlayerError::Io(IoKind::ConnectionReset)),
        Classification::Transient(IoKind::ConnectionReset)
    );
}

#[test]
fn other_io_is_fatal() {
    assert_eq!(classify(PlayerError::Io(IoKind::Other)), Classification::Fatal);
}

#[test]
fn non_io_costs_a_tick() {
    assert_eq!(classify(PlayerError::Other), Classification::Skip);
    assert_eq!(classify(PlayerError::Parse(ParseKind::BadPair)), Classification::Skip);
    assert_eq!(classify(PlayerError::Parse(ParseKind::Other)), Classification::Skip);
}

#[test]
fn backoff_is_five_seconds() {
    assert_eq!(BACKOFF_SECS, 5);
}

#[test]
fn retry_counts_up_to_the_limit() {
    assert_eq!(after_failure(5, 0), RetryStep::Retry { tries: 1 });
    assert_eq!(after_failure(5, 3), RetryStep::Retry { tries: 4 });
    assert_eq!(after_failure(5, 4), RetryStep::GiveUp);
    assert_eq!(after_failure(1, 0), RetryStep::GiveUp);
    assert_eq!(after_failure(3, 9), RetryStep::GiveUp);
    assert_eq!(after_failure(u32::MAX, u32::MAX - 1), RetryStep::GiveUp);
}

#[test]
fn no_limit_never_gives_up() {
    assert_eq!(after_failure(0, 0), RetryStep::Retry { tries: 0 });
    assert_eq!(after_failure(0, u32::MAX), RetryStep::Retry { tries: u32::MAX });
}

#[test]
fn limit_allows_exactly_that_many_attempts() {
    for max in 1..20u32 {
        let mut tries = 0;
        let mut attempts = 0;
        loop {
            attempts += 1;
            match after_failure(max, tries) {
                RetryStep::Retry { tries: t } => tries = t,
                RetryStep::GiveUp => break,
            }
        }
        assert_eq!(attempts, max);
    }
}
