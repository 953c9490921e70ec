//! The reconnect retry schedule and the session order on concrete values.

use fxrecord::recorder::SessionState;
use fxrecord::retry::RetrySchedule;

#[test]
fn session_states_form_one_chain() {
    let order = [
        SessionState::Fresh,
        SessionState::Handshook1,
        SessionState::Reconnected,
        SessionState::Handshook2,
        SessionState::BuildDownloaded,
        SessionState::ProfileSent,
        SessionState::Done,
    ];
    for w in order.windows(2) {
        assert_eq!(w[0].successor(), Some(w[1]));
    }
    assert_eq!(SessionState::Done.successor(), None);
}

#[test]
fn recorder_default_schedule() {
    // 30 s base, four attempts: 0:30 + 1:00 + 2:00 + 4:00 = 7:30 in all.
    let mut schedule = RetrySchedule::recorder_default();
    let mut total: u64 = 0;
    let mut delays = Vec::new();
    while let Some(d) = schedule.next_delay_ms() {
        total += d;
        delays.push(d);
    }
    assert_eq!(delays, vec![30_000, 60_000, 120_000, 240_000]);
    assert_eq!(total, 450_000);
    // Once exhausted, the schedule stays exhausted.
    assert!(schedule.next_delay_ms().is_none());
}

#[test]
fn schedule_doubles_from_any_base() {
    let mut schedule = RetrySchedule::new(7, 3);
    assert_eq!(schedule.next_delay_ms(), Some(7));
    assert_eq!(schedule.next_delay_ms(), Some(14));
    assert_eq!(schedule.next_delay_ms(), Some(28));
    assert_eq!(schedule.next_delay_ms(), None);
    // 7 * (2^3 - 1)
    assert_eq!(7 + 14 + 28, 7 * ((1u64 << 3) - 1));
}

#[test]
fn single_attempt_waits_once() {
    let mut schedule = RetrySchedule::new(1000, 1);
    assert_eq!(schedule.next_delay_ms(), Some(1000));
    assert_eq!(schedule.next_delay_ms(), None);
}
