//! Tests that drive the adapter's decision core through whole polls: each
//! poll asks `begin_poll` how to start, then reports an observation through
//! `finish_poll`, exactly as the asynchronous driver does. The simulated
//! clock of the scenarios shows up here as the observation `TimerFired`,
//! which the driver reports once the one-shot timer has fired.

use stream_timeout::PollDirective;
use stream_timeout::PollObservation;
use stream_timeout::PollOutcome;
use stream_timeout::StreamTimeoutError;
use stream_timeout::TimeSpan;
use stream_timeout::TimeoutState;

/// One second of budget, as the scenarios configure it.
fn one_second() -> TimeSpan {
    TimeSpan::from_secs(1)
}

/// Inner yields item A immediately; before the second item the simulated
/// clock passes the one-second budget, so the second poll observes the timer
/// fired. Expected: Ok(A), then the timeout error, then end-of-sequence.
#[test]
fn test_stream_timeout() {
    let mut s = TimeoutState::new(one_second());

    assert_eq!(s.begin_poll(), PollDirective::Probe { start_timer: true });
    match s.finish_poll(PollObservation::InnerItem("a")) {
        PollOutcome::Item(v) => assert_eq!(v, "a"),
        _ => panic!("first poll must pass the item through"),
    }

    assert_eq!(s.begin_poll(), PollDirective::Probe { start_timer: false });
    match s.finish_poll::<&str>(PollObservation::TimerFired) {
        PollOutcome::TimeoutError(e) => {
            assert_eq!(e, StreamTimeoutError(one_second()));
        }
        _ => panic!("second poll must yield the timeout error"),
    }

    assert_eq!(s.begin_poll(), PollDirective::End);
}

/// Inner yields items A and B immediately, then completes; no clock advance.
/// Expected: Ok(A), Ok(B), end-of-sequence; and even after the simulated
/// clock later passes the budget, every further poll still yields
/// end-of-sequence without touching the timer.
#[test]
fn test_stream_done_before_timeout() {
    let mut s = TimeoutState::new(one_second());

    assert_eq!(s.begin_poll(), PollDirective::Probe { start_timer: true });
    assert!(matches!(
        s.finish_poll(PollObservation::InnerItem(1u32)),
        PollOutcome::Item(1u32)
    ));

    assert_eq!(s.begin_poll(), PollDirective::Probe { start_timer: false });
    assert!(matches!(
        s.finish_poll(PollObservation::InnerItem(2u32)),
        PollOutcome::Item(2u32)
    ));

    assert_eq!(s.begin_poll(), PollDirective::Probe { start_timer: false });
    assert!(matches!(
        s.finish_poll::<u32>(PollObservation::InnerDone),
        PollOutcome::End
    ));

    // The clock advancing past the budget afterwards changes nothing: the
    // adapter is terminal and is never directed to probe again.
    assert_eq!(s.begin_poll(), PollDirective::End);
    assert_eq!(s.begin_poll(), PollDirective::End);
}

/// The simulated clock advances past the budget before the first poll. The
/// first poll is still directed to create the timer — the budget measures
/// time since first poll, not since construction — so both items pass
/// through and the sequence completes without an error.
#[test]
fn test_clock_starts_at_poll() {
    let mut s = TimeoutState::new(one_second());

    // Construction does not create the timer: the first poll is directed to.
    assert_eq!(s.begin_poll(), PollDirective::Probe { start_timer: true });
    assert!(matches!(
        s.finish_poll(PollObservation::InnerItem(1u32)),
        PollOutcome::Item(1u32)
    ));

    assert_eq!(s.begin_poll(), PollDirective::Probe { start_timer: false });
    assert!(matches!(
        s.finish_poll(PollObservation::InnerItem(2u32)),
        PollOutcome::Item(2u32)
    ));

    assert_eq!(s.begin_poll(), PollDirective::Probe { start_timer: false });
    assert!(matches!(
        s.finish_poll::<u32>(PollObservation::InnerDone),
        PollOutcome::End
    ));
    assert_eq!(s.begin_poll(), PollDirective::End);
}

/// An inner stream that completes at once, with no items, passes through as
/// an immediately empty sequence.
#[test]
fn empty_stream_passes_through() {
    let mut s = TimeoutState::new(one_second());

    assert!(!s.is_done());
    assert_eq!(s.begin_poll(), PollDirective::Probe { start_timer: true });
    assert!(matches!(
        s.finish_poll::<u32>(PollObservation::InnerDone),
        PollOutcome::End
    ));
    assert!(s.is_done());
    assert_eq!(s.begin_poll(), PollDirective::End);
}

/// A timer that fires on the very first poll truncates the sequence to the
/// empty prefix: one timeout error, then end-of-sequence.
#[test]
fn timeout_on_first_poll() {
    let mut s = TimeoutState::new(TimeSpan::from_parts(0, 250_000_000));

    assert_eq!(s.begin_poll(), PollDirective::Probe { start_timer: true });
    match s.finish_poll::<u32>(PollObservation::TimerFired) {
        PollOutcome::TimeoutError(e) => {
            assert_eq!(e.0, TimeSpan::from_parts(0, 250_000_000));
        }
        _ => panic!("the timer firing must yield the timeout error"),
    }
    assert!(s.is_done());
    assert_eq!(s.begin_poll(), PollDirective::End);
}

/// At most one timeout error is ever emitted: after the error, every further
/// poll — however many — short-circuits to end-of-sequence and never probes
/// the timer or the inner stream again.
#[test]
fn no_second_error_after_timeout() {
    let mut s = TimeoutState::new(one_second());

    assert_eq!(s.begin_poll(), PollDirective::Probe { start_timer: true });
    assert!(matches!(
        s.finish_poll::<u32>(PollObservation::TimerFired),
        PollOutcome::TimeoutError(_)
    ));

    for _ in 0..10 {
        assert_eq!(s.begin_poll(), PollDirective::End);
    }
}

/// A poll on which both the timer and the inner stream are pending suspends:
/// it yields nothing, the adapter stays active, and the timer — created on
/// that first poll — is not created again.
#[test]
fn pending_poll_suspends_without_deciding() {
    let mut s = TimeoutState::new(one_second());

    assert_eq!(s.begin_poll(), PollDirective::Probe { start_timer: true });
    assert!(matches!(
        s.finish_poll::<u32>(PollObservation::AllPending),
        PollOutcome::Pending
    ));
    assert!(!s.is_done());

    assert_eq!(s.begin_poll(), PollDirective::Probe { start_timer: false });
    assert!(matches!(
        s.finish_poll(PollObservation::InnerItem(9u32)),
        PollOutcome::Item(9u32)
    ));
}

/// The budget is fixed at construction and reported back both by the getter
/// and inside the timeout error.
#[test]
fn duration_is_kept_and_reported() {
    let span = TimeSpan::from_parts(3, 500_000_000);
    let mut s = TimeoutState::new(span);
    assert_eq!(s.duration(), span);
    assert_eq!(span.secs, 3);
    assert_eq!(span.nanos, 500_000_000);

    assert_eq!(s.begin_poll(), PollDirective::Probe { start_timer: true });
    assert!(matches!(
        s.finish_poll(PollObservation::InnerItem(1u32)),
        PollOutcome::Item(1u32)
    ));
    assert_eq!(s.duration(), span);

    assert_eq!(s.begin_poll(), PollDirective::Probe { start_timer: false });
    match s.finish_poll::<u32>(PollObservation::TimerFired) {
        PollOutcome::TimeoutError(e) => assert_eq!(e.0, span),
        _ => panic!("the timer firing must yield the timeout error"),
    }
    assert_eq!(s.duration(), span);
}

/// A span of whole seconds has no sub-second part.
#[test]
fn from_secs_is_whole_seconds() {
    let span = TimeSpan::from_secs(7);
    assert_eq!(span.secs, 7);
    assert_eq!(span.nanos, 0);
    assert_eq!(span, TimeSpan::from_parts(7, 0));
}
