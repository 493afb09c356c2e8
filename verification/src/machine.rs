//! The decision core of the time-bounded stream adapter.
//!
//! One poll of the adapter proceeds in two halves. First the driver asks the
//! state machine how to begin (`begin_poll`): a terminal machine answers
//! end-of-sequence outright, and otherwise the machine says whether the
//! one-shot timer still has to be created — which happens on the first poll
//! and never again, so the budget measures time since first poll. Second, the
//! driver probes the timer and, only if the timer is still pending, the inner
//! stream, and reports what it saw (`finish_poll`); the machine answers what
//! the poll yields and moves to its next state. The timer is probed before the
//! inner stream, so a timer that fires in the same poll as the inner stream
//! becoming ready wins the race deterministically.

use vstd::prelude::*;
use crate::span::TimeSpan;

verus! {

/// The error yielded when the deadline elapses before the inner stream
/// completes. It carries the configured budget.
#[derive(Clone, Copy, Debug, PartialEq, Eq, Structural)]
pub struct StreamTimeoutError(pub TimeSpan);

/// What the driver observed while probing the sub-operations of one poll,
/// timer first.
pub enum PollObservation<T> {
    /// The timer has fired; the inner stream was not probed.
    TimerFired,
    /// The timer is pending and the inner stream yielded an item.
    InnerItem(T),
    /// The timer is pending and the inner stream signalled end-of-sequence.
    InnerDone,
    /// Both the timer and the inner stream are pending: the poll suspends.
    AllPending,
}

/// What one poll of the adapter yields to its consumer.
pub enum PollOutcome<T> {
    /// Suspend; the poll resumes when the timer or the inner stream wakes it.
    Pending,
    /// Yield the item as a success.
    Item(T),
    /// Yield the timeout error; the adapter is terminal from now on.
    TimeoutError(StreamTimeoutError),
    /// End-of-sequence.
    End,
}

/// How the driver is to begin one poll.
#[derive(Clone, Copy, Debug, PartialEq, Eq, Structural)]
pub enum PollDirective {
    /// The adapter is terminal: yield end-of-sequence without touching the
    /// timer or the inner stream.
    End,
    /// Probe the timer, then the inner stream if the timer is pending. When
    /// `start_timer` holds, the timer does not exist yet and is to be created
    /// now, from the configured budget.
    Probe { start_timer: bool },
}

/// The mathematical state of the adapter: the configured budget, the terminal
/// latch, and whether the one-shot timer has been created.
pub struct StateModel {
    pub duration: TimeSpan,
    pub done: bool,
    pub timer_started: bool,
}

/// The state a freshly constructed adapter is in: active, timer not yet
/// created.
pub open spec fn initial_state(duration: TimeSpan) -> StateModel {
    StateModel { duration, done: false, timer_started: false }
}

/// How a poll begins, as a function of the state alone: terminal machines
/// short-circuit to end-of-sequence; active ones probe, creating the timer
/// exactly when it does not exist yet.
pub open spec fn directive_spec(s: StateModel) -> PollDirective {
    if s.done {
        PollDirective::End
    } else {
        PollDirective::Probe { start_timer: !s.timer_started }
    }
}

/// The transition an active machine makes on one observation: the next state
/// and what the poll yields. Whatever was observed, the timer exists
/// afterwards. A fired timer yields the single timeout error and latches the
/// terminal state; an inner item passes through; inner completion ends the
/// sequence and latches; otherwise the poll suspends.
pub open spec fn step_spec<T>(s: StateModel, obs: PollObservation<T>) -> (StateModel, PollOutcome<T>) {
    match obs {
        PollObservation::TimerFired => (
            StateModel { duration: s.duration, done: true, timer_started: true },
            PollOutcome::TimeoutError(StreamTimeoutError(s.duration)),
        ),
        PollObservation::InnerItem(t) => (
            StateModel { duration: s.duration, done: false, timer_started: true },
            PollOutcome::Item(t),
        ),
        PollObservation::InnerDone => (
            StateModel { duration: s.duration, done: true, timer_started: true },
            PollOutcome::End,
        ),
        PollObservation::AllPending => (
            StateModel { duration: s.duration, done: false, timer_started: true },
            PollOutcome::Pending,
        ),
    }
}

/// One whole poll at the specification level: a terminal machine yields
/// end-of-sequence and ignores the observation (the driver never probes for
/// one); an active machine steps.
pub open spec fn poll_spec<T>(s: StateModel, obs: PollObservation<T>) -> (StateModel, PollOutcome<T>) {
    if s.done {
        (s, PollOutcome::End)
    } else {
        step_spec(s, obs)
    }
}

/// The state after a whole sequence of polls, one observation each.
pub open spec fn run_state<T>(s: StateModel, obss: Seq<PollObservation<T>>) -> StateModel
    decreases obss.len(),
{
    if obss.len() == 0 {
        s
    } else {
        run_state(poll_spec(s, obss[0]).0, obss.drop_first())
    }
}

/// What a sequence of polls yields, one outcome per poll, in order.
pub open spec fn run_outputs<T>(s: StateModel, obss: Seq<PollObservation<T>>) -> Seq<PollOutcome<T>>
    decreases obss.len(),
{
    if obss.len() == 0 {
        Seq::empty()
    } else {
        seq![poll_spec(s, obss[0]).1] + run_outputs(poll_spec(s, obss[0]).0, obss.drop_first())
    }
}

/// The adapter's decision state. The inner stream and the timer themselves
/// live with the driver; this machine only decides, and its behaviour is the
/// specification functions above, exactly.
pub struct TimeoutState {
    duration: TimeSpan,
    done: bool,
    timer_started: bool,
}

impl View for TimeoutState {
    type V = StateModel;

    closed spec fn view(&self) -> StateModel {
        StateModel {
            duration: self.duration,
            done: self.done,
            timer_started: self.timer_started,
        }
    }
}

impl TimeoutState {
    /// A fresh machine with the given total budget: active, no timer yet.
    pub fn new(duration: TimeSpan) -> (r: Self)
        ensures
            r@ == initial_state(duration),
    {
        TimeoutState { duration, done: false, timer_started: false }
    }

    /// The configured budget; fixed at construction.
    pub fn duration(&self) -> (r: TimeSpan)
        ensures
            r == self@.duration,
    {
        self.duration
    }

    /// Whether the machine is terminal: once true, every poll yields
    /// end-of-sequence.
    pub fn is_done(&self) -> (r: bool)
        ensures
            r == self@.done,
    {
        self.done
    }

    /// Ask how to begin one poll. Reads the state only; the machine moves in
    /// `finish_poll`, once the probe has been made.
    pub fn begin_poll(&self) -> (r: PollDirective)
        ensures
            r == directive_spec(self@),
    {
        if self.done {
            PollDirective::End
        } else {
            PollDirective::Probe { start_timer: !self.timer_started }
        }
    }

    /// Report what the probe observed and learn what the poll yields. Only an
    /// active machine is ever probed: a terminal one answered end-of-sequence
    /// in `begin_poll` already.
    pub fn finish_poll<T>(&mut self, obs: PollObservation<T>) -> (r: PollOutcome<T>)
        requires
            !old(self)@.done,
        ensures
            (final(self)@, r) == step_spec(old(self)@, obs),
    {
        self.timer_started = true;
        match obs {
            PollObservation::TimerFired => {
                self.done = true;
                PollOutcome::TimeoutError(StreamTimeoutError(self.duration))
            }
            PollObservation::InnerItem(t) => PollOutcome::Item(t),
            PollObservation::InnerDone => {
                self.done = true;
                PollOutcome::End
            }
            PollObservation::AllPending => PollOutcome::Pending,
        }
    }
}

} // verus!
