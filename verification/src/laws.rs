//! The laws of the adapter, proved once and for all over the specification
//! state machine: the terminal state is absorbing, at most one timeout error
//! is ever yielded, an inner stream that completes in time passes through
//! verbatim, a deadline that elapses first truncates the stream after exactly
//! one error, and the timer is created on the first poll and never again.

use vstd::prelude::*;
use crate::machine::PollDirective;
use crate::machine::PollObservation;
use crate::machine::PollOutcome;
use crate::machine::StateModel;
use crate::machine::StreamTimeoutError;
use crate::machine::directive_spec;
use crate::machine::initial_state;
use crate::machine::poll_spec;
use crate::machine::run_outputs;
use crate::machine::run_state;
use crate::span::TimeSpan;

verus! {

/// How many timeout errors a sequence of poll outcomes carries.
pub open spec fn error_count<T>(outs: Seq<PollOutcome<T>>) -> nat
    decreases outs.len(),
{
    if outs.len() == 0 {
        0
    } else {
        (if outs[0] matches PollOutcome::TimeoutError(_) { 1nat } else { 0nat })
            + error_count(outs.drop_first())
    }
}

/// Once the machine is terminal, it stays terminal: every later poll yields
/// end-of-sequence, whatever is observed, and the state never moves again.
pub proof fn lemma_terminal_absorbing<T>(s: StateModel, obss: Seq<PollObservation<T>>)
    requires
        s.done,
    ensures
        run_state(s, obss) == s,
        run_outputs(s, obss) == Seq::new(obss.len(), |i: int| PollOutcome::<T>::End),
    decreases obss.len(),
{
    if obss.len() == 0 {
        assert(run_outputs(s, obss) =~= Seq::new(obss.len(), |i: int| PollOutcome::<T>::End));
    } else {
        lemma_terminal_absorbing(s, obss.drop_first());
        assert(run_outputs(s, obss) =~= Seq::new(obss.len(), |i: int| PollOutcome::<T>::End));
    }
}

/// At most one timeout error ever appears among the outcomes of any run, from
/// any state; from a terminal state, none at all.
pub proof fn lemma_single_error<T>(s: StateModel, obss: Seq<PollObservation<T>>)
    ensures
        error_count(run_outputs(s, obss)) <= 1,
        s.done ==> error_count(run_outputs(s, obss)) == 0,
    decreases obss.len(),
{
    if obss.len() == 0 {
    } else {
        let s1 = poll_spec(s, obss[0]).0;
        lemma_single_error(s1, obss.drop_first());
        assert(run_outputs(s, obss).drop_first() =~= run_outputs(s1, obss.drop_first()));
    }
}

/// The observations of a run in which the timer stays pending and the inner
/// stream yields these items, one per poll, in order.
pub open spec fn item_observations<T>(items: Seq<T>) -> Seq<PollObservation<T>> {
    items.map_values(|t: T| PollObservation::InnerItem(t))
}

/// The outcomes that pass these items through, one per poll, in order.
pub open spec fn item_outcomes<T>(items: Seq<T>) -> Seq<PollOutcome<T>> {
    items.map_values(|t: T| PollOutcome::Item(t))
}

/// Pass-through: if the inner stream yields its items and then completes,
/// all before the timer fires, the adapter yields exactly those items, each
/// as a success, then end-of-sequence — never an error — and is terminal
/// afterwards.
pub proof fn lemma_pass_through<T>(s: StateModel, items: Seq<T>)
    requires
        !s.done,
    ensures
        ({
            let obss = item_observations(items).push(PollObservation::InnerDone);
            &&& run_outputs(s, obss) == item_outcomes(items).push(PollOutcome::End)
            &&& run_state(s, obss).done
        }),
    decreases items.len(),
{
    let obss = item_observations(items).push(PollObservation::InnerDone);
    if items.len() == 0 {
        assert(obss[0] == PollObservation::InnerDone::<T>);
        assert(obss.drop_first() =~= Seq::<PollObservation<T>>::empty());
        let s1 = poll_spec(s, obss[0]).0;
        assert(run_state(s1, obss.drop_first()) == s1);
        assert(run_state(s, obss) == s1);
        assert(run_outputs(s1, obss.drop_first()) =~= Seq::<PollOutcome<T>>::empty());
        assert(run_outputs(s, obss) =~= item_outcomes(items).push(PollOutcome::End));
    } else {
        assert(obss[0] == PollObservation::InnerItem(items[0]));
        let s1 = poll_spec(s, obss[0]).0;
        lemma_pass_through(s1, items.drop_first());
        assert(obss.drop_first()
            =~= item_observations(items.drop_first()).push(PollObservation::InnerDone));
        assert(run_state(s, obss) == run_state(s1, obss.drop_first()));
        assert(run_outputs(s, obss) =~= item_outcomes(items).push(PollOutcome::End));
    }
}

/// Truncation: if the timer fires before the inner stream completes, the
/// adapter yields the prefix of items delivered so far (possibly empty), each
/// as a success, then exactly one timeout error carrying the configured
/// budget, and end-of-sequence on every poll after that, however many there
/// are and whatever they observe.
pub proof fn lemma_timeout_truncation<T>(
    s: StateModel,
    items: Seq<T>,
    rest: Seq<PollObservation<T>>,
)
    requires
        !s.done,
    ensures
        ({
            let obss = item_observations(items).push(PollObservation::TimerFired) + rest;
            let outs = item_outcomes(items).push(
                PollOutcome::TimeoutError(StreamTimeoutError(s.duration)),
            ) + Seq::new(rest.len(), |i: int| PollOutcome::<T>::End);
            &&& run_outputs(s, obss) == outs
            &&& run_state(s, obss).done
        }),
    decreases items.len(),
{
    let obss = item_observations(items).push(PollObservation::TimerFired) + rest;
    let outs = item_outcomes(items).push(
        PollOutcome::TimeoutError(StreamTimeoutError(s.duration)),
    ) + Seq::new(rest.len(), |i: int| PollOutcome::<T>::End);
    if items.len() == 0 {
        assert(obss[0] == PollObservation::TimerFired::<T>);
        let s1 = poll_spec(s, obss[0]).0;
        assert(s1.done);
        lemma_terminal_absorbing(s1, rest);
        assert(obss.drop_first() =~= rest);
        assert(run_state(s, obss) == run_state(s1, obss.drop_first()));
        assert(run_outputs(s, obss) =~= outs);
    } else {
        assert(obss[0] == PollObservation::InnerItem(items[0]));
        let s1 = poll_spec(s, obss[0]).0;
        assert(s1.duration == s.duration);
        lemma_timeout_truncation(s1, items.drop_first(), rest);
        assert(obss.drop_first()
            =~= item_observations(items.drop_first()).push(PollObservation::TimerFired) + rest);
        assert(run_state(s, obss) == run_state(s1, obss.drop_first()));
        assert(run_outputs(s, obss) =~= outs);
    }
}

/// Once created, the timer is never discarded: no later poll is directed to
/// create it again.
proof fn lemma_timer_stays_started<T>(s: StateModel, obss: Seq<PollObservation<T>>)
    requires
        s.timer_started,
    ensures
        run_state(s, obss).timer_started,
    decreases obss.len(),
{
    if obss.len() > 0 {
        lemma_timer_stays_started(poll_spec(s, obss[0]).0, obss.drop_first());
    }
}

/// Lazy clock start: a fresh adapter is directed to create the timer on its
/// first poll — so the budget measures time since first poll, not since
/// construction — and after any run of polls it is never directed to create
/// one again.
pub proof fn lemma_clock_starts_at_first_poll<T>(
    duration: TimeSpan,
    obss: Seq<PollObservation<T>>,
)
    ensures
        directive_spec(initial_state(duration)) == (PollDirective::Probe { start_timer: true }),
        obss.len() > 0 ==> run_state(initial_state(duration), obss).timer_started,
        obss.len() > 0 ==> directive_spec(run_state(initial_state(duration), obss))
            != (PollDirective::Probe { start_timer: true }),
{
    if obss.len() > 0 {
        let s0 = initial_state(duration);
        let s1 = poll_spec(s0, obss[0]).0;
        assert(s1.timer_started);
        lemma_timer_stays_started(s1, obss.drop_first());
        assert(run_state(s0, obss) == run_state(s1, obss.drop_first()));
    }
}

} // verus!
