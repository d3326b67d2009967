//! What holds of every run of the controller, whatever the outside world
//! reports and in whatever order.

use vstd::prelude::*;
use crate::events::established;
use crate::bringup::{
    initial,
    next,
    rank,
    Action,
    BringupState,
    ControllerView,
    Event,
    FatalError,
    LIVENESS_WINDOW_SECS,
};

verus! {

/// The controller after the events, taken in from `start` one by one.
pub open spec fn run(start: ControllerView, events: Seq<Event>) -> ControllerView
    decreases events.len(),
{
    if events.len() == 0 {
        start
    } else {
        next(run(start, events.drop_last()), events.last()).0
    }
}

/// The action the controller asks for on taking in `events[i]`, the events
/// before it taken in from `start`.
pub open spec fn asked_at(start: ControllerView, events: Seq<Event>, i: int) -> Action
    recommends
        0 <= i < events.len(),
{
    next(run(start, events.take(i)), events[i]).1
}

/// Whether the event is a readiness signal.
pub open spec fn is_signal(event: Event) -> bool {
    event is SignalReceived
}

/// Taking in one more event is one transition.
pub proof fn lemma_run_extends(start: ControllerView, events: Seq<Event>, i: int)
    requires
        0 <= i < events.len(),
    ensures
        run(start, events.take(i + 1)) == next(run(start, events.take(i)), events[i]).0,
{
    assert(events.take(i + 1).drop_last() =~= events.take(i));
    assert(events.take(i + 1).last() == events[i]);
}

/// No state is skipped: a transition stays, moves to the state that follows
/// in the bring-up order, or fails. The terminal state is never left, and the
/// subscriptions held change only while uninitialized.
pub proof fn lemma_no_state_skipped(before: ControllerView, event: Event)
    ensures
        ({
            let after = next(before, event).0;
            &&& after.state is Failed || rank(after.state) == rank(before.state) || rank(
                after.state,
            ) == rank(before.state) + 1
            &&& before.state is Failed ==> after == before
            &&& !(before.state is Uninitialized) ==> after.subscribed == before.subscribed
        }),
{
}

/// The bring-up never moves backwards: along a run the rank of the state
/// does not decrease.
pub proof fn lemma_progress_is_monotone(
    start: ControllerView,
    events: Seq<Event>,
    i: int,
    j: int,
)
    requires
        0 <= i <= j <= events.len(),
    ensures
        rank(run(start, events.take(i)).state) <= rank(run(start, events.take(j)).state),
    decreases j - i,
{
    if i < j {
        lemma_progress_is_monotone(start, events, i, j - 1);
        lemma_run_extends(start, events, j - 1);
        lemma_no_state_skipped(run(start, events.take(j - 1)), events[j - 1]);
    }
}

/// Subscriptions come first: whenever a run has left the uninitialized state
/// without failing, every required category holds a subscription, so no
/// readiness event can be missed for want of a subscriber.
pub proof fn lemma_subscriptions_come_first(events: Seq<Event>)
    ensures
        ({
            let reached = run(initial(), events);
            1 <= rank(reached.state) <= 6 ==> established(reached.subscribed)
        }),
    decreases events.len(),
{
    if events.len() > 0 {
        lemma_subscriptions_come_first(events.drop_last());
        lemma_no_state_skipped(run(initial(), events.drop_last()), events.last());
    }
}

/// Silence is fatal: while monitoring, a window that elapses without a
/// readiness signal ends the supervision with `LivenessTimeout`.
pub proof fn lemma_silence_is_fatal(before: ControllerView)
    requires
        before.state == BringupState::Monitoring,
    ensures
        next(before, Event::WindowElapsed).0 == (ControllerView {
            state: BringupState::Failed(FatalError::LivenessTimeout),
            subscribed: before.subscribed,
        }),
        next(before, Event::WindowElapsed).1 == Action::Terminate(FatalError::LivenessTimeout),
{
}

/// A readiness signal confirms and changes nothing: while monitoring, the
/// controller after a signal is the controller before it, and it asks for
/// the next wait of the same window.
pub proof fn lemma_signal_is_confirmation(before: ControllerView, event: Event)
    requires
        before.state == BringupState::Monitoring,
        is_signal(event),
    ensures
        next(before, event).0 == before,
        next(before, event).1 == (Action::AwaitSignal { window_secs: LIVENESS_WINDOW_SECS }),
{
}

/// Readiness confirmations are idempotent: while monitoring, any number of
/// signals, however quickly they follow one another, leaves the controller
/// as it was, and after each of them it asks for the next wait.
pub proof fn lemma_signals_keep_monitoring(before: ControllerView, signals: Seq<Event>)
    requires
        before.state == BringupState::Monitoring,
        forall|k: int| 0 <= k < signals.len() ==> is_signal(#[trigger] signals[k]),
    ensures
        run(before, signals) == before,
        forall|k: int|
            0 <= k < signals.len() ==> #[trigger] asked_at(before, signals, k) == (
            Action::AwaitSignal { window_secs: LIVENESS_WINDOW_SECS }),
    decreases signals.len(),
{
    if signals.len() > 0 {
        let shorter = signals.drop_last();
        lemma_signals_keep_monitoring(before, shorter);
        lemma_signal_is_confirmation(before, signals.last());
        assert forall|k: int| 0 <= k < signals.len() implies #[trigger] asked_at(
            before,
            signals,
            k,
        ) == (Action::AwaitSignal { window_secs: LIVENESS_WINDOW_SECS }) by {
            if k < shorter.len() {
                assert(signals.take(k) =~= shorter.take(k));
                assert(asked_at(before, shorter, k) == asked_at(before, signals, k));
            } else {
                assert(signals.take(k) =~= shorter);
                lemma_signal_is_confirmation(before, signals[k]);
            }
        }
    } else {
        assert(signals.take(0) =~= signals);
    }
}

/// The monitor's policy over a whole sequence of waits: with a signal in
/// every window the controller still monitors, unchanged; once one window
/// has elapsed in silence it has failed with `LivenessTimeout`, whatever is
/// reported afterwards.
pub proof fn lemma_monitor_policy(before: ControllerView, waits: Seq<Event>)
    requires
        before.state == BringupState::Monitoring,
        forall|k: int|
            0 <= k < waits.len() ==> is_signal(#[trigger] waits[k]) || waits[k]
                == Event::WindowElapsed,
    ensures
        (forall|k: int| 0 <= k < waits.len() ==> is_signal(#[trigger] waits[k])) ==> run(
            before,
            waits,
        ) == before,
        (exists|k: int| 0 <= k < waits.len() && #[trigger] waits[k] == Event::WindowElapsed)
            ==> run(before, waits).state == BringupState::Failed(FatalError::LivenessTimeout),
    decreases waits.len(),
{
    if waits.len() > 0 {
        let shorter = waits.drop_last();
        lemma_monitor_policy(before, shorter);
        if forall|k: int| 0 <= k < shorter.len() ==> is_signal(#[trigger] shorter[k]) {
            lemma_signals_keep_monitoring(before, shorter);
            if is_signal(waits.last()) {
                assert forall|k: int| 0 <= k < waits.len() implies is_signal(
                    #[trigger] waits[k],
                ) by {
                    if k < shorter.len() {
                        assert(waits[k] == shorter[k]);
                    }
                }
            }
        } else {
            let k = choose|k: int| 0 <= k < shorter.len() && !is_signal(#[trigger] shorter[k]);
            assert(waits[k] == shorter[k]);
            assert(shorter[k] == Event::WindowElapsed);
        }
    }
}

/// The connectivity probe is asked for only once the interface is ready: the
/// event that triggers it is the success of the blocking wait for an address,
/// and the event before that is the success of the blocking start.
pub proof fn lemma_probe_only_after_readiness(events: Seq<Event>, i: int)
    requires
        0 <= i < events.len(),
        asked_at(initial(), events, i) is Probe,
    ensures
        i >= 1,
        events[i - 1] == Event::Started,
        events[i] == Event::ReadyConfirmed,
        run(initial(), events.take(i)).state == BringupState::AwaitingLease,
        run(initial(), events.take(i + 1)).state == BringupState::Ready,
{
    assert(events.take(i).last() == events[i - 1]);
    lemma_run_extends(initial(), events, i);
}

/// The connectivity probe is asked for at most once in a run.
pub proof fn lemma_probe_at_most_once(events: Seq<Event>, i: int, j: int)
    requires
        0 <= i < events.len(),
        0 <= j < events.len(),
        asked_at(initial(), events, i) is Probe,
        asked_at(initial(), events, j) is Probe,
    ensures
        i == j,
{
    lemma_probe_only_after_readiness(events, i);
    lemma_probe_only_after_readiness(events, j);
    if i < j {
        lemma_progress_is_monotone(initial(), events, i + 1, j);
    } else if j < i {
        lemma_progress_is_monotone(initial(), events, j + 1, i);
    }
}

/// Every failure is final: once failed, the controller stays failed with the
/// same cause and asks for nothing but termination.
pub proof fn lemma_failure_is_final(before: ControllerView, events: Seq<Event>)
    requires
        before.state is Failed,
    ensures
        run(before, events) == before,
        forall|k: int|
            0 <= k < events.len() ==> #[trigger] asked_at(before, events, k) == Action::Terminate(
                before.state->Failed_0,
            ),
    decreases events.len(),
{
    if events.len() > 0 {
        let shorter = events.drop_last();
        lemma_failure_is_final(before, shorter);
        assert forall|k: int| 0 <= k < events.len() implies #[trigger] asked_at(
            before,
            events,
            k,
        ) == Action::Terminate(before.state->Failed_0) by {
            if k < shorter.len() {
                assert(events.take(k) =~= shorter.take(k));
                assert(asked_at(before, shorter, k) == asked_at(before, events, k));
            } else {
                assert(events.take(k) =~= shorter);
            }
        }
    }
}

} // verus!
