//! Whole runs of a supervisor: what holds of every series of events, however
//! long, and not only of one step.

use crate::signal::SignalEvent;
use crate::supervisor::{
    lemma_relay_forwards_to_child, relay_effects, Effect, Event, Phase, Supervisor,
};
use vstd::prelude::*;

verus! {

/// The supervisor after a series of events, each taken in by one step.
pub open spec fn run(start: Supervisor, events: Seq<Event>) -> Supervisor
    decreases events.len(),
{
    if events.len() == 0 {
        start
    } else {
        run(start, events.drop_last()).next(events.last())
    }
}

/// The effects of a series of events, in the order in which the steps hand
/// them out.
pub open spec fn run_effects(start: Supervisor, events: Seq<Event>) -> Seq<Effect>
    decreases events.len(),
{
    if events.len() == 0 {
        Seq::empty()
    } else {
        run_effects(start, events.drop_last()) + run(start, events.drop_last()).effects(
            events.last(),
        )
    }
}

/// Whether the supervisor is ready at the start or after some event of the
/// series.
pub open spec fn reaches_ready(start: Supervisor, events: Seq<Event>) -> bool
    decreases events.len(),
{
    if events.len() == 0 {
        start.phase is Ready
    } else {
        reaches_ready(start, events.drop_last()) || run(start, events).phase is Ready
    }
}

/// How many of the effects notify readiness.
pub open spec fn notifications(effects: Seq<Effect>) -> nat {
    effects.filter(|effect: Effect| effect is Notify).len()
}

/// The phases of startup: those before the first probe has succeeded and
/// before the child has been seen to exit.
pub open spec fn in_startup(phase: Phase) -> bool {
    phase is Sleeping || phase is ProbeStarting || phase is Racing || phase is ProbeReaping
}

/// The phases that can follow readiness.
pub open spec fn past_startup(phase: Phase) -> bool {
    phase is Ready || phase == (Phase::ChildReaping { in_flight: None }) || phase is ChildExited
}

/// Notifications add up over effects that follow one another.
pub proof fn lemma_notifications_add(first: Seq<Effect>, second: Seq<Effect>)
    ensures
        notifications(first + second) == notifications(first) + notifications(second),
{
    Seq::filter_distributes_over_add(first, second, |effect: Effect| effect is Notify);
}

/// A single effect counts as one notification if it notifies readiness, and
/// as none if it does anything else.
pub proof fn lemma_notifications_of_one(effect: Effect)
    ensures
        notifications(seq![effect]) == if effect is Notify {
            1nat
        } else {
            0nat
        },
        notifications(Seq::<Effect>::empty()) == 0,
{
    let wanted = |effect: Effect| effect is Notify;
    let none = Seq::<Effect>::empty();
    reveal(Seq::filter);
    none.lemma_filter_push(effect, wanted);
}

/// Relaying a batch notifies nothing.
pub proof fn lemma_relay_notifies_nothing(
    batch: Seq<SignalEvent>,
    exit_signal: i32,
    child: u32,
)
    ensures
        notifications(relay_effects(batch, exit_signal, child)) == 0,
{
    let effects = relay_effects(batch, exit_signal, child);
    let wanted = |effect: Effect| effect is Notify;
    lemma_relay_forwards_to_child(batch, exit_signal, child);
    assert forall|i: int| 0 <= i < effects.len() implies !wanted(#[trigger] effects[i]) by {}
    effects.lemma_all_neg_filter_empty(wanted);
}

/// The step that makes a supervisor ready: the status of a probe comes in,
/// and it is success.
pub open spec fn becomes_ready(supervisor: Supervisor, event: Event) -> bool {
    supervisor.phase is ProbeReaping && event == (Event::ProbeReaped { success: true })
}

/// One step notifies readiness exactly when it makes the supervisor ready;
/// every other step notifies nothing.
pub proof fn lemma_step_notifies_on_becoming_ready(supervisor: Supervisor, event: Event)
    ensures
        notifications(supervisor.effects(event)) == if becomes_ready(supervisor, event) {
            1nat
        } else {
            0nat
        },
{
    lemma_notifications_of_one(Effect::Notify);
    match (supervisor.phase, event) {
        (Phase::Sleeping { .. }, Event::SleepInterrupted { pending, .. }) => {
            lemma_relay_notifies_nothing(pending@, supervisor.exit_signal, supervisor.child);
        },
        (Phase::Racing { .. }, Event::Signals { batch }) => {
            lemma_relay_notifies_nothing(batch@, supervisor.exit_signal, supervisor.child);
        },
        (Phase::Ready, Event::Signals { batch }) => {
            lemma_relay_notifies_nothing(batch@, supervisor.exit_signal, supervisor.child);
        },
        (Phase::ChildReaping { in_flight: Some(pid) }, Event::ChildReaped { .. }) => {
            lemma_notifications_of_one(Effect::TerminateProbe { pid });
        },
        _ => {},
    }
}

/// Only the success of a probe makes a supervisor ready, and it always does;
/// and no step leads from readiness, or from the exit of the child, back into
/// startup.
pub proof fn lemma_step_order(supervisor: Supervisor, event: Event)
    ensures
        becomes_ready(supervisor, event) ==> supervisor.next(event).phase is Ready,
        supervisor.next(event).phase is Ready ==> supervisor.phase is Ready || becomes_ready(
            supervisor,
            event,
        ),
        past_startup(supervisor.phase) ==> past_startup(supervisor.next(event).phase),
{
}

/// Readiness is notified exactly once in the life of a supervisor, when a
/// probe first succeeds: over any series of events that starts in startup,
/// there is one notification if the supervisor ever becomes ready and none if
/// it does not. In particular a child that exits during startup is never
/// reported ready.
pub proof fn lemma_notified_once_when_ready(start: Supervisor, events: Seq<Event>)
    requires
        in_startup(start.phase),
    ensures
        notifications(run_effects(start, events)) == if reaches_ready(start, events) {
            1nat
        } else {
            0nat
        },
        reaches_ready(start, events) ==> past_startup(run(start, events).phase),
        !reaches_ready(start, events) ==> !(run(start, events).phase is Ready),
    decreases events.len(),
{
    if events.len() == 0 {
        lemma_notifications_of_one(Effect::Notify);
    } else {
        let earlier = events.drop_last();
        let before = run(start, earlier);
        lemma_notified_once_when_ready(start, earlier);
        lemma_step_notifies_on_becoming_ready(before, events.last());
        lemma_step_order(before, events.last());
        lemma_notifications_add(run_effects(start, earlier), before.effects(events.last()));
    }
}

/// Once ready, a supervisor probes no more: whatever events follow, it stays
/// ready until the child exits, and it never sleeps towards a probe, launches
/// one or waits for one again.
pub proof fn lemma_ready_probes_no_more(start: Supervisor, events: Seq<Event>)
    requires
        past_startup(start.phase),
    ensures
        past_startup(run(start, events).phase),
        !in_startup(run(start, events).phase),
    decreases events.len(),
{
    if events.len() > 0 {
        lemma_ready_probes_no_more(start, events.drop_last());
        lemma_step_order(run(start, events.drop_last()), events.last());
    }
}

/// A run never changes whom the supervisor supervises, nor the kind of
/// signal that it reads as the exit of a child.
pub proof fn lemma_run_keeps_the_child(start: Supervisor, events: Seq<Event>)
    ensures
        run(start, events).child == start.child,
        run(start, events).exit_signal == start.exit_signal,
    decreases events.len(),
{
    if events.len() > 0 {
        lemma_run_keeps_the_child(start, events.drop_last());
    }
}

} // verus!
