//! The supervision state machine.
//!
//! A supervisor owns no process and performs no system call. It is driven:
//! the driver performs the request of the current phase, reports what came of
//! it as an event, and carries out the effects that the step hands back, in
//! their order. What the supervisor decides is thereby a function of the
//! events alone.

use crate::signal::{
    batch_reports_exit, exit_reported, lemma_relayed_empty, lemma_relayed_push, relay, relayed,
    SignalEvent,
};
use vstd::prelude::*;

verus! {

/// The delay that elapses before each health probe, in nanoseconds.
pub const PROBE_INTERVAL: u64 = 1_000_000_000;

/// The exit code that stands for a child whose own is unavailable.
pub const FALLBACK_EXIT_CODE: i32 = 1;

/// Where supervision stands.
#[derive(Clone, Copy, Debug, PartialEq, Eq)]
pub enum Phase {
    /// Counting down the rest of the delay before the next probe.
    Sleeping { remaining: u64 },
    /// The delay has elapsed and a probe is to be launched.
    ProbeStarting,
    /// A probe is in flight; its exit races the exit of the child.
    Racing { probe: u32 },
    /// The probe in flight has exited and its status is being collected.
    ProbeReaping { probe: u32 },
    /// A probe has succeeded. From here on signals are relayed until the
    /// child exits, and no probe is launched again.
    Ready,
    /// The child has exited and its status is being collected; `in_flight`
    /// is the probe that was in flight when it did.
    ChildReaping { in_flight: Option<u32> },
    /// The child has exited; `code` is the exit code of the whole.
    ChildExited { code: i32 },
}

/// What the driver is to do next. Each request but `Exit` is answered by an
/// event.
#[derive(Clone, Copy, Debug, PartialEq, Eq)]
pub enum Request {
    /// Sleep for this long; a sleep cut short by a signal reports what was
    /// left of it, together with the signals pending at that moment.
    Sleep { nanos: u64 },
    /// Launch the health probe, without the readiness address in its
    /// environment.
    SpawnProbe,
    /// Block until signals are pending, and report them as one batch.
    AwaitSignals,
    /// Wait for the probe to exit and report whether it succeeded.
    ReapProbe { pid: u32 },
    /// Wait for the child to exit and report its exit code.
    ReapChild,
    /// Exit with this code.
    Exit { code: i32 },
}

/// Something for the driver to carry out before it turns to the next request.
/// A failure in carrying it out is ignored.
#[derive(Clone, Copy, Debug, PartialEq, Eq)]
pub enum Effect {
    /// Send a signal of this kind to the process `pid`.
    Forward { pid: u32, signal: i32 },
    /// Send the terminate signal to the probe `pid`, and wait for its exit.
    TerminateProbe { pid: u32 },
    /// Send the readiness message.
    Notify,
}

/// What came of a request.
#[derive(Debug, PartialEq, Eq)]
pub enum Event {
    /// The sleep lasted its whole time.
    SleepElapsed,
    /// The sleep was cut short with `remaining` nanoseconds left, and
    /// `pending` is the batch of signals drained then.
    SleepInterrupted { remaining: u64, pending: Vec<SignalEvent> },
    /// The probe runs as process `pid`.
    ProbeSpawned { pid: u32 },
    /// The probe could not be launched.
    ProbeSpawnFailed,
    /// A batch of signals was delivered.
    Signals { batch: Vec<SignalEvent> },
    /// The probe has been reaped.
    ProbeReaped { success: bool },
    /// The child has been reaped; `code` is `None` where it left no exit
    /// code, as when a signal ended it.
    ChildReaped { code: Option<i32> },
}

/// An event that does not answer the request of the current phase.
#[derive(Clone, Copy, Debug, PartialEq, Eq)]
pub struct Rejected {
    /// The request that was waiting for its answer.
    pub awaiting: Request,
}

/// The exit code of the whole, given that of the child.
pub open spec fn exit_code_of(code: Option<i32>) -> i32 {
    match code {
        Some(c) => c,
        None => FALLBACK_EXIT_CODE,
    }
}

/// The effects that pass the signals of these kinds on to the process `pid`.
pub open spec fn forwards(kinds: Seq<i32>, pid: u32) -> Seq<Effect> {
    kinds.map_values(|signal: i32| Effect::Forward { pid, signal })
}

/// What a batch of signals asks for while the child is alive: each signal
/// that is not of the child-exit kind goes to the child.
pub open spec fn relay_effects(batch: Seq<SignalEvent>, exit_signal: i32, child: u32) -> Seq<
    Effect,
> {
    forwards(relayed(batch, exit_signal), child)
}

/// The supervisor of one child: the child's process id, the kind of signal
/// by which the platform reports the exit of a child process, and the phase.
#[derive(Clone, Copy, Debug, PartialEq, Eq)]
pub struct Supervisor {
    pub child: u32,
    pub exit_signal: i32,
    pub phase: Phase,
}

impl Supervisor {
    /// The request that the driver is to perform in this phase.
    pub open spec fn awaiting(self) -> Request {
        match self.phase {
            Phase::Sleeping { remaining } => Request::Sleep { nanos: remaining },
            Phase::ProbeStarting => Request::SpawnProbe,
            Phase::Racing { .. } => Request::AwaitSignals,
            Phase::ProbeReaping { probe } => Request::ReapProbe { pid: probe },
            Phase::Ready => Request::AwaitSignals,
            Phase::ChildReaping { .. } => Request::ReapChild,
            Phase::ChildExited { code } => Request::Exit { code },
        }
    }

    /// The supervisor is done: the child has exited.
    pub open spec fn is_terminal(self) -> bool {
        self.phase is ChildExited
    }

    /// The event answers the request of this phase.
    pub open spec fn accepts(self, event: Event) -> bool {
        match (self.phase, event) {
            (Phase::Sleeping { .. }, Event::SleepElapsed) => true,
            (Phase::Sleeping { .. }, Event::SleepInterrupted { .. }) => true,
            (Phase::ProbeStarting, Event::ProbeSpawned { .. }) => true,
            (Phase::ProbeStarting, Event::ProbeSpawnFailed) => true,
            (Phase::Racing { .. }, Event::Signals { .. }) => true,
            (Phase::ProbeReaping { .. }, Event::ProbeReaped { .. }) => true,
            (Phase::Ready, Event::Signals { .. }) => true,
            (Phase::ChildReaping { .. }, Event::ChildReaped { .. }) => true,
            _ => false,
        }
    }

    /// The batch reports that the supervised child has exited.
    pub open spec fn child_exit_in(self, batch: Seq<SignalEvent>) -> bool {
        exit_reported(batch, self.exit_signal, self.child)
    }

    /// The phase that follows on an event. An event that is not accepted
    /// changes nothing.
    ///
    /// A batch of signals is read as a whole, and the exit of the child is
    /// looked for first: where the batch reports it, nothing else in the batch
    /// counts, neither the exit of the probe nor a signal to pass on.
    pub open spec fn next_phase(self, event: Event) -> Phase {
        match (self.phase, event) {
            (Phase::Sleeping { .. }, Event::SleepElapsed) => Phase::ProbeStarting,
            (Phase::Sleeping { .. }, Event::SleepInterrupted { remaining, pending }) => {
                if self.child_exit_in(pending@) {
                    Phase::ChildReaping { in_flight: None }
                } else {
                    Phase::Sleeping { remaining }
                }
            },
            (Phase::ProbeStarting, Event::ProbeSpawned { pid }) => Phase::Racing { probe: pid },
            (Phase::ProbeStarting, Event::ProbeSpawnFailed) => Phase::Sleeping {
                remaining: PROBE_INTERVAL,
            },
            (Phase::Racing { probe }, Event::Signals { batch }) => {
                if self.child_exit_in(batch@) {
                    Phase::ChildReaping { in_flight: Some(probe) }
                } else if exit_reported(batch@, self.exit_signal, probe) {
                    Phase::ProbeReaping { probe }
                } else {
                    Phase::Racing { probe }
                }
            },
            (Phase::ProbeReaping { .. }, Event::ProbeReaped { success }) => {
                if success {
                    Phase::Ready
                } else {
                    Phase::Sleeping { remaining: PROBE_INTERVAL }
                }
            },
            (Phase::Ready, Event::Signals { batch }) => {
                if self.child_exit_in(batch@) {
                    Phase::ChildReaping { in_flight: None }
                } else {
                    Phase::Ready
                }
            },
            (Phase::ChildReaping { .. }, Event::ChildReaped { code }) => Phase::ChildExited {
                code: exit_code_of(code),
            },
            _ => self.phase,
        }
    }

    /// The effects of an event, in the order in which they are to be carried
    /// out. An event that is not accepted has none.
    pub open spec fn effects(self, event: Event) -> Seq<Effect> {
        match (self.phase, event) {
            (Phase::Sleeping { .. }, Event::SleepInterrupted { pending, .. }) => {
                if self.child_exit_in(pending@) {
                    Seq::empty()
                } else {
                    relay_effects(pending@, self.exit_signal, self.child)
                }
            },
            (Phase::Racing { .. }, Event::Signals { batch }) => {
                if self.child_exit_in(batch@) {
                    Seq::empty()
                } else {
                    relay_effects(batch@, self.exit_signal, self.child)
                }
            },
            (Phase::Ready, Event::Signals { batch }) => {
                if self.child_exit_in(batch@) {
                    Seq::empty()
                } else {
                    relay_effects(batch@, self.exit_signal, self.child)
                }
            },
            (Phase::ProbeReaping { .. }, Event::ProbeReaped { success }) => {
                if success {
                    seq![Effect::Notify]
                } else {
                    Seq::empty()
                }
            },
            (Phase::ChildReaping { in_flight: Some(pid) }, Event::ChildReaped { .. }) => {
                seq![Effect::TerminateProbe { pid }]
            },
            _ => Seq::empty(),
        }
    }

    /// The supervisor after an event.
    pub open spec fn next(self, event: Event) -> Supervisor {
        Supervisor { child: self.child, exit_signal: self.exit_signal, phase: self.next_phase(event) }
    }

    /// The supervisor at the start: the first probe is one whole delay away.
    pub open spec fn initial(child: u32, exit_signal: i32) -> Supervisor {
        Supervisor { child, exit_signal, phase: Phase::Sleeping { remaining: PROBE_INTERVAL } }
    }

    /// Start supervising the child with process id `child`, on a platform
    /// that reports the exit of child processes by signals of the kind
    /// `exit_signal`.
    pub fn new(child: u32, exit_signal: i32) -> (supervisor: Supervisor)
        ensures
            supervisor == Supervisor::initial(child, exit_signal),
    {
        Supervisor { child, exit_signal, phase: Phase::Sleeping { remaining: PROBE_INTERVAL } }
    }

    /// The request to perform now.
    pub fn request(&self) -> (request: Request)
        ensures
            request == self.awaiting(),
    {
        match self.phase {
            Phase::Sleeping { remaining } => Request::Sleep { nanos: remaining },
            Phase::ProbeStarting => Request::SpawnProbe,
            Phase::Racing { .. } => Request::AwaitSignals,
            Phase::ProbeReaping { probe } => Request::ReapProbe { pid: probe },
            Phase::Ready => Request::AwaitSignals,
            Phase::ChildReaping { .. } => Request::ReapChild,
            Phase::ChildExited { code } => Request::Exit { code },
        }
    }

    /// Take in what came of the current request and move to the next phase.
    /// The result holds the effects to carry out before the next request.
    ///
    /// An event that does not answer the current request is rejected and
    /// leaves the supervisor as it was.
    pub fn step(&mut self, event: Event) -> (res: Result<Vec<Effect>, Rejected>)
        ensures
            *final(self) == old(self).next(event),
            match res {
                Ok(effects) => old(self).accepts(event) && effects@ == old(self).effects(event),
                Err(rejected) => !old(self).accepts(event) && rejected.awaiting == old(
                    self,
                ).awaiting(),
            },
    {
        match (self.phase, event) {
            (Phase::Sleeping { .. }, Event::SleepElapsed) => {
                self.phase = Phase::ProbeStarting;
                Ok(Vec::new())
            },
            (Phase::Sleeping { .. }, Event::SleepInterrupted { remaining, pending }) => {
                if batch_reports_exit(&pending, self.exit_signal, self.child) {
                    self.phase = Phase::ChildReaping { in_flight: None };
                    Ok(Vec::new())
                } else {
                    self.phase = Phase::Sleeping { remaining };
                    Ok(relay_to(&pending, self.exit_signal, self.child))
                }
            },
            (Phase::ProbeStarting, Event::ProbeSpawned { pid }) => {
                self.phase = Phase::Racing { probe: pid };
                Ok(Vec::new())
            },
            (Phase::ProbeStarting, Event::ProbeSpawnFailed) => {
                self.phase = Phase::Sleeping { remaining: PROBE_INTERVAL };
                Ok(Vec::new())
            },
            (Phase::Racing { probe }, Event::Signals { batch }) => {
                if batch_reports_exit(&batch, self.exit_signal, self.child) {
                    self.phase = Phase::ChildReaping { in_flight: Some(probe) };
                    Ok(Vec::new())
                } else {
                    if batch_reports_exit(&batch, self.exit_signal, probe) {
                        self.phase = Phase::ProbeReaping { probe };
                    }
                    Ok(relay_to(&batch, self.exit_signal, self.child))
                }
            },
            (Phase::ProbeReaping { .. }, Event::ProbeReaped { success }) => {
                if success {
                    self.phase = Phase::Ready;
                    Ok(vec![Effect::Notify])
                } else {
                    self.phase = Phase::Sleeping { remaining: PROBE_INTERVAL };
                    Ok(Vec::new())
                }
            },
            (Phase::Ready, Event::Signals { batch }) => {
                if batch_reports_exit(&batch, self.exit_signal, self.child) {
                    self.phase = Phase::ChildReaping { in_flight: None };
                    Ok(Vec::new())
                } else {
                    Ok(relay_to(&batch, self.exit_signal, self.child))
                }
            },
            (Phase::ChildReaping { in_flight }, Event::ChildReaped { code }) => {
                self.phase = Phase::ChildExited { code: exit_code(code) };
                match in_flight {
                    Some(pid) => Ok(vec![Effect::TerminateProbe { pid }]),
                    None => Ok(Vec::new()),
                }
            },
            _ => Err(Rejected { awaiting: self.request() }),
        }
    }
}

/// The exit code of the whole: that of the child, or the fallback where the
/// child left none.
pub fn exit_code(code: Option<i32>) -> (overall: i32)
    ensures
        overall == exit_code_of(code),
{
    match code {
        Some(c) => c,
        None => FALLBACK_EXIT_CODE,
    }
}

/// The effects by which a batch of signals is relayed to the child.
pub fn relay_to(batch: &Vec<SignalEvent>, exit_signal: i32, child: u32) -> (effects: Vec<Effect>)
    ensures
        effects@ == relay_effects(batch@, exit_signal, child),
{
    let kinds = relay(batch, exit_signal);
    let mut effects: Vec<Effect> = Vec::new();
    let mut i: usize = 0;
    while i < kinds.len()
        invariant
            i <= kinds.len(),
            effects@ == forwards(kinds@.take(i as int), child),
        decreases kinds.len() - i,
    {
        effects.push(Effect::Forward { pid: child, signal: kinds[i] });
        i += 1;
    }
    effects
}

/// Relaying treats every delivery on its own: the effects of two batches
/// taken together are those of the first followed by those of the second.
pub proof fn lemma_relay_concat(
    first: Seq<SignalEvent>,
    second: Seq<SignalEvent>,
    exit_signal: i32,
    child: u32,
)
    ensures
        relay_effects(first + second, exit_signal, child) == relay_effects(
            first,
            exit_signal,
            child,
        ) + relay_effects(second, exit_signal, child),
{
    let keep = |event: SignalEvent| event.signal != exit_signal;
    Seq::filter_distributes_over_add(first, second, keep);
    assert(relay_effects(first + second, exit_signal, child) =~= relay_effects(
        first,
        exit_signal,
        child,
    ) + relay_effects(second, exit_signal, child));
}

/// Relaying forwards, and only forwards: there is one effect for each signal
/// of the batch that is not of the child-exit kind, and each sends a signal
/// to the child and to no other process, never one of the child-exit kind.
pub proof fn lemma_relay_forwards_to_child(batch: Seq<SignalEvent>, exit_signal: i32, child: u32)
    ensures
        relay_effects(batch, exit_signal, child).len() == batch.filter(
            |event: SignalEvent| event.signal != exit_signal,
        ).len(),
        forall|i: int|
            #![trigger relay_effects(batch, exit_signal, child)[i]]
            0 <= i < relay_effects(batch, exit_signal, child).len() ==> {
                let kind = relayed(batch, exit_signal)[i];
                &&& kind != exit_signal
                &&& relay_effects(batch, exit_signal, child)[i] == (Effect::Forward {
                    pid: child,
                    signal: kind,
                })
            },
{
    let keep = |event: SignalEvent| event.signal != exit_signal;
    assert forall|i: int| 0 <= i < batch.filter(keep).len() implies keep(
        #[trigger] batch.filter(keep)[i],
    ) by {
        batch.lemma_filter_pred(keep, i);
    }
}

/// One signal that is not of the child-exit kind, delivered while a batch is
/// taken in, is forwarded to the child exactly once and moves the supervisor
/// nowhere: a sleep goes on with what was left of it, a race stays a race,
/// and a ready supervisor stays ready.
pub proof fn lemma_other_signal_is_forwarded_once(
    supervisor: Supervisor,
    event: Event,
    signal: SignalEvent,
)
    requires
        signal.signal != supervisor.exit_signal,
        supervisor.accepts(event),
        match event {
            Event::SleepInterrupted { pending, .. } => pending@ == seq![signal],
            Event::Signals { batch } => batch@ == seq![signal],
            _ => false,
        },
    ensures
        supervisor.effects(event) == seq![
            Effect::Forward { pid: supervisor.child, signal: signal.signal },
        ],
        match event {
            Event::SleepInterrupted { remaining, .. } => supervisor.next_phase(event)
                == (Phase::Sleeping { remaining }),
            _ => supervisor.next_phase(event) == supervisor.phase,
        },
{
    let batch = seq![signal];
    lemma_relayed_empty(supervisor.exit_signal);
    lemma_relayed_push(Seq::<SignalEvent>::empty(), signal, supervisor.exit_signal);
    assert(relay_effects(batch, supervisor.exit_signal, supervisor.child) =~= seq![
        Effect::Forward { pid: supervisor.child, signal: signal.signal },
    ]);
}

/// The exit of the child wins a race. A batch that reports it moves a racing
/// supervisor to collecting the child's status, with no effect at all,
/// whether or not the same batch reports the exit of the probe too. When the
/// status is in, the probe is terminated, nothing else happens, and the
/// supervisor ends with the child's exit code: readiness is not notified.
pub proof fn lemma_child_exit_wins(
    supervisor: Supervisor,
    probe: u32,
    batch: Vec<SignalEvent>,
    code: Option<i32>,
)
    requires
        supervisor.phase == (Phase::Racing { probe }),
        supervisor.child_exit_in(batch@),
    ensures
        supervisor.accepts(Event::Signals { batch }),
        supervisor.next_phase(Event::Signals { batch }) == (Phase::ChildReaping {
            in_flight: Some(probe),
        }),
        supervisor.effects(Event::Signals { batch }) == Seq::<Effect>::empty(),
        supervisor.next(Event::Signals { batch }).accepts(Event::ChildReaped { code }),
        supervisor.next(Event::Signals { batch }).next_phase(Event::ChildReaped { code }) == (
        Phase::ChildExited { code: exit_code_of(code) }),
        supervisor.next(Event::Signals { batch }).effects(Event::ChildReaped { code }) == seq![
            Effect::TerminateProbe { pid: probe },
        ],
{
}

/// A probe that exits with success while the child lives makes the
/// supervisor ready. The batch that reports the probe's exit, and not the
/// child's, is relayed and moves a racing supervisor to collecting the
/// probe's status; a status of success then moves it to `Ready`, and the one
/// effect of that step is the notification of readiness.
pub proof fn lemma_probe_success_makes_ready(
    supervisor: Supervisor,
    probe: u32,
    batch: Vec<SignalEvent>,
)
    requires
        supervisor.phase == (Phase::Racing { probe }),
        !supervisor.child_exit_in(batch@),
        exit_reported(batch@, supervisor.exit_signal, probe),
    ensures
        supervisor.next_phase(Event::Signals { batch }) == (Phase::ProbeReaping { probe }),
        supervisor.effects(Event::Signals { batch }) == relay_effects(
            batch@,
            supervisor.exit_signal,
            supervisor.child,
        ),
        supervisor.next(Event::Signals { batch }).accepts(Event::ProbeReaped { success: true }),
        supervisor.next(Event::Signals { batch }).next_phase(Event::ProbeReaped { success: true })
            == Phase::Ready,
        supervisor.next(Event::Signals { batch }).effects(Event::ProbeReaped { success: true })
            == seq![Effect::Notify],
{
}

/// A probe that cannot be launched, or that exits without success, sends the
/// supervisor back to sleep for one whole delay, with no effect.
pub proof fn lemma_failed_probe_restarts_the_delay(supervisor: Supervisor, event: Event)
    requires
        supervisor.accepts(event),
        event == Event::ProbeSpawnFailed || event == (Event::ProbeReaped { success: false }),
    ensures
        supervisor.next_phase(event) == (Phase::Sleeping { remaining: PROBE_INTERVAL }),
        supervisor.next(event).awaiting() == (Request::Sleep { nanos: PROBE_INTERVAL }),
        supervisor.effects(event) == Seq::<Effect>::empty(),
{
}

/// A child that leaves no exit code, as one that a signal ended, makes the
/// whole exit with the fallback code 1; a child that leaves one passes it on.
pub proof fn lemma_exit_code_of_the_whole(supervisor: Supervisor, code: Option<i32>)
    requires
        supervisor.phase is ChildReaping,
    ensures
        exit_code_of(None) == 1,
        code matches Some(c) ==> exit_code_of(code) == c,
        supervisor.accepts(Event::ChildReaped { code }),
        supervisor.next_phase(Event::ChildReaped { code }) == (Phase::ChildExited {
            code: exit_code_of(code),
        }),
        supervisor.next(Event::ChildReaped { code }).awaiting() == (Request::Exit {
            code: exit_code_of(code),
        }),
{
}

/// Once the child has exited the supervisor is done: it accepts no event.
pub proof fn lemma_exited_is_final(supervisor: Supervisor, event: Event)
    requires
        supervisor.is_terminal(),
    ensures
        !supervisor.accepts(event),
        supervisor.next(event) == supervisor,
        supervisor.effects(event) == Seq::<Effect>::empty(),
{
}

/// An event that is not accepted changes nothing and has no effect.
pub proof fn lemma_rejected_changes_nothing(supervisor: Supervisor, event: Event)
    requires
        !supervisor.accepts(event),
    ensures
        supervisor.next(event) == supervisor,
        supervisor.effects(event) == Seq::<Effect>::empty(),
{
}

} // verus!
