use health_notify::signal::SignalEvent;
use health_notify::supervisor::{
    exit_code, relay_to, Effect, Event, Phase, Rejected, Request, Supervisor,
    FALLBACK_EXIT_CODE, PROBE_INTERVAL,
};

const SIGCHLD: i32 = 17;
const SIGTERM: i32 = 15;
const SIGINT: i32 = 2;
const SIGUSR1: i32 = 10;
const CHILD: u32 = 100;
const PROBE: u32 = 200;

fn exit_of(pid: u32) -> SignalEvent {
    SignalEvent { signal: SIGCHLD, process: Some(pid as i32) }
}

fn plain(signal: i32) -> SignalEvent {
    SignalEvent { signal, process: None }
}

fn forward(signal: i32) -> Effect {
    Effect::Forward { pid: CHILD, signal }
}

fn racing(probe: u32) -> Supervisor {
    let mut supervisor = Supervisor::new(CHILD, SIGCHLD);
    assert_eq!(supervisor.step(Event::SleepElapsed), Ok(vec![]));
    assert_eq!(supervisor.step(Event::ProbeSpawned { pid: probe }), Ok(vec![]));
    assert_eq!(supervisor.phase, Phase::Racing { probe });
    supervisor
}

fn ready() -> Supervisor {
    let mut supervisor = racing(PROBE);
    assert_eq!(supervisor.step(Event::Signals { batch: vec![exit_of(PROBE)] }), Ok(vec![]));
    assert_eq!(supervisor.step(Event::ProbeReaped { success: true }), Ok(vec![Effect::Notify]));
    assert_eq!(supervisor.phase, Phase::Ready);
    supervisor
}

#[test]
fn starts_asleep_for_one_interval() {
    let supervisor = Supervisor::new(CHILD, SIGCHLD);
    assert_eq!(PROBE_INTERVAL, 1_000_000_000);
    assert_eq!(supervisor.child, CHILD);
    assert_eq!(supervisor.exit_signal, SIGCHLD);
    assert_eq!(supervisor.phase, Phase::Sleeping { remaining: PROBE_INTERVAL });
    assert_eq!(supervisor.request(), Request::Sleep { nanos: PROBE_INTERVAL });
}

#[test]
fn request_follows_the_phase() {
    let mut supervisor = Supervisor::new(CHILD, SIGCHLD);
    supervisor.phase = Phase::Sleeping { remaining: 5 };
    assert_eq!(supervisor.request(), Request::Sleep { nanos: 5 });
    supervisor.phase = Phase::ProbeStarting;
    assert_eq!(supervisor.request(), Request::SpawnProbe);
    supervisor.phase = Phase::Racing { probe: PROBE };
    assert_eq!(supervisor.request(), Request::AwaitSignals);
    supervisor.phase = Phase::ProbeReaping { probe: PROBE };
    assert_eq!(supervisor.request(), Request::ReapProbe { pid: PROBE });
    supervisor.phase = Phase::Ready;
    assert_eq!(supervisor.request(), Request::AwaitSignals);
    supervisor.phase = Phase::ChildReaping { in_flight: Some(PROBE) };
    assert_eq!(supervisor.request(), Request::ReapChild);
    supervisor.phase = Phase::ChildExited { code: 3 };
    assert_eq!(supervisor.request(), Request::Exit { code: 3 });
}

#[test]
fn elapsed_sleep_starts_a_probe() {
    let mut supervisor = Supervisor::new(CHILD, SIGCHLD);
    assert_eq!(supervisor.step(Event::SleepElapsed), Ok(vec![]));
    assert_eq!(supervisor.phase, Phase::ProbeStarting);
    assert_eq!(supervisor.request(), Request::SpawnProbe);
}

#[test]
fn interrupted_sleep_relays_and_keeps_what_is_left() {
    let mut supervisor = Supervisor::new(CHILD, SIGCHLD);
    let event = Event::SleepInterrupted {
        remaining: 400_000_000,
        pending: vec![plain(SIGTERM), exit_of(999), plain(SIGUSR1)],
    };
    assert_eq!(supervisor.step(event), Ok(vec![forward(SIGTERM), forward(SIGUSR1)]));
    assert_eq!(supervisor.phase, Phase::Sleeping { remaining: 400_000_000 });
    assert_eq!(supervisor.request(), Request::Sleep { nanos: 400_000_000 });
}

#[test]
fn interrupted_sleep_with_nothing_pending_goes_on_sleeping() {
    let mut supervisor = Supervisor::new(CHILD, SIGCHLD);
    let event = Event::SleepInterrupted { remaining: 1, pending: vec![] };
    assert_eq!(supervisor.step(event), Ok(vec![]));
    assert_eq!(supervisor.request(), Request::Sleep { nanos: 1 });
}

#[test]
fn child_exit_while_sleeping() {
    let mut supervisor = Supervisor::new(CHILD, SIGCHLD);
    let event = Event::SleepInterrupted {
        remaining: 400_000_000,
        pending: vec![plain(SIGTERM), exit_of(CHILD)],
    };
    assert_eq!(supervisor.step(event), Ok(vec![]));
    assert_eq!(supervisor.phase, Phase::ChildReaping { in_flight: None });
    assert_eq!(supervisor.request(), Request::ReapChild);
    assert_eq!(supervisor.step(Event::ChildReaped { code: Some(7) }), Ok(vec![]));
    assert_eq!(supervisor.phase, Phase::ChildExited { code: 7 });
    assert_eq!(supervisor.request(), Request::Exit { code: 7 });
}

#[test]
fn probe_that_cannot_be_launched_is_retried_after_the_interval() {
    let mut supervisor = Supervisor::new(CHILD, SIGCHLD);
    let cut = Event::SleepInterrupted { remaining: 10, pending: vec![] };
    assert_eq!(supervisor.step(cut), Ok(vec![]));
    assert_eq!(supervisor.step(Event::SleepElapsed), Ok(vec![]));
    assert_eq!(supervisor.step(Event::ProbeSpawnFailed), Ok(vec![]));
    assert_eq!(supervisor.phase, Phase::Sleeping { remaining: PROBE_INTERVAL });
    assert_eq!(supervisor.request(), Request::Sleep { nanos: PROBE_INTERVAL });
}

#[test]
fn child_dies_during_probe() {
    let mut supervisor = racing(PROBE);
    let mut effects = Vec::new();
    let batch = vec![exit_of(CHILD)];
    effects.extend(supervisor.step(Event::Signals { batch }).unwrap());
    assert_eq!(supervisor.request(), Request::ReapChild);
    effects.extend(supervisor.step(Event::ChildReaped { code: Some(3) }).unwrap());
    assert_eq!(supervisor.phase, Phase::ChildExited { code: 3 });
    assert_eq!(supervisor.request(), Request::Exit { code: 3 });
    assert_eq!(effects, vec![Effect::TerminateProbe { pid: PROBE }]);
    assert!(!effects.contains(&Effect::Notify));
}

#[test]
fn child_exit_wins_over_probe_success_in_one_batch() {
    for batch in [
        vec![exit_of(PROBE), exit_of(CHILD)],
        vec![exit_of(CHILD), exit_of(PROBE)],
        vec![plain(SIGTERM), exit_of(PROBE), plain(SIGINT), exit_of(CHILD)],
    ] {
        let mut supervisor = racing(PROBE);
        assert_eq!(supervisor.step(Event::Signals { batch }), Ok(vec![]));
        assert_eq!(supervisor.phase, Phase::ChildReaping { in_flight: Some(PROBE) });
        assert_eq!(
            supervisor.step(Event::ChildReaped { code: Some(0) }),
            Ok(vec![Effect::TerminateProbe { pid: PROBE }])
        );
        assert_eq!(supervisor.phase, Phase::ChildExited { code: 0 });
    }
}

#[test]
fn probe_succeeds() {
    let mut supervisor = racing(PROBE);
    let mut effects = Vec::new();
    let batch = vec![exit_of(PROBE)];
    effects.extend(supervisor.step(Event::Signals { batch }).unwrap());
    assert_eq!(supervisor.phase, Phase::ProbeReaping { probe: PROBE });
    assert_eq!(supervisor.request(), Request::ReapProbe { pid: PROBE });
    effects.extend(supervisor.step(Event::ProbeReaped { success: true }).unwrap());
    assert_eq!(supervisor.phase, Phase::Ready);
    assert_eq!(effects, vec![Effect::Notify]);
    // The steady-state relay then runs.
    assert_eq!(supervisor.request(), Request::AwaitSignals);
    let batch = vec![plain(SIGTERM)];
    effects.extend(supervisor.step(Event::Signals { batch }).unwrap());
    effects.extend(supervisor.step(Event::Signals { batch: vec![exit_of(CHILD)] }).unwrap());
    effects.extend(supervisor.step(Event::ChildReaped { code: Some(0) }).unwrap());
    assert_eq!(effects, vec![Effect::Notify, forward(SIGTERM)]);
    assert_eq!(effects.iter().filter(|effect| **effect == Effect::Notify).count(), 1);
    assert_eq!(supervisor.request(), Request::Exit { code: 0 });
}

#[test]
fn probe_retry() {
    let mut supervisor = Supervisor::new(CHILD, SIGCHLD);
    let mut phases = vec![supervisor.phase];
    let mut effects = Vec::new();
    for (round, success) in [false, false, true].into_iter().enumerate() {
        let probe = PROBE + round as u32;
        assert_eq!(supervisor.request(), Request::Sleep { nanos: PROBE_INTERVAL });
        effects.extend(supervisor.step(Event::SleepElapsed).unwrap());
        assert_eq!(supervisor.request(), Request::SpawnProbe);
        effects.extend(supervisor.step(Event::ProbeSpawned { pid: probe }).unwrap());
        phases.push(supervisor.phase);
        let batch = vec![exit_of(probe)];
        effects.extend(supervisor.step(Event::Signals { batch }).unwrap());
        assert_eq!(supervisor.request(), Request::ReapProbe { pid: probe });
        effects.extend(supervisor.step(Event::ProbeReaped { success }).unwrap());
        phases.push(supervisor.phase);
    }
    assert_eq!(
        phases,
        vec![
            Phase::Sleeping { remaining: PROBE_INTERVAL },
            Phase::Racing { probe: PROBE },
            Phase::Sleeping { remaining: PROBE_INTERVAL },
            Phase::Racing { probe: PROBE + 1 },
            Phase::Sleeping { remaining: PROBE_INTERVAL },
            Phase::Racing { probe: PROBE + 2 },
            Phase::Ready,
        ]
    );
    assert_eq!(effects, vec![Effect::Notify]);
}

#[test]
fn signal_forwarding_while_sleeping() {
    let mut supervisor = Supervisor::new(CHILD, SIGCHLD);
    let event = Event::SleepInterrupted { remaining: 123, pending: vec![plain(SIGINT)] };
    assert_eq!(supervisor.step(event), Ok(vec![forward(SIGINT)]));
    assert_eq!(supervisor.phase, Phase::Sleeping { remaining: 123 });
}

#[test]
fn signal_forwarding_while_racing() {
    let mut supervisor = racing(PROBE);
    let event = Event::Signals { batch: vec![SignalEvent { signal: SIGINT, process: Some(1) }] };
    assert_eq!(supervisor.step(event), Ok(vec![forward(SIGINT)]));
    assert_eq!(supervisor.phase, Phase::Racing { probe: PROBE });
    assert_eq!(supervisor.request(), Request::AwaitSignals);
}

#[test]
fn signal_forwarding_while_ready() {
    let mut supervisor = ready();
    let event = Event::Signals { batch: vec![plain(SIGUSR1)] };
    assert_eq!(supervisor.step(event), Ok(vec![forward(SIGUSR1)]));
    assert_eq!(supervisor.phase, Phase::Ready);
}

#[test]
fn signals_go_to_the_child_and_never_to_the_probe() {
    let mut supervisor = racing(PROBE);
    let batch = vec![plain(SIGTERM), plain(SIGTERM), SignalEvent { signal: SIGINT, process: Some(PROBE as i32) }];
    let effects = supervisor.step(Event::Signals { batch }).unwrap();
    assert_eq!(effects, vec![forward(SIGTERM), forward(SIGTERM), forward(SIGINT)]);
    for effect in effects {
        assert!(matches!(effect, Effect::Forward { pid: CHILD, .. }));
    }
}

#[test]
fn exit_signals_of_strangers_are_neither_forwarded_nor_acted_on() {
    let mut supervisor = racing(PROBE);
    let batch = vec![exit_of(1), SignalEvent { signal: SIGCHLD, process: None }];
    assert_eq!(supervisor.step(Event::Signals { batch }), Ok(vec![]));
    assert_eq!(supervisor.phase, Phase::Racing { probe: PROBE });
    let mut supervisor = ready();
    let batch = vec![exit_of(PROBE), exit_of(1)];
    assert_eq!(supervisor.step(Event::Signals { batch }), Ok(vec![]));
    assert_eq!(supervisor.phase, Phase::Ready);
}

#[test]
fn probe_exit_batch_still_relays_its_other_signals() {
    let mut supervisor = racing(PROBE);
    let batch = vec![plain(SIGTERM), exit_of(PROBE), plain(SIGINT)];
    assert_eq!(
        supervisor.step(Event::Signals { batch }),
        Ok(vec![forward(SIGTERM), forward(SIGINT)])
    );
    assert_eq!(supervisor.phase, Phase::ProbeReaping { probe: PROBE });
}

#[test]
fn failed_probe_goes_back_to_sleep() {
    let mut supervisor = racing(PROBE);
    assert_eq!(supervisor.step(Event::Signals { batch: vec![exit_of(PROBE)] }), Ok(vec![]));
    assert_eq!(supervisor.step(Event::ProbeReaped { success: false }), Ok(vec![]));
    assert_eq!(supervisor.phase, Phase::Sleeping { remaining: PROBE_INTERVAL });
}

#[test]
fn unavailable_exit_code() {
    assert_eq!(FALLBACK_EXIT_CODE, 1);
    assert_eq!(exit_code(None), 1);
    let mut supervisor = ready();
    assert_eq!(supervisor.step(Event::Signals { batch: vec![exit_of(CHILD)] }), Ok(vec![]));
    assert_eq!(supervisor.step(Event::ChildReaped { code: None }), Ok(vec![]));
    assert_eq!(supervisor.phase, Phase::ChildExited { code: 1 });
    assert_eq!(supervisor.request(), Request::Exit { code: 1 });
}

#[test]
fn available_exit_code_is_passed_on() {
    assert_eq!(exit_code(Some(0)), 0);
    assert_eq!(exit_code(Some(1)), 1);
    assert_eq!(exit_code(Some(-9)), -9);
    assert_eq!(exit_code(Some(i32::MAX)), i32::MAX);
}

#[test]
fn unavailable_exit_code_during_a_race() {
    let mut supervisor = racing(PROBE);
    assert_eq!(supervisor.step(Event::Signals { batch: vec![exit_of(CHILD)] }), Ok(vec![]));
    assert_eq!(
        supervisor.step(Event::ChildReaped { code: None }),
        Ok(vec![Effect::TerminateProbe { pid: PROBE }])
    );
    assert_eq!(supervisor.phase, Phase::ChildExited { code: 1 });
}

#[test]
fn events_that_answer_no_request_are_rejected() {
    let mut supervisor = Supervisor::new(CHILD, SIGCHLD);
    let before = supervisor;
    let awaiting = Request::Sleep { nanos: PROBE_INTERVAL };
    assert_eq!(supervisor.step(Event::ProbeSpawnFailed), Err(Rejected { awaiting }));
    assert_eq!(supervisor.step(Event::ProbeSpawned { pid: 1 }), Err(Rejected { awaiting }));
    assert_eq!(supervisor.step(Event::Signals { batch: vec![] }), Err(Rejected { awaiting }));
    assert_eq!(supervisor.step(Event::ProbeReaped { success: true }), Err(Rejected { awaiting }));
    assert_eq!(supervisor.step(Event::ChildReaped { code: None }), Err(Rejected { awaiting }));
    assert_eq!(supervisor, before);

    let mut supervisor = racing(PROBE);
    let before = supervisor;
    let awaiting = Request::AwaitSignals;
    assert_eq!(supervisor.step(Event::SleepElapsed), Err(Rejected { awaiting }));
    assert_eq!(supervisor.step(Event::ProbeReaped { success: true }), Err(Rejected { awaiting }));
    assert_eq!(supervisor.step(Event::ChildReaped { code: Some(0) }), Err(Rejected { awaiting }));
    assert_eq!(supervisor, before);
}

#[test]
fn an_exited_supervisor_accepts_nothing() {
    let mut supervisor = Supervisor::new(CHILD, SIGCHLD);
    supervisor.phase = Phase::ChildExited { code: 4 };
    let awaiting = Request::Exit { code: 4 };
    for event in [
        Event::SleepElapsed,
        Event::SleepInterrupted { remaining: 0, pending: vec![plain(SIGTERM)] },
        Event::ProbeSpawned { pid: PROBE },
        Event::ProbeSpawnFailed,
        Event::Signals { batch: vec![plain(SIGTERM)] },
        Event::ProbeReaped { success: true },
        Event::ChildReaped { code: Some(0) },
    ] {
        assert_eq!(supervisor.step(event), Err(Rejected { awaiting }));
        assert_eq!(supervisor.phase, Phase::ChildExited { code: 4 });
    }
}

#[test]
fn ready_supervisor_never_probes_again() {
    let mut supervisor = ready();
    for _ in 0..3 {
        let batch = vec![plain(SIGTERM), exit_of(PROBE)];
        assert_eq!(supervisor.step(Event::Signals { batch }), Ok(vec![forward(SIGTERM)]));
        assert_eq!(supervisor.request(), Request::AwaitSignals);
    }
    assert!(supervisor.step(Event::SleepElapsed).is_err());
    assert!(supervisor.step(Event::ProbeSpawned { pid: 1 }).is_err());
    assert_eq!(supervisor.phase, Phase::Ready);
}

#[test]
fn relay_to_addresses_the_given_child() {
    let batch = vec![plain(SIGTERM), exit_of(5), plain(SIGINT)];
    assert_eq!(
        relay_to(&batch, SIGCHLD, 77),
        vec![Effect::Forward { pid: 77, signal: SIGTERM }, Effect::Forward { pid: 77, signal: SIGINT }]
    );
    assert_eq!(relay_to(&Vec::new(), SIGCHLD, 77), vec![]);
}
