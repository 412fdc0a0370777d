use sidecar_supervisor::config::{Mode, SupervisionConfig};
use sidecar_supervisor::supervisor::{replay, Action, Event, Phase, ReadinessOutcome, Supervisor};

fn production() -> SupervisionConfig {
    SupervisionConfig::standard("/opt/app/api-server/index.js".to_string(), Mode::Production)
}

fn polling(failures: usize, then_ready: bool) -> Vec<Event> {
    let mut es = vec![Event::Start, Event::Spawned];
    for _ in 0..failures {
        es.push(Event::DelayElapsed);
        es.push(Event::ProbeFailed);
    }
    if then_ready {
        es.push(Event::DelayElapsed);
        es.push(Event::ProbeSucceeded);
    }
    es
}

fn count(actions: &[Action], wanted: fn(&Action) -> bool) -> usize {
    actions.iter().filter(|a| wanted(a)).count()
}

fn total_wait(actions: &[Action]) -> u64 {
    actions
        .iter()
        .map(|a| match a {
            Action::Wait { millis } => *millis,
            _ => 0,
        })
        .sum()
}

#[test]
fn development_mode_is_skipped_without_spawning() {
    let mut cfg = SupervisionConfig::standard("missing.js".to_string(), Mode::Development);
    cfg.poll_attempts = 3;
    let mut sup = Supervisor::new(cfg);
    let a = sup.handle(&Event::Start);
    assert_eq!(a, Action::Finish { outcome: ReadinessOutcome::Skipped });
    assert_eq!(sup.phase, Phase::Finished { outcome: ReadinessOutcome::Skipped });
    assert!(matches!(sup.result(), Some(Ok(ReadinessOutcome::Skipped))));
    // Later reports change nothing.
    assert_eq!(sup.handle(&Event::Spawned), Action::Ignore);
    assert_eq!(sup.handle(&Event::DelayElapsed), Action::Ignore);
}

#[test]
fn development_mode_never_asks_for_a_spawn() {
    let cfg = SupervisionConfig::standard("x".to_string(), Mode::Development);
    let (sup, actions) = replay(cfg, &polling(4, true));
    assert_eq!(count(&actions, |a| matches!(a, Action::Spawn)), 0);
    assert_eq!(count(&actions, |a| matches!(a, Action::Probe)), 0);
    assert_eq!(sup.phase, Phase::Finished { outcome: ReadinessOutcome::Skipped });
}

#[test]
fn production_start_asks_for_one_spawn() {
    let mut sup = Supervisor::new(production());
    assert!(sup.result().is_none());
    assert_eq!(sup.handle(&Event::Start), Action::Spawn);
    assert_eq!(sup.phase, Phase::Spawning);
    assert_eq!(sup.handle(&Event::Start), Action::Ignore);
    assert_eq!(sup.handle(&Event::Spawned), Action::Wait { millis: 500 });
}

#[test]
fn missing_entry_gives_spawn_error_and_no_polling() {
    let events = vec![
        Event::Start,
        Event::SpawnFailed { reason: "No such file or directory".to_string() },
        Event::DelayElapsed,
        Event::ProbeSucceeded,
    ];
    let (sup, actions) = replay(production(), &events);
    assert_eq!(
        actions,
        vec![Action::Spawn, Action::ReportSpawnFailure, Action::Ignore, Action::Ignore]
    );
    assert_eq!(sup.phase, Phase::SpawnFailed);
    match sup.result() {
        Some(Err(e)) => assert_eq!(e.reason, "No such file or directory"),
        other => panic!("expected a spawn error, got {:?}", other),
    }
}

#[test]
fn ready_on_third_attempt_after_one_and_a_half_seconds() {
    let (sup, actions) = replay(production(), &polling(2, true));
    assert_eq!(sup.phase, Phase::Finished { outcome: ReadinessOutcome::Ready });
    assert!(matches!(sup.result(), Some(Ok(ReadinessOutcome::Ready))));
    assert_eq!(count(&actions, |a| matches!(a, Action::Probe)), 3);
    assert_eq!(total_wait(&actions), 1500);
    assert_eq!(*actions.last().unwrap(), Action::Finish { outcome: ReadinessOutcome::Ready });
}

#[test]
fn listener_before_first_probe_is_ready_at_once() {
    let (sup, actions) = replay(production(), &polling(0, true));
    assert_eq!(sup.phase, Phase::Finished { outcome: ReadinessOutcome::Ready });
    assert_eq!(
        actions,
        vec![
            Action::Spawn,
            Action::Wait { millis: 500 },
            Action::Probe,
            Action::Finish { outcome: ReadinessOutcome::Ready },
        ]
    );
}

#[test]
fn never_listening_times_out_after_thirty_probes() {
    let (sup, actions) = replay(production(), &polling(30, false));
    assert_eq!(sup.phase, Phase::Finished { outcome: ReadinessOutcome::TimedOutContinuing });
    assert!(matches!(sup.result(), Some(Ok(ReadinessOutcome::TimedOutContinuing))));
    assert_eq!(count(&actions, |a| matches!(a, Action::Probe)), 30);
    assert_eq!(count(&actions, |a| matches!(a, Action::Wait { .. })), 30);
    assert_eq!(total_wait(&actions), 15000);
}

#[test]
fn still_waiting_before_the_budget_is_spent() {
    let (sup, _) = replay(production(), &polling(29, false));
    assert_eq!(sup.phase, Phase::Waiting { attempts_made: 29 });
    assert!(sup.result().is_none());
}

#[test]
fn probes_after_the_budget_are_ignored() {
    let (sup, actions) = replay(production(), &polling(35, true));
    assert_eq!(sup.phase, Phase::Finished { outcome: ReadinessOutcome::TimedOutContinuing });
    assert_eq!(count(&actions, |a| matches!(a, Action::Probe)), 30);
    assert_eq!(count(&actions, |a| matches!(a, Action::Spawn)), 1);
}

#[test]
fn zero_attempts_times_out_right_after_spawn() {
    let mut cfg = production();
    cfg.poll_attempts = 0;
    let (sup, actions) = replay(cfg, &polling(0, false));
    assert_eq!(
        actions,
        vec![Action::Spawn, Action::Finish { outcome: ReadinessOutcome::TimedOutContinuing }]
    );
    assert_eq!(sup.phase, Phase::Finished { outcome: ReadinessOutcome::TimedOutContinuing });
}

#[test]
fn custom_interval_is_used_for_every_pause() {
    let mut cfg = production();
    cfg.poll_attempts = 4;
    cfg.poll_interval_ms = 250;
    let (sup, actions) = replay(cfg, &polling(4, false));
    assert_eq!(sup.phase, Phase::Finished { outcome: ReadinessOutcome::TimedOutContinuing });
    assert_eq!(total_wait(&actions), 1000);
}

#[test]
fn events_out_of_order_are_ignored() {
    let mut sup = Supervisor::new(production());
    assert_eq!(sup.handle(&Event::ProbeSucceeded), Action::Ignore);
    assert_eq!(sup.handle(&Event::DelayElapsed), Action::Ignore);
    assert_eq!(sup.phase, Phase::NotStarted);
    sup.handle(&Event::Start);
    sup.handle(&Event::Spawned);
    assert_eq!(sup.handle(&Event::ProbeFailed), Action::Ignore);
    assert_eq!(sup.phase, Phase::Waiting { attempts_made: 0 });
    assert_eq!(sup.handle(&Event::DelayElapsed), Action::Probe);
    assert_eq!(sup.handle(&Event::DelayElapsed), Action::Ignore);
    assert_eq!(sup.handle(&Event::ProbeFailed), Action::Wait { millis: 500 });
    assert_eq!(sup.phase, Phase::Waiting { attempts_made: 1 });
}
