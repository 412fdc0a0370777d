//! The supervisor's decisions, as a state machine driven by the host.
//!
//! The host performs each [`Action`] (spawning, sleeping, probing) and hands
//! back what came of it as an [`Event`]. The machine never blocks and never
//! does I/O itself, so every decision below is checked for every event order.
use vstd::prelude::*;
use crate::config::{Mode, SupervisionConfig};

verus! {

/// How a supervision run ended, when it did not fail to spawn.
#[derive(Clone, Copy, Debug, PartialEq, Eq, Structural)]
pub enum ReadinessOutcome {
    /// A probe reached the server.
    Ready,
    /// Every probe failed; the host carries on as if the server may come up later.
    TimedOutContinuing,
    /// Development mode: the server is managed outside the shell.
    Skipped,
}

/// The server process could not be created. This is the only hard failure.
#[derive(Clone, Debug)]
pub struct SpawnError {
    pub reason: String,
}

/// Where a supervision run stands.
#[derive(Clone, Copy, Debug, PartialEq, Eq, Structural)]
pub enum Phase {
    NotStarted,
    /// The process is being created.
    Spawning,
    /// Pausing before probe number `attempts_made + 1`.
    Waiting { attempts_made: u32 },
    /// Probe number `attempts_made + 1` is in flight.
    Probing { attempts_made: u32 },
    Finished { outcome: ReadinessOutcome },
    SpawnFailed,
}

/// What the host reports back to the supervisor.
#[derive(Clone, Debug)]
pub enum Event {
    /// The host asks for supervision to begin.
    Start,
    /// The process was created; its output relays are attached.
    Spawned,
    /// The process could not be created.
    SpawnFailed { reason: String },
    /// The pause asked for by [`Action::Wait`] is over.
    DelayElapsed,
    /// A connection to the readiness address was opened (and closed again).
    ProbeSucceeded,
    /// A connection to the readiness address could not be opened.
    ProbeFailed,
}

/// What the supervisor asks the host to do next.
#[derive(Clone, Copy, Debug, PartialEq, Eq, Structural)]
pub enum Action {
    /// Start the configuration's launch command with piped output, then
    /// attach a relay to each output stream.
    Spawn,
    /// Sleep for this many milliseconds.
    Wait { millis: u64 },
    /// Try one TCP connection to the readiness address.
    Probe,
    /// Supervision is over with this outcome; the process keeps running.
    Finish { outcome: ReadinessOutcome },
    /// Supervision is over: hand the spawn error to the caller.
    ReportSpawnFailure,
    /// The event does not belong to the current phase; nothing to do.
    Ignore,
}

/// A phase is consistent with the retry policy.
pub open spec fn phase_wf(cfg: SupervisionConfig, p: Phase) -> bool {
    match p {
        Phase::Waiting { attempts_made } => attempts_made < cfg.poll_attempts,
        Phase::Probing { attempts_made } => attempts_made < cfg.poll_attempts,
        _ => true,
    }
}

/// After `made` failed probes: pause before the next one, or give up when
/// the budget is spent.
pub open spec fn poll_or_give_up(cfg: SupervisionConfig, made: int) -> (Phase, Action) {
    if made < cfg.poll_attempts {
        (Phase::Waiting { attempts_made: made as u32 }, Action::Wait { millis: cfg.poll_interval_ms })
    } else {
        (
            Phase::Finished { outcome: ReadinessOutcome::TimedOutContinuing },
            Action::Finish { outcome: ReadinessOutcome::TimedOutContinuing },
        )
    }
}

/// One transition: the next phase and the action for the host.
pub open spec fn step_spec(cfg: SupervisionConfig, p: Phase, e: Event) -> (Phase, Action) {
    match p {
        Phase::NotStarted => match e {
            Event::Start => if cfg.mode == Mode::Development {
                (
                    Phase::Finished { outcome: ReadinessOutcome::Skipped },
                    Action::Finish { outcome: ReadinessOutcome::Skipped },
                )
            } else {
                (Phase::Spawning, Action::Spawn)
            },
            _ => (p, Action::Ignore),
        },
        Phase::Spawning => match e {
            Event::Spawned => poll_or_give_up(cfg, 0),
            Event::SpawnFailed { .. } => (Phase::SpawnFailed, Action::ReportSpawnFailure),
            _ => (p, Action::Ignore),
        },
        Phase::Waiting { attempts_made } => match e {
            Event::DelayElapsed => (Phase::Probing { attempts_made }, Action::Probe),
            _ => (p, Action::Ignore),
        },
        Phase::Probing { attempts_made } => match e {
            Event::ProbeSucceeded => (
                Phase::Finished { outcome: ReadinessOutcome::Ready },
                Action::Finish { outcome: ReadinessOutcome::Ready },
            ),
            Event::ProbeFailed => poll_or_give_up(cfg, attempts_made + 1),
            _ => (p, Action::Ignore),
        },
        _ => (p, Action::Ignore),
    }
}

/// The phase reached from `p` after the events in order, and the actions
/// handed to the host on the way.
pub open spec fn run(cfg: SupervisionConfig, p: Phase, es: Seq<Event>) -> (Phase, Seq<Action>)
    decreases es.len(),
{
    if es.len() == 0 {
        (p, Seq::empty())
    } else {
        let prev = run(cfg, p, es.drop_last());
        let next = step_spec(cfg, prev.0, es.last());
        (next.0, prev.1.push(next.1))
    }
}

/// The supervisor of one run: its configuration and where it stands.
#[derive(Clone, Debug)]
pub struct Supervisor {
    pub config: SupervisionConfig,
    pub phase: Phase,
    /// Why the spawn failed, once it has.
    pub spawn_error: Option<SpawnError>,
}

impl Supervisor {
    pub open spec fn wf(&self) -> bool {
        &&& phase_wf(self.config, self.phase)
        &&& (self.phase is SpawnFailed <==> self.spawn_error is Some)
    }

    /// A supervisor that has not started yet.
    pub fn new(config: SupervisionConfig) -> (r: Supervisor)
        ensures
            r.wf(),
            r.config == config,
            r.phase == Phase::NotStarted,
    {
        Supervisor { config, phase: Phase::NotStarted, spawn_error: None }
    }

    fn poll_or_give_up(&self, made: u32) -> (r: (Phase, Action))
        requires
            made <= self.config.poll_attempts,
        ensures
            r == poll_or_give_up(self.config, made as int),
    {
        if made < self.config.poll_attempts {
            (Phase::Waiting { attempts_made: made }, Action::Wait { millis: self.config.poll_interval_ms })
        } else {
            (
                Phase::Finished { outcome: ReadinessOutcome::TimedOutContinuing },
                Action::Finish { outcome: ReadinessOutcome::TimedOutContinuing },
            )
        }
    }

    /// Takes one event and says what the host must do next.
    pub fn handle(&mut self, e: &Event) -> (a: Action)
        requires
            old(self).wf(),
        ensures
            final(self).wf(),
            final(self).config == old(self).config,
            (final(self).phase, a) == step_spec(old(self).config, old(self).phase, *e),
            match e {
                Event::SpawnFailed { reason } => old(self).phase is Spawning ==> (
                    final(self).spawn_error matches Some(err) && err.reason@ == reason@),
                _ => true,
            },
            !(old(self).phase is Spawning) ==> final(self).spawn_error == old(self).spawn_error,
    {
        let (next, action) = match self.phase {
            Phase::NotStarted => match e {
                Event::Start => if self.config.needs_supervision() {
                    (Phase::Spawning, Action::Spawn)
                } else {
                    (
                        Phase::Finished { outcome: ReadinessOutcome::Skipped },
                        Action::Finish { outcome: ReadinessOutcome::Skipped },
                    )
                },
                _ => (self.phase, Action::Ignore),
            },
            Phase::Spawning => match e {
                Event::Spawned => self.poll_or_give_up(0),
                Event::SpawnFailed { reason } => {
                    self.spawn_error = Some(SpawnError { reason: reason.clone() });
                    (Phase::SpawnFailed, Action::ReportSpawnFailure)
                },
                _ => (self.phase, Action::Ignore),
            },
            Phase::Waiting { attempts_made } => match e {
                Event::DelayElapsed => (Phase::Probing { attempts_made }, Action::Probe),
                _ => (self.phase, Action::Ignore),
            },
            Phase::Probing { attempts_made } => match e {
                Event::ProbeSucceeded => (
                    Phase::Finished { outcome: ReadinessOutcome::Ready },
                    Action::Finish { outcome: ReadinessOutcome::Ready },
                ),
                Event::ProbeFailed => self.poll_or_give_up(attempts_made + 1),
                _ => (self.phase, Action::Ignore),
            },
            _ => (self.phase, Action::Ignore),
        };
        self.phase = next;
        action
    }

    /// The result of the run once it is over: the outcome, or the spawn error.
    pub fn result(&self) -> (r: Option<Result<ReadinessOutcome, SpawnError>>)
        requires
            self.wf(),
        ensures
            match self.phase {
                Phase::Finished { outcome } => r matches Some(Ok(o)) && o == outcome,
                Phase::SpawnFailed => r matches Some(Err(err))
                    && self.spawn_error matches Some(own) && err.reason@ == own.reason@,
                _ => r is None,
            },
    {
        match self.phase {
            Phase::Finished { outcome } => Some(Ok(outcome)),
            Phase::SpawnFailed => match &self.spawn_error {
                Some(err) => Some(Err(SpawnError { reason: err.reason.clone() })),
                None => None,
            },
            _ => None,
        }
    }
}

/// Runs a fresh supervisor over the events in order; returns it with the
/// actions it asked for.
pub fn replay(config: SupervisionConfig, events: &Vec<Event>) -> (r: (Supervisor, Vec<Action>))
    ensures
        r.0.wf(),
        r.0.config == config,
        r.0.phase == run(config, Phase::NotStarted, events@).0,
        r.1@ == run(config, Phase::NotStarted, events@).1,
{
    let ghost cfg = config;
    let mut sup = Supervisor::new(config);
    let mut actions: Vec<Action> = Vec::new();
    let mut i: usize = 0;
    while i < events.len()
        invariant
            i <= events@.len(),
            sup.wf(),
            sup.config == cfg,
            (sup.phase, actions@) == run(cfg, Phase::NotStarted, events@.subrange(0, i as int)),
        decreases events@.len() - i,
    {
        let a = sup.handle(&events[i]);
        actions.push(a);
        proof {
            let es = events@.subrange(0, i + 1);
            assert(es.drop_last() =~= events@.subrange(0, i as int));
            assert(es.last() == events@[i as int]);
        }
        i = i + 1;
    }
    assert(events@.subrange(0, events@.len() as int) =~= events@);
    (sup, actions)
}

/// How many times the host was asked to spawn the process.
pub open spec fn count_spawns(acts: Seq<Action>) -> nat
    decreases acts.len(),
{
    if acts.len() == 0 {
        0
    } else {
        count_spawns(acts.drop_last()) + if acts.last() is Spawn { 1nat } else { 0nat }
    }
}

/// How many readiness probes the host was asked to make.
pub open spec fn count_probes(acts: Seq<Action>) -> nat
    decreases acts.len(),
{
    if acts.len() == 0 {
        0
    } else {
        count_probes(acts.drop_last()) + if acts.last() is Probe { 1nat } else { 0nat }
    }
}

/// How many pauses the host was asked to make.
pub open spec fn count_waits(acts: Seq<Action>) -> nat
    decreases acts.len(),
{
    if acts.len() == 0 {
        0
    } else {
        count_waits(acts.drop_last()) + if acts.last() is Wait { 1nat } else { 0nat }
    }
}

/// The time the host was asked to sleep in all, in milliseconds.
pub open spec fn total_wait_ms(acts: Seq<Action>) -> nat
    decreases acts.len(),
{
    if acts.len() == 0 {
        0
    } else {
        total_wait_ms(acts.drop_last()) + match acts.last() {
            Action::Wait { millis } => millis as nat,
            _ => 0nat,
        }
    }
}

/// What holds after any sequence of events from the start: the counts of
/// spawns, pauses and probes that each phase implies.
pub open spec fn run_inv(cfg: SupervisionConfig, es: Seq<Event>, p: Phase, acts: Seq<Action>) -> bool {
    let spawns = count_spawns(acts);
    let probes = count_probes(acts);
    let waits = count_waits(acts);
    &&& phase_wf(cfg, p)
    &&& spawns <= 1
    &&& total_wait_ms(acts) == waits * cfg.poll_interval_ms
    &&& (p is NotStarted ==> spawns == 0 && forall|i: int| 0 <= i < es.len() ==> !(#[trigger] es[i] is Start))
    &&& (cfg.mode == Mode::Development ==> p is NotStarted || p == Phase::Finished { outcome: ReadinessOutcome::Skipped })
    &&& match p {
        Phase::NotStarted => probes == 0 && waits == 0,
        Phase::Spawning => probes == 0 && waits == 0,
        Phase::SpawnFailed => probes == 0 && waits == 0,
        Phase::Waiting { attempts_made } => waits == attempts_made + 1 && probes == attempts_made,
        Phase::Probing { attempts_made } => waits == attempts_made + 1 && probes == attempts_made + 1,
        Phase::Finished { outcome } => match outcome {
            ReadinessOutcome::Skipped => spawns == 0 && probes == 0 && waits == 0,
            ReadinessOutcome::Ready => waits == probes && 1 <= probes <= cfg.poll_attempts,
            ReadinessOutcome::TimedOutContinuing => waits == probes && probes == cfg.poll_attempts,
        },
    }
}

proof fn lemma_run_inv(cfg: SupervisionConfig, es: Seq<Event>)
    ensures
        run_inv(cfg, es, run(cfg, Phase::NotStarted, es).0, run(cfg, Phase::NotStarted, es).1),
    decreases es.len(),
{
    if es.len() > 0 {
        let prefix = es.drop_last();
        lemma_run_inv(cfg, prefix);
        let prev = run(cfg, Phase::NotStarted, prefix);
        let acts = run(cfg, Phase::NotStarted, es).1;
        assert(acts.drop_last() =~= prev.1);
        let waits = count_waits(prev.1);
        assert((waits + 1) * cfg.poll_interval_ms == waits * cfg.poll_interval_ms + cfg.poll_interval_ms)
            by (nonlinear_arith);
        if prev.0 is NotStarted {
            assert forall|i: int| 0 <= i < es.len() - 1 implies !(#[trigger] es[i] is Start) by {
                assert(prefix[i] == es[i]);
            }
        }
        let p = run(cfg, Phase::NotStarted, es).0;
        assert(run_inv(cfg, es, p, acts));
    } else {
        let r = run(cfg, Phase::NotStarted, es);
        assert(r.1 =~= Seq::<Action>::empty());
        assert(count_waits(r.1) == 0);
        assert(total_wait_ms(r.1) == 0);
        assert(count_spawns(r.1) == 0);
        assert(count_probes(r.1) == 0);
    }
}

/// Whatever the host reports, in any order: at most one process is ever
/// spawned, at most `poll_attempts` probes are made, each pause lasts
/// `poll_interval_ms`, a run that ends timed out has made exactly
/// `poll_attempts` probes, and one that ends ready has made at least one.
pub proof fn lemma_supervision_bounds(cfg: SupervisionConfig, es: Seq<Event>)
    ensures
        ({
            let (p, acts) = run(cfg, Phase::NotStarted, es);
            &&& count_spawns(acts) <= 1
            &&& count_probes(acts) <= cfg.poll_attempts
            &&& count_probes(acts) <= count_waits(acts)
            &&& total_wait_ms(acts) == count_waits(acts) * cfg.poll_interval_ms
            &&& (p == Phase::Finished { outcome: ReadinessOutcome::TimedOutContinuing } ==> {
                &&& count_probes(acts) == cfg.poll_attempts
                &&& count_waits(acts) == cfg.poll_attempts
                &&& total_wait_ms(acts) == cfg.poll_attempts * cfg.poll_interval_ms
            })
            &&& (p == Phase::Finished { outcome: ReadinessOutcome::Ready } ==> 1 <= count_probes(acts))
        }),
{
    lemma_run_inv(cfg, es);
}

/// In development mode the supervisor never spawns, sleeps or probes,
/// whatever the other settings and events; once started it is skipped.
pub proof fn lemma_development_is_skipped(cfg: SupervisionConfig, es: Seq<Event>)
    requires
        cfg.mode == Mode::Development,
    ensures
        ({
            let (p, acts) = run(cfg, Phase::NotStarted, es);
            &&& count_spawns(acts) == 0
            &&& count_probes(acts) == 0
            &&& count_waits(acts) == 0
            &&& (es.len() > 0 && es[0] is Start ==> p == Phase::Finished { outcome: ReadinessOutcome::Skipped })
        }),
{
    lemma_run_inv(cfg, es);
}

/// The events of a launch whose process was created.
pub open spec fn launched() -> Seq<Event> {
    seq![Event::Start, Event::Spawned]
}

/// The events of successive polling rounds: a pause, then a probe that
/// reached the server or not.
pub open spec fn poll_rounds(reached: Seq<bool>) -> Seq<Event>
    decreases reached.len(),
{
    if reached.len() == 0 {
        Seq::empty()
    } else {
        poll_rounds(reached.drop_last()).push(Event::DelayElapsed).push(
            if reached.last() { Event::ProbeSucceeded } else { Event::ProbeFailed },
        )
    }
}

proof fn lemma_run_push(cfg: SupervisionConfig, es: Seq<Event>, e: Event)
    ensures
        run(cfg, Phase::NotStarted, es.push(e)) == ({
            let prev = run(cfg, Phase::NotStarted, es);
            let next = step_spec(cfg, prev.0, e);
            (next.0, prev.1.push(next.1))
        }),
{
    assert(es.push(e).drop_last() =~= es);
}

proof fn lemma_launched(cfg: SupervisionConfig)
    requires
        cfg.mode == Mode::Production,
    ensures
        run(cfg, Phase::NotStarted, launched()).0 == poll_or_give_up(cfg, 0).0,
{
    let empty = Seq::<Event>::empty();
    assert(run(cfg, Phase::NotStarted, empty).0 is NotStarted);
    lemma_run_push(cfg, empty, Event::Start);
    lemma_run_push(cfg, empty.push(Event::Start), Event::Spawned);
    assert(empty.push(Event::Start).push(Event::Spawned) =~= launched());
}

proof fn lemma_failed_rounds(cfg: SupervisionConfig, reached: Seq<bool>)
    requires
        cfg.mode == Mode::Production,
        reached.len() <= cfg.poll_attempts,
        forall|i: int| 0 <= i < reached.len() ==> !#[trigger] reached[i],
    ensures
        run(cfg, Phase::NotStarted, launched() + poll_rounds(reached)).0 == poll_or_give_up(cfg, reached.len() as int).0,
    decreases reached.len(),
{
    if reached.len() == 0 {
        assert(launched() + poll_rounds(reached) =~= launched());
        lemma_launched(cfg);
    } else {
        let shorter = reached.drop_last();
        lemma_failed_rounds(cfg, shorter);
        let before = launched() + poll_rounds(shorter);
        let mid = before.push(Event::DelayElapsed);
        assert(!reached.last());
        assert(launched() + poll_rounds(reached) =~= mid.push(Event::ProbeFailed));
        lemma_run_push(cfg, before, Event::DelayElapsed);
        lemma_run_push(cfg, mid, Event::ProbeFailed);
    }
}

/// When the host reports a process created and then only failed probes, the
/// run is still waiting while the budget lasts, and ends timed out after
/// exactly `poll_attempts` probes, having slept `poll_interval_ms` before
/// each of them.
pub proof fn lemma_never_listening_times_out(cfg: SupervisionConfig, reached: Seq<bool>)
    requires
        cfg.mode == Mode::Production,
        reached.len() <= cfg.poll_attempts,
        forall|i: int| 0 <= i < reached.len() ==> !#[trigger] reached[i],
    ensures
        ({
            let (p, acts) = run(cfg, Phase::NotStarted, launched() + poll_rounds(reached));
            &&& reached.len() < cfg.poll_attempts ==> p == Phase::Waiting { attempts_made: reached.len() as u32 }
            &&& reached.len() == cfg.poll_attempts ==> {
                &&& p == Phase::Finished { outcome: ReadinessOutcome::TimedOutContinuing }
                &&& count_probes(acts) == cfg.poll_attempts
                &&& total_wait_ms(acts) == cfg.poll_attempts * cfg.poll_interval_ms
            }
        }),
{
    lemma_failed_rounds(cfg, reached);
    lemma_run_inv(cfg, launched() + poll_rounds(reached));
}

/// When the host reports a process created, `k` failed probes with `k`
/// below the budget, and then one that reached the server, the run ends
/// ready, having made `k + 1` probes.
pub proof fn lemma_listening_is_ready(cfg: SupervisionConfig, failed: Seq<bool>)
    requires
        cfg.mode == Mode::Production,
        failed.len() < cfg.poll_attempts,
        forall|i: int| 0 <= i < failed.len() ==> !#[trigger] failed[i],
    ensures
        ({
            let (p, acts) = run(cfg, Phase::NotStarted, launched() + poll_rounds(failed.push(true)));
            &&& p == Phase::Finished { outcome: ReadinessOutcome::Ready }
            &&& count_probes(acts) == failed.len() + 1
            &&& count_probes(acts) <= cfg.poll_attempts
        }),
{
    let before = launched() + poll_rounds(failed);
    let mid = before.push(Event::DelayElapsed);
    lemma_failed_rounds(cfg, failed);
    lemma_run_inv(cfg, before);
    assert(failed.push(true).drop_last() =~= failed);
    assert(launched() + poll_rounds(failed.push(true)) =~= mid.push(Event::ProbeSucceeded));
    lemma_run_push(cfg, before, Event::DelayElapsed);
    lemma_run_push(cfg, mid, Event::ProbeSucceeded);
    let acts = run(cfg, Phase::NotStarted, before).1;
    let a1 = acts.push(Action::Probe);
    let a2 = a1.push(Action::Finish { outcome: ReadinessOutcome::Ready });
    assert(a2.drop_last() =~= a1);
    assert(a1.drop_last() =~= acts);
    assert(count_probes(a1) == count_probes(acts) + 1);
    assert(count_probes(a2) == count_probes(a1));
}

/// When the process cannot be created, the run ends with the spawn failure
/// and no pause or probe is ever asked for, whatever the host reports after.
pub proof fn lemma_spawn_failure_is_final(cfg: SupervisionConfig, es: Seq<Event>)
    requires
        cfg.mode == Mode::Production,
        es.len() >= 2,
        es[0] is Start,
        es[1] is SpawnFailed,
    ensures
        ({
            let (p, acts) = run(cfg, Phase::NotStarted, es);
            &&& p is SpawnFailed
            &&& count_spawns(acts) == 1
            &&& count_probes(acts) == 0
            &&& count_waits(acts) == 0
        }),
    decreases es.len(),
{
    lemma_run_inv(cfg, es);
    let prefix = es.drop_last();
    assert(prefix.push(es.last()) =~= es);
    lemma_run_push(cfg, prefix, es.last());
    let acts = run(cfg, Phase::NotStarted, prefix).1;
    let last = step_spec(cfg, run(cfg, Phase::NotStarted, prefix).0, es.last()).1;
    assert(acts.push(last).drop_last() =~= acts);
    if es.len() == 2 {
        let empty = Seq::<Event>::empty();
        assert(empty.push(es[0]) =~= prefix);
        lemma_run_push(cfg, empty, es[0]);
        let a0 = Seq::<Action>::empty();
        assert(a0.push(Action::Spawn).drop_last() =~= a0);
        assert(acts == a0.push(Action::Spawn));
        assert(count_spawns(acts) == 1);
        assert(count_probes(acts) == 0);
        assert(count_waits(acts) == 0);
        assert(last == Action::ReportSpawnFailure);
    } else {
        lemma_spawn_failure_is_final(cfg, prefix);
        assert(prefix[0] == es[0]);
        assert(prefix[1] == es[1]);
        assert(last == Action::Ignore);
    }
    assert(count_spawns(acts.push(last)) == count_spawns(acts));
    assert(count_probes(acts.push(last)) == count_probes(acts));
    assert(count_waits(acts.push(last)) == count_waits(acts));
}

} // verus!
