use vstd::prelude::*;

use crate::health::{poll_step, step_spec, PollStep, MAX_ATTEMPTS, POLL_INTERVAL_MS};
use crate::text::{endpoint_text, endpoint_url, health_text, health_url, last_lines, tail_lines};

verus! {

/// How many lines of captured server output a timeout reports.
pub const TAIL_LINES: usize = 20;

/// Why a session failed, as handed to whoever renders it.
pub enum Diagnostic {
    /// The executable or the entry script is not where it was expected; nothing was spawned.
    ResourceMissing { executable_missing: bool, script_missing: bool },
    /// The OS refused to create the process; the text is its error.
    SpawnFailure { error: String },
    /// The server never became healthy; the last lines of its output.
    HealthTimeout { port: u16, tail: Vec<String> },
}

/// The one result a session delivers to its consumer.
pub enum ReadinessOutcome {
    Ready { url: String },
    Failed { diagnostic: Diagnostic },
}

/// What the coordinator waits for.
#[derive(Clone, Copy, Debug, PartialEq, Eq, Structural)]
pub enum Phase {
    /// Waiting for the check that the executable and the entry script exist.
    Start,
    /// Waiting for a port.
    AwaitPort,
    /// Waiting for the spawn on `port`.
    AwaitSpawn { port: u16 },
    /// Waiting for the kill guarantee to be installed.
    AwaitGuarantee { port: u16 },
    /// Polling health; `attempts` responses seen so far.
    Polling { port: u16, attempts: u32 },
    /// Timed out; waiting for the captured output.
    AwaitTail { port: u16 },
    /// The outcome has been emitted.
    Done,
}

/// What the world reports back to the coordinator.
pub enum Event {
    ResourcesChecked { executable: bool, script: bool },
    PortAllocated { port: u16 },
    Spawned,
    SpawnFailed { error: String },
    GuaranteeInstalled { ok: bool },
    HealthChecked { status: Option<u16> },
    OutputRead { lines: Vec<String> },
}

/// What the coordinator asks of the world next.
pub enum Action {
    AllocatePort,
    Spawn { port: u16 },
    InstallGuarantee,
    /// Wait `delay_ms`, then request `url` and report the status (or `None`).
    PollHealth { url: String, delay_ms: u64 },
    /// Read the lines of the captured server output.
    ReadOutput,
    /// Deliver the outcome to the consumer.
    Emit { outcome: ReadinessOutcome },
    /// The event did not fit the phase; nothing to do.
    Ignore,
}

/// The phase after `e` arrives in phase `p`.
pub open spec fn next_phase(p: Phase, e: Event) -> Phase {
    match (p, e) {
        (Phase::Start, Event::ResourcesChecked { executable, script }) => {
            if executable && script {
                Phase::AwaitPort
            } else {
                Phase::Done
            }
        },
        (Phase::AwaitPort, Event::PortAllocated { port }) => Phase::AwaitSpawn { port },
        (Phase::AwaitSpawn { port }, Event::Spawned) => Phase::AwaitGuarantee { port },
        (Phase::AwaitSpawn { .. }, Event::SpawnFailed { .. }) => Phase::Done,
        (Phase::AwaitGuarantee { port }, Event::GuaranteeInstalled { .. }) => Phase::Polling {
            port,
            attempts: 0,
        },
        (Phase::Polling { port, attempts }, Event::HealthChecked { status }) => {
            match step_spec(attempts as nat, status) {
                PollStep::Healthy => Phase::Done,
                PollStep::TimedOut => Phase::AwaitTail { port },
                PollStep::Retry => Phase::Polling { port, attempts: (attempts + 1) as u32 },
            }
        },
        (Phase::AwaitTail { .. }, Event::OutputRead { .. }) => Phase::Done,
        _ => p,
    }
}

/// An outcome is emitted exactly when an event ends the session.
pub open spec fn emits(p: Phase, e: Event) -> bool {
    p != Phase::Done && next_phase(p, e) == Phase::Done
}

/// The action that answers `e` in phase `p`.
pub open spec fn action_spec(p: Phase, e: Event, a: Action) -> bool {
    match (p, e) {
        (Phase::Start, Event::ResourcesChecked { executable, script }) => {
            if executable && script {
                a is AllocatePort
            } else {
                a == (Action::Emit {
                    outcome: ReadinessOutcome::Failed {
                        diagnostic: Diagnostic::ResourceMissing {
                            executable_missing: !executable,
                            script_missing: !script,
                        },
                    },
                })
            }
        },
        (Phase::AwaitPort, Event::PortAllocated { port }) => a == (Action::Spawn { port }),
        (Phase::AwaitSpawn { .. }, Event::Spawned) => a is InstallGuarantee,
        (Phase::AwaitSpawn { .. }, Event::SpawnFailed { error }) => a == (Action::Emit {
            outcome: ReadinessOutcome::Failed { diagnostic: Diagnostic::SpawnFailure { error } },
        }),
        (Phase::AwaitGuarantee { port }, Event::GuaranteeInstalled { .. }) => match a {
            Action::PollHealth { url, delay_ms } => url@ == health_text(port) && delay_ms == 0,
            _ => false,
        },
        (Phase::Polling { port, attempts }, Event::HealthChecked { status }) => {
            match step_spec(attempts as nat, status) {
                PollStep::Healthy => match a {
                    Action::Emit { outcome: ReadinessOutcome::Ready { url } } => url@
                        == endpoint_text(port),
                    _ => false,
                },
                PollStep::TimedOut => a is ReadOutput,
                PollStep::Retry => match a {
                    Action::PollHealth { url, delay_ms } => url@ == health_text(port) && delay_ms
                        == POLL_INTERVAL_MS,
                    _ => false,
                },
            }
        },
        (Phase::AwaitTail { port }, Event::OutputRead { lines }) => match a {
            Action::Emit {
                outcome: ReadinessOutcome::Failed {
                    diagnostic: Diagnostic::HealthTimeout { port: p2, tail },
                },
            } => p2 == port && tail@ == last_lines(lines@, TAIL_LINES as nat),
            _ => false,
        },
        _ => a is Ignore,
    }
}

/// A phase that can be reached: a poll has attempts left.
pub open spec fn phase_wf(p: Phase) -> bool {
    match p {
        Phase::Polling { attempts, .. } => attempts < MAX_ATTEMPTS,
        _ => true,
    }
}

/// Runs the orchestration of one session: resources, port, spawn, kill guarantee,
/// health, and the single outcome.
pub struct ReadinessCoordinator {
    phase: Phase,
}

impl ReadinessCoordinator {
    /// The phase the coordinator is in.
    pub closed spec fn phase_spec(&self) -> Phase {
        self.phase
    }

    /// Well-formed: the phase can be reached.
    pub closed spec fn wf(&self) -> bool {
        phase_wf(self.phase)
    }

    /// A coordinator waiting for the resource check.
    pub fn new() -> (r: ReadinessCoordinator)
        ensures
            r.wf(),
            r.phase_spec() == Phase::Start,
    {
        ReadinessCoordinator { phase: Phase::Start }
    }

    /// The phase the coordinator is in.
    pub fn phase(&self) -> (r: Phase)
        ensures
            r == self.phase_spec(),
    {
        self.phase
    }

    /// Whether the outcome has been emitted.
    pub fn is_done(&self) -> (r: bool)
        ensures
            r == (self.phase_spec() == Phase::Done),
    {
        self.phase == Phase::Done
    }

    /// Takes in one event and says what to do next.
    pub fn step(&mut self, event: Event) -> (r: Action)
        requires
            old(self).wf(),
        ensures
            final(self).wf(),
            final(self).phase_spec() == next_phase(old(self).phase_spec(), event),
            action_spec(old(self).phase_spec(), event, r),
            (r is Emit) == emits(old(self).phase_spec(), event),
    {
        let p = self.phase;
        match p {
            Phase::Start => match event {
                Event::ResourcesChecked { executable, script } => {
                    if executable && script {
                        self.phase = Phase::AwaitPort;
                        Action::AllocatePort
                    } else {
                        self.phase = Phase::Done;
                        Action::Emit {
                            outcome: ReadinessOutcome::Failed {
                                diagnostic: Diagnostic::ResourceMissing {
                                    executable_missing: !executable,
                                    script_missing: !script,
                                },
                            },
                        }
                    }
                },
                _ => Action::Ignore,
            },
            Phase::AwaitPort => match event {
                Event::PortAllocated { port } => {
                    self.phase = Phase::AwaitSpawn { port };
                    Action::Spawn { port }
                },
                _ => Action::Ignore,
            },
            Phase::AwaitSpawn { port } => match event {
                Event::Spawned => {
                    self.phase = Phase::AwaitGuarantee { port };
                    Action::InstallGuarantee
                },
                Event::SpawnFailed { error } => {
                    self.phase = Phase::Done;
                    Action::Emit {
                        outcome: ReadinessOutcome::Failed {
                            diagnostic: Diagnostic::SpawnFailure { error },
                        },
                    }
                },
                _ => Action::Ignore,
            },
            Phase::AwaitGuarantee { port } => match event {
                Event::GuaranteeInstalled { .. } => {
                    self.phase = Phase::Polling { port, attempts: 0 };
                    Action::PollHealth { url: health_url(port), delay_ms: 0 }
                },
                _ => Action::Ignore,
            },
            Phase::Polling { port, attempts } => match event {
                Event::HealthChecked { status } => match poll_step(attempts, status) {
                    PollStep::Healthy => {
                        self.phase = Phase::Done;
                        Action::Emit { outcome: ReadinessOutcome::Ready { url: endpoint_url(port) } }
                    },
                    PollStep::TimedOut => {
                        self.phase = Phase::AwaitTail { port };
                        Action::ReadOutput
                    },
                    PollStep::Retry => {
                        self.phase = Phase::Polling { port, attempts: attempts + 1 };
                        Action::PollHealth { url: health_url(port), delay_ms: POLL_INTERVAL_MS }
                    },
                },
                _ => Action::Ignore,
            },
            Phase::AwaitTail { port } => match event {
                Event::OutputRead { lines } => {
                    self.phase = Phase::Done;
                    let tail = tail_lines(&lines, TAIL_LINES);
                    Action::Emit {
                        outcome: ReadinessOutcome::Failed {
                            diagnostic: Diagnostic::HealthTimeout { port, tail },
                        },
                    }
                },
                _ => Action::Ignore,
            },
            Phase::Done => Action::Ignore,
        }
    }
}

/// The phase reached after the events `es`, starting in `p`.
pub open spec fn run_phase(p: Phase, es: Seq<Event>) -> Phase
    decreases es.len(),
{
    if es.len() == 0 {
        p
    } else {
        run_phase(next_phase(p, es[0]), es.drop_first())
    }
}

/// How many outcomes are emitted while the events `es` arrive, starting in `p`.
pub open spec fn emit_count(p: Phase, es: Seq<Event>) -> nat
    decreases es.len(),
{
    if es.len() == 0 {
        0
    } else {
        (if emits(p, es[0]) {
            1nat
        } else {
            0nat
        }) + emit_count(next_phase(p, es[0]), es.drop_first())
    }
}

/// Whether `e` asks for a spawn when it arrives in phase `p`.
pub open spec fn requests_spawn(p: Phase, e: Event) -> bool {
    p == Phase::AwaitPort && e is PortAllocated
}

/// How many spawns are asked for while the events `es` arrive, starting in `p`.
pub open spec fn spawn_count(p: Phase, es: Seq<Event>) -> nat
    decreases es.len(),
{
    if es.len() == 0 {
        0
    } else {
        (if requests_spawn(p, es[0]) {
            1nat
        } else {
            0nat
        }) + spawn_count(next_phase(p, es[0]), es.drop_first())
    }
}

/// `e` is the kind of event that phase `p` waits for.
pub open spec fn answers(p: Phase, e: Event) -> bool {
    match p {
        Phase::Start => e is ResourcesChecked,
        Phase::AwaitPort => e is PortAllocated,
        Phase::AwaitSpawn { .. } => e is Spawned || e is SpawnFailed,
        Phase::AwaitGuarantee { .. } => e is GuaranteeInstalled,
        Phase::Polling { .. } => e is HealthChecked,
        Phase::AwaitTail { .. } => e is OutputRead,
        Phase::Done => true,
    }
}

/// The most answering events that can still arrive before the outcome.
pub open spec fn remaining(p: Phase) -> nat {
    match p {
        Phase::Start => (MAX_ATTEMPTS + 5) as nat,
        Phase::AwaitPort => (MAX_ATTEMPTS + 4) as nat,
        Phase::AwaitSpawn { .. } => (MAX_ATTEMPTS + 3) as nat,
        Phase::AwaitGuarantee { .. } => (MAX_ATTEMPTS + 2) as nat,
        Phase::Polling { attempts, .. } => (MAX_ATTEMPTS + 1 - attempts) as nat,
        Phase::AwaitTail { .. } => 1,
        Phase::Done => 0,
    }
}

proof fn lemma_step_wf(p: Phase, e: Event)
    requires
        phase_wf(p),
    ensures
        phase_wf(next_phase(p, e)),
        answers(p, e) && p != Phase::Done ==> remaining(next_phase(p, e)) < remaining(p),
        p == Phase::Done ==> next_phase(p, e) == Phase::Done && !emits(p, e),
{
}

/// After the outcome, no event emits another or asks for a spawn.
pub proof fn lemma_done_is_final(es: Seq<Event>)
    ensures
        run_phase(Phase::Done, es) == Phase::Done,
        emit_count(Phase::Done, es) == 0,
        spawn_count(Phase::Done, es) == 0,
    decreases es.len(),
{
    if es.len() > 0 {
        lemma_done_is_final(es.drop_first());
    }
}

/// Whatever events arrive, a session emits at most one outcome, and it has emitted one
/// exactly when it has finished.
pub proof fn lemma_single_emission(p: Phase, es: Seq<Event>)
    ensures
        emit_count(p, es) == (if p != Phase::Done && run_phase(p, es) == Phase::Done {
            1nat
        } else {
            0nat
        }),
    decreases es.len(),
{
    if es.len() > 0 {
        let q = next_phase(p, es[0]);
        lemma_single_emission(q, es.drop_first());
        if q == Phase::Done {
            lemma_done_is_final(es.drop_first());
        }
    }
}

/// A session that is answered what it asks for finishes, and so emits its one outcome,
/// within a bounded number of events: never zero outcomes.
pub proof fn lemma_answered_session_finishes(p: Phase, es: Seq<Event>)
    requires
        phase_wf(p),
        es.len() >= remaining(p),
        forall|i: int| 0 <= i < es.len() ==> answers(#[trigger] run_phase(p, es.take(i)), es[i]),
    ensures
        run_phase(p, es) == Phase::Done,
        emit_count(p, es) == (if p != Phase::Done {
            1nat
        } else {
            0nat
        }),
    decreases es.len(),
{
    lemma_single_emission(p, es);
    if p == Phase::Done {
        lemma_done_is_final(es);
    } else {
        assert(es.take(0) =~= Seq::<Event>::empty());
        assert(answers(run_phase(p, es.take(0)), es[0]));
        let q = next_phase(p, es[0]);
        let t = es.drop_first();
        lemma_step_wf(p, es[0]);
        assert forall|i: int| 0 <= i < t.len() implies answers(
            #[trigger] run_phase(q, t.take(i)),
            t[i],
        ) by {
            assert(es.take(i + 1).drop_first() =~= t.take(i));
            assert(es.take(i + 1)[0] == es[0]);
            assert(answers(run_phase(p, es.take(i + 1)), es[i + 1]));
        }
        lemma_answered_session_finishes(q, t);
    }
}

/// When the executable or the entry script is missing, the resource check ends the
/// session at once with an emitted outcome, and no spawn is ever asked for.
pub proof fn lemma_missing_resource_short_circuit(executable: bool, script: bool, es: Seq<Event>)
    requires
        !(executable && script),
    ensures
        next_phase(Phase::Start, Event::ResourcesChecked { executable, script }) == Phase::Done,
        emits(Phase::Start, Event::ResourcesChecked { executable, script }),
        spawn_count(Phase::Start, seq![Event::ResourcesChecked { executable, script }] + es)
            == 0,
{
    let e = Event::ResourcesChecked { executable, script };
    let all = seq![e] + es;
    assert(all.drop_first() =~= es);
    lemma_done_is_final(es);
}

} // verus!
