use vstd::prelude::*;

verus! {

/// Workers per iteration in the standard run.
pub const THREADS: usize = 1000;

/// Iterations per strategy in the standard run.
pub const TIMES: usize = 6;

/// Warm-up delay, in milliseconds, between spawning the workers and
/// starting the clock.
pub const WARMUP_MS: u64 = 2000;

/// Run parameters of the benchmark.
#[derive(Clone, Copy, Debug, PartialEq, Eq, Structural)]
pub struct BenchConfig {
    pub threads: usize,
    pub times: usize,
    pub warmup_ms: u64,
}

impl BenchConfig {
    /// Parameters that a run can use: at least one worker and one iteration.
    pub open spec fn wf(&self) -> bool {
        self.threads >= 1 && self.times >= 1
    }

    /// Parameters of a run.
    pub fn new(threads: usize, times: usize, warmup_ms: u64) -> (c: BenchConfig)
        requires
            threads >= 1,
            times >= 1,
        ensures
            c.wf(),
            c.threads == threads,
            c.times == times,
            c.warmup_ms == warmup_ms,
    {
        BenchConfig { threads, times, warmup_ms }
    }

    /// The standard run: 1000 workers, 6 iterations per strategy, 2000 ms
    /// of warm-up.
    pub fn standard() -> (c: BenchConfig)
        ensures
            c.wf(),
            c.threads == THREADS,
            c.times == TIMES,
            c.warmup_ms == WARMUP_MS,
    {
        BenchConfig { threads: THREADS, times: TIMES, warmup_ms: WARMUP_MS }
    }
}

/// Where the harness thread stands within one iteration.
#[derive(Clone, Copy, Debug, PartialEq, Eq, Structural)]
pub enum Phase {
    Idle,
    ThreadsSpawned,
    WarmedUp,
    Released,
    AllCompleted,
    TornDown,
    Joined,
}

/// What the harness thread must do next.
#[derive(Clone, Copy, Debug, PartialEq, Eq, Structural)]
pub enum Action {
    /// Spawn this many workers, bound to fresh shared state.
    Spawn(usize),
    /// Sleep this many milliseconds so that the workers reach the barrier.
    WarmUp(u64),
    /// Take the start time and release the barrier once.
    StartAndRelease,
    /// Wait on the completion counter and report its value.
    AwaitCompletion,
    /// Take the elapsed time, raise the teardown latch and wake every worker.
    StopAndTeardown,
    /// Join every worker.
    JoinAll,
    /// Nothing is left: record the elapsed time.
    Finish,
}

/// What the harness thread reports after performing an action.
#[derive(Clone, Copy, Debug, PartialEq, Eq, Structural)]
pub enum Event {
    /// The action is done.
    Done,
    /// The completion counter was seen holding this value.
    Observed(usize),
}

/// Position of a phase in the order of an iteration.
pub open spec fn phase_index(p: Phase) -> nat {
    match p {
        Phase::Idle => 0,
        Phase::ThreadsSpawned => 1,
        Phase::WarmedUp => 2,
        Phase::Released => 3,
        Phase::AllCompleted => 4,
        Phase::TornDown => 5,
        Phase::Joined => 6,
    }
}

/// The action that a phase asks for.
pub open spec fn action_for(p: Phase, workers: usize, warmup_ms: u64) -> Action {
    match p {
        Phase::Idle => Action::Spawn(workers),
        Phase::ThreadsSpawned => Action::WarmUp(warmup_ms),
        Phase::WarmedUp => Action::StartAndRelease,
        Phase::Released => Action::AwaitCompletion,
        Phase::AllCompleted => Action::StopAndTeardown,
        Phase::TornDown => Action::JoinAll,
        Phase::Joined => Action::Finish,
    }
}

/// The phase after an event. The wait for completion ends only when the
/// counter is seen at the number of workers; an event that does not answer
/// the phase's action changes nothing.
pub open spec fn next_phase(p: Phase, e: Event, workers: usize) -> Phase {
    match (p, e) {
        (Phase::Idle, Event::Done) => Phase::ThreadsSpawned,
        (Phase::ThreadsSpawned, Event::Done) => Phase::WarmedUp,
        (Phase::WarmedUp, Event::Done) => Phase::Released,
        (Phase::Released, Event::Observed(c)) => if c == workers {
            Phase::AllCompleted
        } else {
            Phase::Released
        },
        (Phase::AllCompleted, Event::Done) => Phase::TornDown,
        (Phase::TornDown, Event::Done) => Phase::Joined,
        _ => p,
    }
}

/// The harness's decisions within one iteration, from spawning the workers
/// to joining them.
pub struct Iteration {
    phase: Phase,
    workers: usize,
    warmup_ms: u64,
}

impl Iteration {
    /// Current phase.
    pub closed spec fn phase_spec(&self) -> Phase {
        self.phase
    }

    /// Number of workers.
    pub closed spec fn workers_spec(&self) -> usize {
        self.workers
    }

    /// Warm-up delay in milliseconds.
    pub closed spec fn warmup_spec(&self) -> u64 {
        self.warmup_ms
    }

    /// An iteration that has not started, for the given parameters.
    pub fn new(config: &BenchConfig) -> (it: Iteration)
        requires
            config.wf(),
        ensures
            it.phase_spec() == Phase::Idle,
            it.workers_spec() == config.threads,
            it.warmup_spec() == config.warmup_ms,
    {
        Iteration { phase: Phase::Idle, workers: config.threads, warmup_ms: config.warmup_ms }
    }

    /// What the harness must do now.
    pub fn action(&self) -> (a: Action)
        ensures
            a == action_for(self.phase_spec(), self.workers_spec(), self.warmup_spec()),
    {
        match self.phase {
            Phase::Idle => Action::Spawn(self.workers),
            Phase::ThreadsSpawned => Action::WarmUp(self.warmup_ms),
            Phase::WarmedUp => Action::StartAndRelease,
            Phase::Released => Action::AwaitCompletion,
            Phase::AllCompleted => Action::StopAndTeardown,
            Phase::TornDown => Action::JoinAll,
            Phase::Joined => Action::Finish,
        }
    }

    /// Takes in what the last action brought. Phases only move forward, one
    /// at a time, and teardown comes only after the counter was seen at the
    /// number of workers.
    pub fn advance(&mut self, e: Event)
        ensures
            final(self).phase_spec() == next_phase(old(self).phase_spec(), e, old(self).workers_spec()),
            final(self).workers_spec() == old(self).workers_spec(),
            final(self).warmup_spec() == old(self).warmup_spec(),
            phase_index(final(self).phase_spec()) == phase_index(old(self).phase_spec())
                || phase_index(final(self).phase_spec()) == phase_index(old(self).phase_spec())
                + 1,
            final(self).phase_spec() == Phase::AllCompleted && old(self).phase_spec()
                != Phase::AllCompleted ==> e == Event::Observed(old(self).workers_spec()),
    {
        let next = match (self.phase, e) {
            (Phase::Idle, Event::Done) => Phase::ThreadsSpawned,
            (Phase::ThreadsSpawned, Event::Done) => Phase::WarmedUp,
            (Phase::WarmedUp, Event::Done) => Phase::Released,
            (Phase::Released, Event::Observed(c)) => if c == self.workers {
                Phase::AllCompleted
            } else {
                Phase::Released
            },
            (Phase::AllCompleted, Event::Done) => Phase::TornDown,
            (Phase::TornDown, Event::Done) => Phase::Joined,
            _ => self.phase,
        };
        self.phase = next;
    }

    /// Current phase.
    pub fn phase(&self) -> (p: Phase)
        ensures
            p == self.phase_spec(),
    {
        self.phase
    }

    /// Whether the iteration is over: every worker joined.
    pub fn is_finished(&self) -> (r: bool)
        ensures
            r == (self.phase_spec() == Phase::Joined),
    {
        self.phase == Phase::Joined
    }
}

} // verus!
