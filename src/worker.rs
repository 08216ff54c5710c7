//! The sampling loop of one worker, as a state machine. The caller performs
//! each action (draw, sleep, read the entropy level, poll the shutdown signal)
//! and hands the outcome back as an event; the machine decides what comes next.
use vstd::prelude::*;

verus! {

/// Where a worker stands in its cycle.
#[derive(Clone, Copy, Debug, PartialEq, Eq, Structural)]
pub enum Phase {
    /// Waiting for one timed draw to complete.
    Drawing,
    /// Waiting for the pause between requests to end.
    Sleeping,
    /// Waiting for the source's entropy level.
    ReadingEntropy,
    /// Waiting for the outcome of a non-blocking shutdown poll.
    PollingShutdown,
    /// Done: the samples are final.
    Stopped,
}

/// The outcome of the action a worker asked for.
#[derive(Clone, Copy, Debug, PartialEq, Eq, Structural)]
pub enum Event {
    /// A draw completed in the given number of nanoseconds.
    Drawn(u64),
    /// The pause between requests is over.
    Woke,
    /// The source reported this entropy level.
    EntropyRead(u32),
    /// The shutdown signal was (`true`) or was not (`false`) observed.
    ShutdownPolled(bool),
}

/// What a worker asks its caller to do next.
#[derive(Clone, Copy, Debug, PartialEq, Eq, Structural)]
pub enum Action {
    /// Time one draw of the configured size.
    Draw,
    /// Sleep for this many milliseconds.
    Sleep(u64),
    /// Read the source's entropy level.
    ReadEntropy,
    /// Poll the shutdown signal without blocking. `Some(v)` reports that the
    /// entropy level just changed to `v`.
    PollShutdown(Option<u32>),
    /// Stop: the worker's samples are complete.
    Finish,
}

/// The mathematical state of a worker.
pub struct WorkerState {
    pub iterations: nat,
    pub msec_per_request: u64,
    pub entropy_count: u32,
    pub samples: Seq<u64>,
    pub phase: Phase,
    pub interrupted: bool,
}

/// The state in which a worker begins, once its initial entropy level is known.
pub open spec fn start_state(iterations: nat, msec_per_request: u64, entropy: u32) -> WorkerState {
    WorkerState {
        iterations,
        msec_per_request,
        entropy_count: entropy,
        samples: Seq::empty(),
        phase: if iterations == 0 { Phase::Stopped } else { Phase::Drawing },
        interrupted: false,
    }
}

/// The action that a worker in state `s` waits on.
pub open spec fn awaited(s: WorkerState) -> Action {
    match s.phase {
        Phase::Drawing => Action::Draw,
        Phase::Sleeping => Action::Sleep(s.msec_per_request),
        Phase::ReadingEntropy => Action::ReadEntropy,
        Phase::PollingShutdown => Action::PollShutdown(None),
        Phase::Stopped => Action::Finish,
    }
}

/// Whether `e` is the outcome that a worker in state `s` waits on.
pub open spec fn accepts(s: WorkerState, e: Event) -> bool {
    match e {
        Event::Drawn(_) => s.phase == Phase::Drawing,
        Event::Woke => s.phase == Phase::Sleeping,
        Event::EntropyRead(_) => s.phase == Phase::ReadingEntropy,
        Event::ShutdownPolled(_) => s.phase == Phase::PollingShutdown,
    }
}

/// One transition: the next state and the action it asks for. A draw appends
/// its duration; a new entropy level is recorded and reported when it differs
/// from the last one; a shutdown stops the worker at once; otherwise the worker
/// draws again until it has made its configured number of draws. An event the
/// worker does not wait on changes nothing.
pub open spec fn next_state(s: WorkerState, e: Event) -> (WorkerState, Action) {
    if !accepts(s, e) {
        (s, awaited(s))
    } else {
        match e {
            Event::Drawn(ns) => (
                WorkerState { samples: s.samples.push(ns), phase: Phase::Sleeping, ..s },
                Action::Sleep(s.msec_per_request),
            ),
            Event::Woke => (WorkerState { phase: Phase::ReadingEntropy, ..s }, Action::ReadEntropy),
            Event::EntropyRead(v) => (
                WorkerState { entropy_count: v, phase: Phase::PollingShutdown, ..s },
                Action::PollShutdown(
                    if v != s.entropy_count {
                        Some(v)
                    } else {
                        None
                    },
                ),
            ),
            Event::ShutdownPolled(signaled) => if signaled {
                (WorkerState { phase: Phase::Stopped, interrupted: true, ..s }, Action::Finish)
            } else if s.samples.len() < s.iterations {
                (WorkerState { phase: Phase::Drawing, ..s }, Action::Draw)
            } else {
                (WorkerState { phase: Phase::Stopped, ..s }, Action::Finish)
            },
        }
    }
}

/// The consistency of a worker's state: it never draws more than its
/// configured count, and it stops short of that count only on shutdown.
pub open spec fn state_wf(s: WorkerState) -> bool {
    &&& s.samples.len() <= s.iterations
    &&& s.phase == Phase::Drawing ==> s.samples.len() < s.iterations
    &&& s.phase != Phase::Drawing && s.phase != Phase::Stopped ==> s.samples.len() >= 1
    &&& s.phase == Phase::Stopped && !s.interrupted ==> s.samples.len() == s.iterations
    &&& s.interrupted ==> s.phase == Phase::Stopped
}

/// An upper bound on the number of transitions left before the worker stops.
pub open spec fn steps_left(s: WorkerState) -> int {
    let draws_left = s.iterations - s.samples.len();
    match s.phase {
        Phase::Drawing => 4 * draws_left,
        Phase::Sleeping => 4 * draws_left + 3,
        Phase::ReadingEntropy => 4 * draws_left + 2,
        Phase::PollingShutdown => 4 * draws_left + 1,
        Phase::Stopped => 0,
    }
}

/// Every accepted event keeps the state consistent and brings the worker
/// strictly closer to stopping, so a worker fed the outcomes it asks for
/// always stops, whether or not shutdown is ever signaled.
pub proof fn lemma_step_progress(s: WorkerState, e: Event)
    requires
        state_wf(s),
        accepts(s, e),
    ensures
        state_wf(next_state(s, e).0),
        0 <= steps_left(next_state(s, e).0) < steps_left(s),
{
}

/// A worker that stopped without observing shutdown has made exactly its
/// configured number of draws.
pub proof fn lemma_uninterrupted_run_is_complete(s: WorkerState)
    requires
        state_wf(s),
        s.phase == Phase::Stopped,
        !s.interrupted,
    ensures
        s.samples.len() == s.iterations,
{
}

/// Reading an entropy level, changed or not, leaves the recorded samples and
/// the iteration count as they were.
pub proof fn lemma_entropy_reading_keeps_samples(s: WorkerState, v: u32)
    ensures
        next_state(s, Event::EntropyRead(v)).0.samples == s.samples,
        next_state(s, Event::EntropyRead(v)).0.iterations == s.iterations,
        accepts(s, Event::EntropyRead(v)) && v != s.entropy_count ==> next_state(
            s,
            Event::EntropyRead(v),
        ).1 == Action::PollShutdown(Some(v)),
{
}

/// One worker's sampling loop and its sample recorder.
pub struct Worker {
    iterations: u32,
    msec_per_request: u64,
    entropy_count: u32,
    samples: Vec<u64>,
    phase: Phase,
    interrupted: bool,
}

impl View for Worker {
    type V = WorkerState;

    closed spec fn view(&self) -> WorkerState {
        WorkerState {
            iterations: self.iterations as nat,
            msec_per_request: self.msec_per_request,
            entropy_count: self.entropy_count,
            samples: self.samples@,
            phase: self.phase,
            interrupted: self.interrupted,
        }
    }
}

impl Worker {
    /// A worker that will make `iterations` draws, pausing `msec_per_request`
    /// milliseconds after each, starting from the entropy level `initial_entropy`.
    pub fn new(iterations: u32, msec_per_request: u64, initial_entropy: u32) -> (w: Worker)
        ensures
            w@ == start_state(iterations as nat, msec_per_request, initial_entropy),
            state_wf(w@),
    {
        Worker {
            iterations,
            msec_per_request,
            entropy_count: initial_entropy,
            samples: Vec::new(),
            phase: if iterations == 0 {
                Phase::Stopped
            } else {
                Phase::Drawing
            },
            interrupted: false,
        }
    }

    /// The action the worker waits on.
    pub fn next_action(&self) -> (r: Action)
        ensures
            r == awaited(self@),
    {
        match self.phase {
            Phase::Drawing => Action::Draw,
            Phase::Sleeping => Action::Sleep(self.msec_per_request),
            Phase::ReadingEntropy => Action::ReadEntropy,
            Phase::PollingShutdown => Action::PollShutdown(None),
            Phase::Stopped => Action::Finish,
        }
    }

    /// Feeds the outcome of the last action to the worker and returns the next
    /// action.
    pub fn step(&mut self, event: Event) -> (r: Action)
        requires
            state_wf(old(self)@),
        ensures
            (final(self)@, r) == next_state(old(self)@, event),
            state_wf(final(self)@),
    {
        proof {
            if accepts(self@, event) {
                lemma_step_progress(self@, event);
            }
        }
        match (self.phase, event) {
            (Phase::Drawing, Event::Drawn(ns)) => {
                self.samples.push(ns);
                self.phase = Phase::Sleeping;
                Action::Sleep(self.msec_per_request)
            },
            (Phase::Sleeping, Event::Woke) => {
                self.phase = Phase::ReadingEntropy;
                Action::ReadEntropy
            },
            (Phase::ReadingEntropy, Event::EntropyRead(v)) => {
                let changed = v != self.entropy_count;
                self.entropy_count = v;
                self.phase = Phase::PollingShutdown;
                Action::PollShutdown(
                    if changed {
                        Some(v)
                    } else {
                        None
                    },
                )
            },
            (Phase::PollingShutdown, Event::ShutdownPolled(signaled)) => {
                if signaled {
                    self.phase = Phase::Stopped;
                    self.interrupted = true;
                    Action::Finish
                } else if self.samples.len() < self.iterations as usize {
                    self.phase = Phase::Drawing;
                    Action::Draw
                } else {
                    self.phase = Phase::Stopped;
                    Action::Finish
                }
            },
            _ => self.next_action(),
        }
    }

    /// Whether the worker has stopped.
    pub fn is_stopped(&self) -> (r: bool)
        ensures
            r == (self@.phase == Phase::Stopped),
    {
        self.phase == Phase::Stopped
    }

    /// Whether the worker stopped because shutdown was signaled.
    pub fn interrupted(&self) -> (r: bool)
        ensures
            r == self@.interrupted,
    {
        self.interrupted
    }

    /// The number of draws completed so far.
    pub fn completed(&self) -> (r: usize)
        ensures
            r == self@.samples.len(),
    {
        self.samples.len()
    }

    /// The last entropy level observed.
    pub fn entropy_count(&self) -> (r: u32)
        ensures
            r == self@.entropy_count,
    {
        self.entropy_count
    }

    /// The recorded draw durations in nanoseconds, in the order drawn.
    pub fn samples(&self) -> (r: &Vec<u64>)
        ensures
            r@ == self@.samples,
    {
        &self.samples
    }

    /// Hands over the sample recorder.
    pub fn into_samples(self) -> (r: Vec<u64>)
        ensures
            r@ == self@.samples,
    {
        self.samples
    }
}

} // verus!
