//! Periodic tasks and the loop that runs one.
//!
//! A task is a named unit of work with a switch that pauses it, an optional
//! interval and a one-way cancellation. Its execution loop is a state
//! machine: `TaskRunner::next_step` says what the loop does next, and the
//! caller, who owns the clock and the work, does it.

use std::sync::atomic::{AtomicBool, Ordering};
use std::sync::Arc;
use tokio_util::sync::CancellationToken;
use crate::schedule::{state_at, state_at_ignores_later, step_at};
use vstd::prelude::*;

verus! {

/// `tokio_util::sync::CancellationToken`, a handle on a shared one-way flag.
/// Its contents are not visible to the verifier.
#[verifier::external_type_specification]
#[verifier::external_body]
pub struct ExCancellationToken(CancellationToken);

/// `CancellationToken::new` makes a token. Nothing is claimed of it.
pub assume_specification[ CancellationToken::new ]() -> CancellationToken;

/// `CancellationToken::cancel` cancels the token and its clones. Nothing is
/// claimed of it.
pub assume_specification[ CancellationToken::cancel ](token: &CancellationToken);

/// `CancellationToken::is_cancelled` reads the token. Nothing is claimed of
/// the answer, which depends on what other holders have done.
pub assume_specification[ CancellationToken::is_cancelled ](token: &CancellationToken) -> bool;

/// `Clone::clone` of `CancellationToken` makes another handle on the same
/// flag. Nothing is claimed of it.
pub assume_specification[ <CancellationToken as Clone>::clone ](
    token: &CancellationToken,
) -> CancellationToken;

/// How long a paused loop sleeps before it looks at its switch again, in
/// milliseconds.
pub const PAUSE_QUANTUM_MS: u64 = 100;

/// The units of work that a task can carry.
#[derive(Clone, Copy, Debug, PartialEq, Eq, Structural)]
pub enum TaskKind {
    /// Sample the usage of each CPU and report it, again and again.
    DynamicCpuUsage,
}

/// Where an execution loop stands.
#[derive(Clone, Copy, Debug, PartialEq, Eq, Structural)]
pub enum Phase {
    /// About to look at the switch and the cancellation.
    Polling,
    /// The unit of work has just been invoked.
    Invoked,
    /// Cancelled: the loop has ended and invokes nothing more.
    Terminated,
}

/// The state of an execution loop.
#[derive(Clone, Copy, Debug, PartialEq, Eq, Structural)]
pub struct LoopState {
    /// Where the loop stands.
    pub phase: Phase,
    /// Whether the unit of work has been invoked before.
    pub launched: bool,
}

/// What a loop sees when it polls.
#[derive(Clone, Copy, Debug, PartialEq, Eq, Structural)]
pub struct Observation {
    /// The task's switch: off while the task is paused.
    pub enabled: bool,
    /// Whether cancellation has been signalled.
    pub cancelled: bool,
}

/// What a loop does next.
#[derive(Clone, Copy, Debug, PartialEq, Eq, Structural)]
pub enum Step {
    /// Sleep for so many milliseconds.
    Wait(u64),
    /// Invoke the unit of work once. `first` is set on the first invocation
    /// since the task was started and on no other, for work that must be
    /// set up only once.
    Invoke { first: bool },
    /// Let other tasks run, then go on at once.
    Yield,
    /// Leave the loop.
    Exit,
}

/// The state in which every loop starts.
pub open spec fn initial_state() -> LoopState {
    LoopState { phase: Phase::Polling, launched: false }
}

/// One turn of the loop. A paused loop sleeps a quantum and looks again,
/// without looking at the cancellation. A loop that is not paused ends on
/// cancellation and else invokes the work. After the work it sleeps for the
/// interval, or yields where there is none.
pub open spec fn plan(state: LoopState, seen: Observation, interval: Option<u64>) -> (
    LoopState,
    Step,
) {
    match state.phase {
        Phase::Terminated => (state, Step::Exit),
        Phase::Polling => if !seen.enabled {
            (state, Step::Wait(PAUSE_QUANTUM_MS))
        } else if seen.cancelled {
            (LoopState { phase: Phase::Terminated, launched: state.launched }, Step::Exit)
        } else {
            (
                LoopState { phase: Phase::Invoked, launched: true },
                Step::Invoke { first: !state.launched },
            )
        },
        Phase::Invoked => (
            LoopState { phase: Phase::Polling, launched: state.launched },
            match interval {
                Some(ms) => Step::Wait(ms),
                None => Step::Yield,
            },
        ),
    }
}

/// Computes one turn of the loop from what was seen.
pub fn decide(state: LoopState, seen: Observation, interval: Option<u64>) -> (next: (
    LoopState,
    Step,
))
    ensures
        next == plan(state, seen, interval),
{
    match state.phase {
        Phase::Terminated => (state, Step::Exit),
        Phase::Polling => {
            if !seen.enabled {
                (state, Step::Wait(PAUSE_QUANTUM_MS))
            } else if seen.cancelled {
                (LoopState { phase: Phase::Terminated, launched: state.launched }, Step::Exit)
            } else {
                (
                    LoopState { phase: Phase::Invoked, launched: true },
                    Step::Invoke { first: !state.launched },
                )
            }
        },
        Phase::Invoked => {
            let rest = match interval {
                Some(ms) => Step::Wait(ms),
                None => Step::Yield,
            };
            (LoopState { phase: Phase::Polling, launched: state.launched }, rest)
        },
    }
}

/// What a task is, to the verifier.
pub struct TaskView {
    /// The task's name.
    pub name: Seq<char>,
    /// Whether the task is switched on.
    pub enabled: bool,
    /// Whether the task has been cancelled.
    pub cancelled: bool,
    /// The time between two invocations, in milliseconds, if any.
    pub interval: Option<u64>,
    /// The unit of work.
    pub kind: TaskKind,
    /// Free-form pairs of key and value.
    pub meta_data: Seq<(Seq<char>, Seq<char>)>,
}

/// A named unit of work together with its controls. The task is the only
/// writer of its switch and of its cancellation; the loop started from it
/// reads both.
pub struct Task {
    name: String,
    enabled: Arc<AtomicBool>,
    meta_data: Vec<(String, String)>,
    interval: Option<u64>,
    kind: TaskKind,
    cancel_token: CancellationToken,
    switched_on: bool,
    cancelled: bool,
}

impl View for Task {
    type V = TaskView;

    closed spec fn view(&self) -> TaskView {
        TaskView {
            name: self.name@,
            enabled: self.switched_on,
            cancelled: self.cancelled,
            interval: self.interval,
            kind: self.kind,
            meta_data: self.meta_data.deep_view(),
        }
    }
}

impl Task {
    /// A task that is switched on and not cancelled.
    pub fn new(
        name: String,
        kind: TaskKind,
        interval: Option<u64>,
        meta_data: Vec<(String, String)>,
    ) -> (task: Task)
        ensures
            task@ == (TaskView {
                name: name@,
                enabled: true,
                cancelled: false,
                interval,
                kind,
                meta_data: meta_data.deep_view(),
            }),
    {
        Task {
            name,
            enabled: Arc::new(AtomicBool::new(true)),
            meta_data,
            interval,
            kind,
            cancel_token: CancellationToken::new(),
            switched_on: true,
            cancelled: false,
        }
    }

    /// The task's name.
    pub fn name(&self) -> (name: &str)
        ensures
            name@ == self@.name,
    {
        self.name.as_str()
    }

    /// Whether the task is switched on.
    pub fn is_enabled(&self) -> (enabled: bool)
        ensures
            enabled == self@.enabled,
    {
        self.switched_on
    }

    /// Whether the task has been cancelled.
    pub fn is_cancelled(&self) -> (cancelled: bool)
        ensures
            cancelled == self@.cancelled,
    {
        self.cancelled
    }

    /// The time between two invocations, in milliseconds, if any.
    pub fn interval(&self) -> (interval: Option<u64>)
        ensures
            interval == self@.interval,
    {
        self.interval
    }

    /// The unit of work.
    pub fn kind(&self) -> (kind: TaskKind)
        ensures
            kind == self@.kind,
    {
        self.kind
    }

    /// The task's free-form pairs of key and value.
    pub fn meta_data(&self) -> (pairs: &Vec<(String, String)>)
        ensures
            pairs.deep_view() == self@.meta_data,
    {
        &self.meta_data
    }

    /// Prepares the task's execution loop: a runner that has taken no turn
    /// yet and reads the switch and the cancellation of the task. The caller
    /// drives it.
    pub fn start(&self) -> (runner: TaskRunner)
        ensures
            runner@ == (RunnerView {
                interval: self@.interval,
                kind: self@.kind,
                history: Seq::<Observation>::empty(),
            }),
    {
        TaskRunner {
            enabled: Arc::clone(&self.enabled),
            cancel: self.cancel_token.clone(),
            interval: self.interval,
            kind: self.kind,
            progress: Progress {
                state: LoopState { phase: Phase::Polling, launched: false },
                history: Ghost(Seq::empty()),
            },
        }
    }

    /// Switches the task off. The loop notices at its next poll.
    pub fn pause(&mut self)
        ensures
            final(self)@ == (TaskView { enabled: false, ..old(self)@ }),
    {
        self.enabled.store(false, Ordering::Relaxed);
        self.switched_on = false;
    }

    /// Switches the task on again. The loop notices at its next poll.
    pub fn resume(&mut self)
        ensures
            final(self)@ == (TaskView { enabled: true, ..old(self)@ }),
    {
        self.enabled.store(true, Ordering::Relaxed);
        self.switched_on = true;
    }

    /// Signals cancellation, for good.
    pub fn remove(&mut self)
        ensures
            final(self)@ == (TaskView { cancelled: true, ..old(self)@ }),
    {
        self.cancel_token.cancel();
        self.cancelled = true;
    }
}

/// What a runner is, to the verifier.
pub struct RunnerView {
    /// The task's interval.
    pub interval: Option<u64>,
    /// The task's unit of work.
    pub kind: TaskKind,
    /// What the loop has seen at each turn that it has taken, in order.
    pub history: Seq<Observation>,
}

impl RunnerView {
    /// The number of turns that the loop has taken.
    pub open spec fn turns(self) -> int {
        self.history.len() as int
    }

    /// The state of the loop after the turns that it has taken.
    pub open spec fn state(self) -> LoopState {
        state_at(initial_state(), self.interval, self.history, self.turns())
    }

    /// The runner after one more turn, in which it has seen `seen`.
    pub open spec fn after(self, seen: Observation) -> RunnerView {
        RunnerView { history: self.history.push(seen), ..self }
    }
}

/// How far a loop has come: its state, and what it has seen on the way.
struct Progress {
    state: LoopState,
    history: Ghost<Seq<Observation>>,
}

/// The execution loop of one task, as a state machine. It holds the reading
/// ends of the task's switch and cancellation.
pub struct TaskRunner {
    enabled: Arc<AtomicBool>,
    cancel: CancellationToken,
    interval: Option<u64>,
    kind: TaskKind,
    progress: Progress,
}

impl View for TaskRunner {
    type V = RunnerView;

    closed spec fn view(&self) -> RunnerView {
        RunnerView { interval: self.interval, kind: self.kind, history: self.progress.history@ }
    }
}

impl TaskRunner {
    /// The state that the runner keeps is the state that its turns have led
    /// to.
    #[verifier::type_invariant]
    spec fn state_follows_history(&self) -> bool {
        self.progress.state == self@.state()
    }

    /// The state of the loop.
    pub fn state(&self) -> (state: LoopState)
        ensures
            state == self@.state(),
    {
        proof {
            use_type_invariant(self);
        }
        self.progress.state
    }

    /// The task's interval, in milliseconds, if any.
    pub fn interval(&self) -> (interval: Option<u64>)
        ensures
            interval == self@.interval,
    {
        self.interval
    }

    /// The task's unit of work.
    pub fn kind(&self) -> (kind: TaskKind)
        ensures
            kind == self@.kind,
    {
        self.kind
    }

    /// Reads the task's switch and cancellation.
    fn poll(&self) -> Observation {
        Observation {
            enabled: self.enabled.load(Ordering::Relaxed),
            cancelled: self.cancel.is_cancelled(),
        }
    }

    /// Polls the task's switch and cancellation and takes one turn of the
    /// loop. Whatever the two hold at that moment goes down in the runner's
    /// history, and the step is the one that the run so far and `plan` give
    /// for it.
    pub fn next_step(&mut self) -> (step: Step)
        ensures
            exists|seen: Observation| #[trigger]
                old(self)@.after(seen) == final(self)@ && (final(self)@.state(), step) == plan(
                    old(self)@.state(),
                    seen,
                    old(self)@.interval,
                ),
            step == step_at(
                initial_state(),
                final(self)@.interval,
                final(self)@.history,
                old(self)@.turns(),
            ),
    {
        proof {
            use_type_invariant(&*self);
        }
        let seen = self.poll();
        let (state, step) = decide(self.progress.state, seen, self.interval);
        proof {
            state_at_ignores_later(
                initial_state(),
                self.interval,
                self.progress.history@,
                seen,
                self@.turns(),
            );
        }
        self.progress = Progress { state, history: Ghost(self.progress.history@.push(seen)) };
        assert(old(self)@.after(seen) == self@);
        step
    }
}

} // verus!
