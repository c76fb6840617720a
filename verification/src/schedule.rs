//! What holds of every run of a task's execution loop.
//!
//! A run is given by the state in which the loop starts, the task's
//! interval, and what the loop sees at each of its turns.

use crate::task::{plan, LoopState, Observation, Phase, Step, PAUSE_QUANTUM_MS};
use vstd::prelude::*;

verus! {

/// The state of the loop before its turn number `at`.
pub open spec fn state_at(
    start: LoopState,
    interval: Option<u64>,
    seen: Seq<Observation>,
    at: int,
) -> LoopState
    decreases at,
{
    if at <= 0 {
        start
    } else {
        plan(state_at(start, interval, seen, at - 1), seen[at - 1], interval).0
    }
}

/// What the loop does at its turn number `at`.
pub open spec fn step_at(
    start: LoopState,
    interval: Option<u64>,
    seen: Seq<Observation>,
    at: int,
) -> Step {
    plan(state_at(start, interval, seen, at), seen[at], interval).1
}

/// The time that a step asks the loop to sleep, in milliseconds.
pub open spec fn wait_of(step: Step) -> nat {
    match step {
        Step::Wait(ms) => ms as nat,
        _ => 0,
    }
}

/// The time that the loop sleeps in its turns from `from` up to, and not
/// including, `to`, in milliseconds.
pub open spec fn waited(
    start: LoopState,
    interval: Option<u64>,
    seen: Seq<Observation>,
    from: int,
    to: int,
) -> nat
    decreases to - from,
{
    if from >= to {
        0
    } else {
        waited(start, interval, seen, from, to - 1) + wait_of(
            step_at(start, interval, seen, to - 1),
        )
    }
}

/// The state before a turn depends on what was seen before that turn only.
pub proof fn state_at_ignores_later(
    start: LoopState,
    interval: Option<u64>,
    seen: Seq<Observation>,
    next: Observation,
    at: int,
)
    requires
        at <= seen.len(),
    ensures
        state_at(start, interval, seen.push(next), at) == state_at(start, interval, seen, at),
    decreases at,
{
    if at > 0 {
        state_at_ignores_later(start, interval, seen, next, at - 1);
    }
}

/// The sleep of any one turn is part of the sleep of a stretch that holds
/// that turn.
proof fn waited_covers_turn(
    start: LoopState,
    interval: Option<u64>,
    seen: Seq<Observation>,
    from: int,
    to: int,
    turn: int,
)
    requires
        from <= turn < to,
    ensures
        waited(start, interval, seen, from, to) >= wait_of(step_at(start, interval, seen, turn)),
    decreases to - from,
{
    if turn < to - 1 {
        waited_covers_turn(start, interval, seen, from, to - 1, turn);
    }
}

/// Once the work has been invoked, the loop remembers it.
proof fn launched_stays(
    start: LoopState,
    interval: Option<u64>,
    seen: Seq<Observation>,
    earlier: int,
    later: int,
)
    requires
        0 <= earlier <= later,
        state_at(start, interval, seen, earlier).launched,
    ensures
        state_at(start, interval, seen, later).launched,
    decreases later - earlier,
{
    if earlier < later {
        launched_stays(start, interval, seen, earlier, later - 1);
    }
}

/// A task with an interval sleeps at least that long between the start of
/// one invocation and the start of the next, paused in between or not.
pub proof fn interval_between_invocations(
    start: LoopState,
    period: u64,
    seen: Seq<Observation>,
    first: int,
    second: int,
)
    requires
        0 <= first < second < seen.len(),
        step_at(start, Some(period), seen, first) is Invoke,
        step_at(start, Some(period), seen, second) is Invoke,
    ensures
        waited(start, Some(period), seen, first + 1, second) >= period,
{
    let interval = Some(period);
    assert(state_at(start, interval, seen, first + 1).phase == Phase::Invoked);
    assert(step_at(start, interval, seen, first + 1) == Step::Wait(period));
    waited_covers_turn(start, interval, seen, first + 1, second, first + 1);
}

/// A loop that finds its task paused invokes nothing: at a poll it sleeps
/// one quantum and stays where it is, so that a pause takes hold at the next
/// poll and a resume is seen no later than one quantum after it.
pub proof fn paused_task_is_not_invoked(
    start: LoopState,
    interval: Option<u64>,
    seen: Seq<Observation>,
    at: int,
)
    requires
        0 <= at < seen.len(),
        !seen[at].enabled,
    ensures
        !(step_at(start, interval, seen, at) is Invoke),
        state_at(start, interval, seen, at).phase == Phase::Polling ==> step_at(
            start,
            interval,
            seen,
            at,
        ) == Step::Wait(PAUSE_QUANTUM_MS) && state_at(start, interval, seen, at + 1) == state_at(
            start,
            interval,
            seen,
            at,
        ),
{
}

/// While a task stays paused its loop does nothing but poll, once every
/// quantum: every turn of the stretch is a sleep of one quantum, and the
/// state at its end is the state at its start.
pub proof fn paused_loop_polls_every_quantum(
    start: LoopState,
    interval: Option<u64>,
    seen: Seq<Observation>,
    from: int,
    to: int,
)
    requires
        0 <= from <= to <= seen.len(),
        state_at(start, interval, seen, from).phase == Phase::Polling,
        forall|k: int| from <= k < to ==> !(#[trigger] seen[k]).enabled,
    ensures
        state_at(start, interval, seen, to) == state_at(start, interval, seen, from),
        forall|k: int|
            from <= k < to ==> #[trigger] step_at(start, interval, seen, k) == Step::Wait(
                PAUSE_QUANTUM_MS,
            ),
        waited(start, interval, seen, from, to) == PAUSE_QUANTUM_MS * (to - from),
    decreases to - from,
{
    if from < to {
        paused_loop_polls_every_quantum(start, interval, seen, from, to - 1);
        assert(!seen[to - 1].enabled);
    }
}

/// A loop that polls and finds its task switched on and not cancelled
/// invokes the work in that very turn.
pub proof fn enabled_task_is_invoked(
    start: LoopState,
    interval: Option<u64>,
    seen: Seq<Observation>,
    at: int,
)
    requires
        0 <= at < seen.len(),
        state_at(start, interval, seen, at).phase == Phase::Polling,
        seen[at].enabled,
        !seen[at].cancelled,
    ensures
        step_at(start, interval, seen, at) is Invoke,
{
}

/// Cancellation is final: a loop that has ended stays ended and never
/// invokes the work again, whatever it is shown.
pub proof fn terminated_loop_stays_terminated(
    start: LoopState,
    interval: Option<u64>,
    seen: Seq<Observation>,
    ended: int,
    later: int,
)
    requires
        0 <= ended <= later,
        state_at(start, interval, seen, ended).phase == Phase::Terminated,
    ensures
        state_at(start, interval, seen, later).phase == Phase::Terminated,
        step_at(start, interval, seen, later) == Step::Exit,
    decreases later - ended,
{
    if ended < later {
        terminated_loop_stays_terminated(start, interval, seen, ended, later - 1);
    }
}

/// A loop leaves only on cancellation: the turn in which it ends is a poll
/// that found the task switched on and cancelled.
pub proof fn loop_ends_on_cancellation_only(
    start: LoopState,
    interval: Option<u64>,
    seen: Seq<Observation>,
    at: int,
)
    requires
        0 <= at < seen.len(),
        state_at(start, interval, seen, at).phase != Phase::Terminated,
        state_at(start, interval, seen, at + 1).phase == Phase::Terminated,
    ensures
        state_at(start, interval, seen, at).phase == Phase::Polling,
        seen[at].enabled,
        seen[at].cancelled,
        step_at(start, interval, seen, at) == Step::Exit,
{
}

/// Work that is set up on the first invocation is set up once: of all the
/// invocations of a run, only the earliest can be marked as the first.
pub proof fn first_invocation_is_unique(
    start: LoopState,
    interval: Option<u64>,
    seen: Seq<Observation>,
    earlier: int,
    later: int,
)
    requires
        0 <= earlier < later < seen.len(),
        step_at(start, interval, seen, earlier) is Invoke,
    ensures
        step_at(start, interval, seen, later) != (Step::Invoke { first: true }),
{
    assert(state_at(start, interval, seen, earlier + 1).launched);
    launched_stays(start, interval, seen, earlier + 1, later);
}

} // verus!
