//! The shutdown signal: a boolean that goes from lowered to raised once and
//! never back, kept by one owner and published to any number of listeners.

use tokio::sync::watch::{Receiver, Sender};
use vstd::prelude::*;

verus! {

/// `tokio::sync::watch::Sender`, the publishing half of a watch channel. Its
/// contents are not visible to the verifier.
#[verifier::external_type_specification]
#[verifier::external_body]
#[verifier::reject_recursive_types(T)]
pub struct ExSender<T>(Sender<T>);

/// `tokio::sync::watch::Receiver`, a listening half of a watch channel. Its
/// contents are not visible to the verifier.
#[verifier::external_type_specification]
#[verifier::external_body]
#[verifier::reject_recursive_types(T)]
pub struct ExReceiver<T>(Receiver<T>);

/// Calls `tokio::sync::watch::channel` with `false` as the first value.
/// Nothing is claimed of the two halves.
#[verifier::external_body]
fn open_channel() -> (halves: (Sender<bool>, Receiver<bool>)) {
    tokio::sync::watch::channel(false)
}

/// Calls `tokio::sync::watch::Sender::send` with `true`, which wakes every
/// listener. Nothing is claimed of the outcome.
#[verifier::external_body]
fn publish_raised(tx: &Sender<bool>) {
    let _ = tx.send(true);
}

/// Calls `Clone::clone` of `tokio::sync::watch::Receiver`: one more listener
/// on the same channel. Nothing is claimed of it.
#[verifier::external_body]
fn another_listener(rx: &Receiver<bool>) -> (listener: Receiver<bool>) {
    rx.clone()
}

/// What can happen to a signal: its owner raises it, or somebody looks at it.
#[derive(Clone, Copy, Debug, PartialEq, Eq, Structural)]
pub enum SignalEvent {
    /// The owner raises the signal.
    Trigger,
    /// Somebody reads the signal.
    Observe,
}

/// The value of a signal after one more event.
pub open spec fn signal_after(raised: bool, event: SignalEvent) -> bool {
    raised || event == SignalEvent::Trigger
}

/// The value that the `at`-th of `events` meets, on a signal that started out
/// as `raised`.
pub open spec fn signal_at(raised: bool, events: Seq<SignalEvent>, at: int) -> bool
    decreases at,
{
    if at <= 0 {
        raised
    } else {
        signal_after(signal_at(raised, events, at - 1), events[at - 1])
    }
}

/// A one-way flag. It starts lowered, `trigger` raises it, and nothing lowers
/// it again. The owner holds a watch channel through which listeners are
/// woken when the flag goes up.
pub struct ShutdownSignal {
    tx: Sender<bool>,
    rx: Receiver<bool>,
    raised: bool,
}

impl ShutdownSignal {
    /// Whether the signal has been raised.
    pub closed spec fn raised(&self) -> bool {
        self.raised
    }

    /// A fresh signal, lowered.
    pub fn new() -> (signal: Self)
        ensures
            !signal.raised(),
    {
        let (tx, rx) = open_channel();
        ShutdownSignal { tx, rx, raised: false }
    }

    /// Raises the signal and wakes the listeners. Raising it again changes
    /// nothing.
    pub fn trigger(&mut self)
        ensures
            final(self).raised() == signal_after(old(self).raised(), SignalEvent::Trigger),
    {
        if !self.raised {
            publish_raised(&self.tx);
            self.raised = true;
        }
    }

    /// Reads the signal.
    pub fn is_raised(&self) -> (raised: bool)
        ensures
            raised == self.raised(),
    {
        self.raised
    }

    /// A listening end of the channel, to wait on for the moment the signal
    /// is raised. A listener that subscribes late finds the current value.
    pub fn subscribe(&self) -> (listener: Receiver<bool>) {
        another_listener(&self.rx)
    }
}

/// A raised signal is never seen lowered again: whatever the events, once one
/// of them meets the signal raised, so does every later one.
pub proof fn signal_is_monotonic(raised: bool, events: Seq<SignalEvent>, earlier: int, later: int)
    requires
        0 <= earlier <= later <= events.len(),
        signal_at(raised, events, earlier),
    ensures
        signal_at(raised, events, later),
    decreases later - earlier,
{
    if earlier < later {
        signal_is_monotonic(raised, events, earlier, later - 1);
    }
}

/// A signal is raised exactly when it started out raised or a trigger came
/// before: nothing else raises it.
pub proof fn signal_raised_by_trigger_only(raised: bool, events: Seq<SignalEvent>, at: int)
    requires
        0 <= at <= events.len(),
    ensures
        signal_at(raised, events, at) <==> (raised || exists|k: int|
            0 <= k < at && events[k] == SignalEvent::Trigger),
    decreases at,
{
    if at > 0 {
        signal_raised_by_trigger_only(raised, events, at - 1);
        if signal_at(raised, events, at) && !raised {
            if events[at - 1] == SignalEvent::Trigger {
                assert(0 <= at - 1 < at && events[at - 1] == SignalEvent::Trigger);
            } else {
                let k = choose|k: int| 0 <= k < at - 1 && events[k] == SignalEvent::Trigger;
                assert(0 <= k < at && events[k] == SignalEvent::Trigger);
            }
        }
    }
}

} // verus!
