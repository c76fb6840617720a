//! The daemon controller: an RPC listener and a control listener that run
//! side by side under one shutdown signal and are joined when they end.
//!
//! The controller decides; the caller owns the sockets, waits on them and
//! reports what happened.

use crate::control::{command_of, handle_line, reply_text, Command};
use crate::shutdown::ShutdownSignal;
use tokio::sync::watch::Receiver;
use vstd::prelude::*;

verus! {

/// One of the controller's two listeners.
#[derive(Clone, Copy, Debug, PartialEq, Eq, Structural)]
pub enum Listener {
    /// The RPC service.
    Rpc,
    /// The control socket.
    Control,
}

/// How far a listener's loop has come.
#[derive(Clone, Copy, Debug, PartialEq, Eq, Structural)]
pub enum ListenerStatus {
    /// The loop is running.
    Running,
    /// The loop has ended in good order.
    Exited,
    /// The loop has ended on an error.
    Failed,
}

/// What the control listener does after it was woken.
#[derive(Clone, Copy, Debug, PartialEq, Eq, Structural)]
pub enum AcceptAction {
    /// Nothing to do: wait again.
    Wait,
    /// Serve the connection that was accepted, then wait again.
    Serve,
    /// Leave the loop in good order; a connection that arrived is not served.
    Stop,
    /// Leave the loop on the accept error.
    Fail,
}

/// The control listener's rule. Shutdown is looked at first, so that a
/// connection that becomes ready together with the signal is not served.
/// `connection` is `None` when no connection arrived, and else tells whether
/// accepting it succeeded.
pub open spec fn accept_plan(raised: bool, connection: Option<bool>) -> AcceptAction {
    if raised {
        AcceptAction::Stop
    } else {
        match connection {
            None => AcceptAction::Wait,
            Some(true) => AcceptAction::Serve,
            Some(false) => AcceptAction::Fail,
        }
    }
}

/// The status of a listener after it reported its end. The first report
/// counts.
pub open spec fn status_after(status: ListenerStatus, clean: bool) -> ListenerStatus {
    if status != ListenerStatus::Running {
        status
    } else if clean {
        ListenerStatus::Exited
    } else {
        ListenerStatus::Failed
    }
}

/// What the join of the two listeners yields: nothing while one of them may
/// still run, the failed listener as soon as one has failed (the RPC
/// listener first), and success once both have ended in good order.
pub open spec fn joint_outcome(rpc: ListenerStatus, control: ListenerStatus) -> Option<
    Result<(), Listener>,
> {
    if rpc == ListenerStatus::Failed {
        Some(Err(Listener::Rpc))
    } else if control == ListenerStatus::Failed {
        Some(Err(Listener::Control))
    } else if rpc == ListenerStatus::Exited && control == ListenerStatus::Exited {
        Some(Ok(()))
    } else {
        None
    }
}

/// The address that the RPC service listens on.
pub fn rpc_address() -> (address: &'static str)
    ensures
        address@ == "0.0.0.0:5051"@,
{
    "0.0.0.0:5051"
}

/// The address that the control socket listens on.
pub fn control_address() -> (address: &'static str)
    ensures
        address@ == "0.0.0.0:5052"@,
{
    "0.0.0.0:5052"
}

/// The state that the daemon's tasks share: the shutdown signal and how far
/// each listener has come.
pub struct DaemonController {
    signal: ShutdownSignal,
    rpc: ListenerStatus,
    control: ListenerStatus,
}

impl DaemonController {
    /// Whether shutdown has been requested.
    pub closed spec fn stopping(&self) -> bool {
        self.signal.raised()
    }

    /// How far the given listener has come.
    pub closed spec fn status(&self, which: Listener) -> ListenerStatus {
        match which {
            Listener::Rpc => self.rpc,
            Listener::Control => self.control,
        }
    }

    /// A controller at startup: no shutdown requested, both listeners
    /// running.
    pub fn new() -> (controller: Self)
        ensures
            !controller.stopping(),
            controller.status(Listener::Rpc) == ListenerStatus::Running,
            controller.status(Listener::Control) == ListenerStatus::Running,
    {
        DaemonController {
            signal: ShutdownSignal::new(),
            rpc: ListenerStatus::Running,
            control: ListenerStatus::Running,
        }
    }

    /// A listening end of the shutdown signal's channel, for a listener to
    /// wait on.
    pub fn subscribe(&self) -> (listener: Receiver<bool>) {
        self.signal.subscribe()
    }

    /// How far the given listener has come.
    pub fn status_of(&self, which: Listener) -> (status: ListenerStatus)
        ensures
            status == self.status(which),
    {
        match which {
            Listener::Rpc => self.rpc,
            Listener::Control => self.control,
        }
    }

    /// Whether shutdown has been requested.
    pub fn is_stopping(&self) -> (stopping: bool)
        ensures
            stopping == self.stopping(),
    {
        self.signal.is_raised()
    }

    /// Handles the result of reading one line from a control connection.
    /// `bytes_read` is 0 when the peer closed the connection or the read
    /// failed: the connection then ends with no reply. Any other line gets
    /// its reply, and a stop command requests shutdown first. Nothing else
    /// ever requests it.
    pub fn on_line(&mut self, bytes_read: usize, line: &str) -> (reply: Option<String>)
        ensures
            bytes_read == 0 ==> reply is None && final(self).stopping() == old(self).stopping(),
            bytes_read != 0 ==> reply is Some && reply->0@ == reply_text(command_of(line@))
                && final(self).stopping() == (old(self).stopping() || command_of(line@)
                == Command::Stop),
            forall|which: Listener| final(self).status(which) == old(self).status(which),
    {
        if bytes_read == 0 {
            None
        } else {
            Some(handle_line(&mut self.signal, line))
        }
    }

    /// Decides what the control listener does after it was woken, by the
    /// signal or by a connection.
    pub fn accept_step(&self, connection: Option<bool>) -> (action: AcceptAction)
        ensures
            action == accept_plan(self.stopping(), connection),
    {
        if self.signal.is_raised() {
            AcceptAction::Stop
        } else {
            match connection {
                None => AcceptAction::Wait,
                Some(true) => AcceptAction::Serve,
                Some(false) => AcceptAction::Fail,
            }
        }
    }

    /// Decides whether the RPC listener stops serving after it was woken:
    /// it does once shutdown is requested, or once the signal's channel is
    /// closed and no request can come any more.
    pub fn rpc_should_stop(&self, closed: bool) -> (stop: bool)
        ensures
            stop == (closed || self.stopping()),
    {
        closed || self.signal.is_raised()
    }

    /// Records that a listener's loop has ended, in good order or not.
    pub fn on_exit(&mut self, which: Listener, clean: bool)
        ensures
            final(self).status(which) == status_after(old(self).status(which), clean),
            forall|other: Listener|
                other != which ==> final(self).status(other) == old(self).status(other),
            final(self).stopping() == old(self).stopping(),
    {
        match which {
            Listener::Rpc => {
                if self.rpc == ListenerStatus::Running {
                    self.rpc = if clean {
                        ListenerStatus::Exited
                    } else {
                        ListenerStatus::Failed
                    };
                }
            },
            Listener::Control => {
                if self.control == ListenerStatus::Running {
                    self.control = if clean {
                        ListenerStatus::Exited
                    } else {
                        ListenerStatus::Failed
                    };
                }
            },
        }
    }

    /// The result of the controller's run, once there is one: it is not
    /// there before both listeners have ended, unless one of them failed.
    pub fn outcome(&self) -> (outcome: Option<Result<(), Listener>>)
        ensures
            outcome == joint_outcome(self.status(Listener::Rpc), self.status(Listener::Control)),
    {
        if self.rpc == ListenerStatus::Failed {
            Some(Err(Listener::Rpc))
        } else if self.control == ListenerStatus::Failed {
            Some(Err(Listener::Control))
        } else if self.rpc == ListenerStatus::Exited && self.control == ListenerStatus::Exited {
            Some(Ok(()))
        } else {
            None
        }
    }
}

/// Join semantics: the controller reports success only after both listeners
/// have ended, and reports nothing while both still run.
pub proof fn join_waits_for_both(rpc: ListenerStatus, control: ListenerStatus)
    ensures
        joint_outcome(rpc, control) == Some(Ok::<(), Listener>(())) <==> (rpc
            == ListenerStatus::Exited && control == ListenerStatus::Exited),
        rpc == ListenerStatus::Running && control == ListenerStatus::Running ==> joint_outcome(
            rpc,
            control,
        ) is None,
{
}

/// Once shutdown is requested the control listener serves nothing more: it
/// stops, whether or not a connection is waiting.
pub proof fn no_service_after_shutdown(raised: bool, connection: Option<bool>)
    ensures
        raised ==> accept_plan(raised, connection) == AcceptAction::Stop,
        accept_plan(raised, connection) == AcceptAction::Serve ==> !raised && connection == Some(
            true,
        ),
{
}

} // verus!
