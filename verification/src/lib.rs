//! Verified core of a node-monitoring agent and its daemon.
//!
//! The agent registers a machine with a service and then runs periodic
//! tasks that sample the machine; the daemon offers that service and a
//! small control socket. This crate holds what both decide: the life of a
//! task and of the registry that keeps the tasks (`task`, `schedule`,
//! `manager`), the shutdown of the daemon's listeners (`shutdown`, `daemon`),
//! the control protocol (`control`, `cli`), and the registration of a
//! machine (`machine`, `identity`, `config`). Sockets, clocks and the
//! operating system are the caller's.

pub mod cli;
pub mod config;
pub mod control;
pub mod daemon;
pub mod identity;
pub mod machine;
pub mod manager;
pub mod schedule;
pub mod shutdown;
pub mod task;
pub mod text;
