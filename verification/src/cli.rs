//! The daemon's command line and the requests that its client side sends
//! over the control socket.

use crate::control::{command_of, trim_end, trim_start, trimmed, Command};
use vstd::prelude::*;

verus! {

/// The parsed command line.
#[derive(Clone, Copy, Debug, PartialEq, Eq)]
pub struct Args {
    /// The subcommand.
    pub cmd: Cmd,
}

/// The subcommands.
#[derive(Clone, Copy, Debug, PartialEq, Eq)]
pub enum Cmd {
    /// Run the daemon.
    Run(RunOpts),
    /// Ask a running daemon for its status.
    Status,
    /// Ask a running daemon to stop.
    Stop,
}

/// The options of `run`.
#[derive(Clone, Copy, Debug, PartialEq, Eq)]
pub struct RunOpts {
    /// Stay in the foreground instead of detaching.
    pub foreground: bool,
}

impl Default for RunOpts {
    fn default() -> (opts: Self)
        ensures
            !opts.foreground,
    {
        RunOpts { foreground: false }
    }
}

/// What the program does for a subcommand.
#[derive(Clone, Copy, Debug, PartialEq, Eq, Structural)]
pub enum CliAction {
    /// Run the daemon in this process.
    Serve,
    /// Start the program again, detached, as `run --foreground`.
    Detach,
    /// Send one request line to the running daemon and print its reply.
    Request(Command),
}

/// The action that belongs to a subcommand.
pub open spec fn action_of(cmd: Cmd) -> CliAction {
    match cmd {
        Cmd::Run(opts) => if opts.foreground {
            CliAction::Serve
        } else {
            CliAction::Detach
        },
        Cmd::Status => CliAction::Request(Command::Status),
        Cmd::Stop => CliAction::Request(Command::Stop),
    }
}

/// The line that asks the daemon for `command`, newline included. There is
/// no line for an unknown command.
pub open spec fn request_text(command: Command) -> Option<Seq<char>> {
    match command {
        Command::Status => Some("status\n"@),
        Command::Stop => Some("stop\n"@),
        Command::Unknown => None,
    }
}

/// The address at which the client side looks for the daemon's control
/// socket.
pub fn control_target() -> (address: &'static str)
    ensures
        address@ == "127.0.0.1:5052"@,
{
    "127.0.0.1:5052"
}

/// Decides what the program does for a subcommand.
pub fn action_for(cmd: &Cmd) -> (action: CliAction)
    ensures
        action == action_of(*cmd),
{
    match cmd {
        Cmd::Run(opts) => {
            if opts.foreground {
                CliAction::Serve
            } else {
                CliAction::Detach
            }
        },
        Cmd::Status => CliAction::Request(Command::Status),
        Cmd::Stop => CliAction::Request(Command::Stop),
    }
}

/// The request line to send for a command, if there is one.
pub fn request_line(command: Command) -> (line: Option<&'static str>)
    ensures
        match request_text(command) {
            Some(text) => line is Some && line->0@ == text,
            None => line is None,
        },
{
    match command {
        Command::Status => Some("status\n"),
        Command::Stop => Some("stop\n"),
        Command::Unknown => None,
    }
}

/// Client and daemon agree: the line that the client sends for a command is
/// read by the daemon as that very command.
pub proof fn request_is_understood(command: Command)
    requires
        command != Command::Unknown,
    ensures
        request_text(command) is Some,
        command_of(request_text(command)->0) == command,
{
    reveal_strlit("status\n");
    reveal_strlit("status");
    reveal_strlit("stop\n");
    reveal_strlit("stop");
    let line = request_text(command)->0;
    let word = line.drop_last();
    assert(!crate::control::is_whitespace(line[0]));
    assert(trim_start(line) == line);
    assert(crate::control::is_whitespace(line.last()));
    assert(!crate::control::is_whitespace(word.last()));
    assert(trim_end(word) == word);
    assert(trim_end(line) == word);
    assert(trimmed(line) == word);
    if command == Command::Status {
        assert(word =~= "status"@);
    } else {
        assert(word =~= "stop"@);
        assert(word != "status"@);
    }
}

} // verus!
