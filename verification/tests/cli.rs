use nml::cli::{action_for, control_target, request_line, Args, CliAction, Cmd, RunOpts};
use nml::control::{parse_command, Command};
use nml::text::same_text;

#[test]
fn run_stays_in_the_foreground_only_when_asked() {
    assert_eq!(action_for(&Cmd::Run(RunOpts { foreground: true })), CliAction::Serve);
    assert_eq!(action_for(&Cmd::Run(RunOpts { foreground: false })), CliAction::Detach);
    assert_eq!(action_for(&Cmd::Run(RunOpts::default())), CliAction::Detach);
}

#[test]
fn status_and_stop_are_requests_to_the_daemon() {
    let args = Args { cmd: Cmd::Status };
    assert_eq!(action_for(&args.cmd), CliAction::Request(Command::Status));
    assert_eq!(action_for(&Cmd::Stop), CliAction::Request(Command::Stop));
}

#[test]
fn the_client_looks_for_the_daemon_on_the_loopback() {
    assert_eq!(control_target(), "127.0.0.1:5052");
}

#[test]
fn request_lines_are_the_command_words() {
    assert_eq!(request_line(Command::Status), Some("status\n"));
    assert_eq!(request_line(Command::Stop), Some("stop\n"));
    assert_eq!(request_line(Command::Unknown), None);
}

#[test]
fn the_daemon_understands_what_the_client_sends() {
    assert_eq!(parse_command(request_line(Command::Status).unwrap()), Command::Status);
    assert_eq!(parse_command(request_line(Command::Stop).unwrap()), Command::Stop);
}

#[test]
fn texts_are_compared_letter_by_letter() {
    assert!(same_text("", ""));
    assert!(same_text("dynamic_cpu_usage", "dynamic_cpu_usage"));
    assert!(same_text("grüße 🚀", "grüße 🚀"));
    assert!(!same_text("a", ""));
    assert!(!same_text("", "a"));
    assert!(!same_text("abc", "abd"));
    assert!(!same_text("abc", "abcd"));
    assert!(!same_text("abc", "ABC"));
    assert!(!same_text("e\u{301}", "\u{e9}"));
}
