use nml::daemon::{
    control_address, rpc_address, AcceptAction, DaemonController, Listener,
};

#[test]
fn listeners_are_bound_to_fixed_addresses() {
    assert_eq!(rpc_address(), "0.0.0.0:5051");
    assert_eq!(control_address(), "0.0.0.0:5052");
}

#[test]
fn a_new_controller_runs_and_has_no_outcome() {
    let controller = DaemonController::new();
    assert!(!controller.is_stopping());
    assert_eq!(controller.outcome(), None);
}

#[test]
fn a_closed_connection_gets_no_reply() {
    let mut controller = DaemonController::new();
    assert_eq!(controller.on_line(0, ""), None);
    assert_eq!(controller.on_line(0, "stop\n"), None);
    assert!(!controller.is_stopping());
}

#[test]
fn lines_are_answered_on_their_connection() {
    let mut controller = DaemonController::new();
    assert_eq!(controller.on_line(7, "status\n"), Some("daemon running normally\n".to_string()));
    assert!(!controller.is_stopping());
    assert_eq!(controller.on_line(11, "frobnicate\n"), Some("unknown command\n".to_string()));
    assert!(!controller.is_stopping());
    assert_eq!(controller.on_line(5, "stop\n"), Some("stopping\n".to_string()));
    assert!(controller.is_stopping());
    assert_eq!(controller.on_line(7, "status\n"), Some("daemon running normally\n".to_string()));
    assert!(controller.is_stopping());
}

#[test]
fn the_control_listener_serves_until_shutdown() {
    let mut controller = DaemonController::new();
    assert_eq!(controller.accept_step(None), AcceptAction::Wait);
    assert_eq!(controller.accept_step(Some(true)), AcceptAction::Serve);
    assert_eq!(controller.accept_step(Some(false)), AcceptAction::Fail);
    let _ = controller.on_line(5, "stop\n");
    assert_eq!(controller.accept_step(None), AcceptAction::Stop);
    assert_eq!(controller.accept_step(Some(true)), AcceptAction::Stop);
    assert_eq!(controller.accept_step(Some(false)), AcceptAction::Stop);
}

#[test]
fn the_rpc_listener_stops_on_shutdown_or_closed_channel() {
    let mut controller = DaemonController::new();
    assert!(!controller.rpc_should_stop(false));
    assert!(controller.rpc_should_stop(true));
    let _ = controller.on_line(5, "stop\n");
    assert!(controller.rpc_should_stop(false));
    assert!(controller.rpc_should_stop(true));
}

#[test]
fn listeners_of_the_controller_are_woken_by_stop() {
    let mut controller = DaemonController::new();
    let listener = controller.subscribe();
    assert_eq!(listener.has_changed().ok(), Some(false));
    let _ = controller.on_line(7, "status\n");
    assert_eq!(listener.has_changed().ok(), Some(false));
    let _ = controller.on_line(5, "stop\n");
    assert_eq!(listener.has_changed().ok(), Some(true));
    assert!(*listener.borrow());
}

#[test]
fn the_join_waits_for_both_listeners() {
    let mut controller = DaemonController::new();
    controller.on_exit(Listener::Control, true);
    assert_eq!(controller.outcome(), None);
    controller.on_exit(Listener::Rpc, true);
    assert_eq!(controller.outcome(), Some(Ok(())));

    let mut controller = DaemonController::new();
    controller.on_exit(Listener::Rpc, true);
    assert_eq!(controller.outcome(), None);
    controller.on_exit(Listener::Control, true);
    assert_eq!(controller.outcome(), Some(Ok(())));
}

#[test]
fn a_failed_listener_ends_the_join_at_once() {
    let mut controller = DaemonController::new();
    controller.on_exit(Listener::Control, false);
    assert_eq!(controller.outcome(), Some(Err(Listener::Control)));

    let mut controller = DaemonController::new();
    controller.on_exit(Listener::Rpc, false);
    assert_eq!(controller.outcome(), Some(Err(Listener::Rpc)));
    controller.on_exit(Listener::Control, false);
    assert_eq!(controller.outcome(), Some(Err(Listener::Rpc)));
}

#[test]
fn the_first_report_of_a_listener_counts() {
    let mut controller = DaemonController::new();
    controller.on_exit(Listener::Rpc, true);
    controller.on_exit(Listener::Rpc, false);
    controller.on_exit(Listener::Control, true);
    assert_eq!(controller.outcome(), Some(Ok(())));
}
