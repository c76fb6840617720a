use nml::shutdown::ShutdownSignal;
use std::time::Duration;

#[test]
fn a_fresh_signal_is_lowered() {
    let signal = ShutdownSignal::new();
    assert!(!signal.is_raised());
    let listener = signal.subscribe();
    assert!(!*listener.borrow());
    assert_eq!(listener.has_changed().ok(), Some(false));
}

#[test]
fn a_triggered_signal_stays_raised() {
    let mut signal = ShutdownSignal::new();
    signal.trigger();
    assert!(signal.is_raised());
    assert!(signal.is_raised());
    signal.trigger();
    assert!(signal.is_raised());
}

#[test]
fn every_listener_sees_the_trigger() {
    let mut signal = ShutdownSignal::new();
    let first = signal.subscribe();
    let second = signal.subscribe();
    signal.trigger();
    assert!(*first.borrow());
    assert!(*second.borrow());
    assert_eq!(first.has_changed().ok(), Some(true));
    assert_eq!(second.has_changed().ok(), Some(true));
}

#[test]
fn a_late_listener_finds_the_signal_raised() {
    let mut signal = ShutdownSignal::new();
    signal.trigger();
    let late = signal.subscribe();
    assert!(*late.borrow());
    assert_eq!(late.has_changed().ok(), Some(true));
}

#[test]
fn a_waiting_listener_is_woken() {
    let runtime = tokio::runtime::Builder::new_multi_thread()
        .worker_threads(2)
        .enable_all()
        .build()
        .unwrap();
    let mut signal = ShutdownSignal::new();
    let mut listener = signal.subscribe();
    let waiter = runtime.spawn(async move {
        let woken = listener.changed().await.is_ok();
        let value = *listener.borrow();
        (woken, value)
    });
    runtime.block_on(async { tokio::time::sleep(Duration::from_millis(50)).await });
    assert!(!waiter.is_finished());
    signal.trigger();
    let seen = runtime.block_on(async move {
        tokio::time::timeout(Duration::from_secs(5), waiter).await
    });
    assert_eq!(seen.unwrap().unwrap(), (true, true));
}
