use session_daemon::daemon::{Daemon, DaemonEvent, Directive, Phase};

#[test]
fn a_fresh_daemon_is_not_running_and_not_armed() {
    let daemon = Daemon::new();
    assert_eq!(daemon.current_phase(), Phase::New);
    assert!(!daemon.is_armed());
}

#[test]
fn stop_before_the_loop_is_a_no_op() {
    let mut daemon = Daemon::new();
    assert!(!daemon.stop());
}

#[test]
fn a_failed_startup_sync_still_enters_the_loop() {
    let mut daemon = Daemon::new();
    let _rx = daemon.enter_loop(false);
    assert_eq!(daemon.current_phase(), Phase::Running);
    assert!(daemon.is_armed());
}

#[test]
fn stopping_twice_signals_exactly_once() {
    let mut daemon = Daemon::new();
    let _rx = daemon.enter_loop(true);
    assert!(daemon.stop());
    assert!(!daemon.stop());
    assert!(!daemon.is_armed());
}

#[test]
fn the_stop_signal_reaches_the_loop_receiver() {
    let mut daemon = Daemon::new();
    let mut rx = daemon.enter_loop(true);
    assert!(daemon.stop());
    assert!(rx.try_recv().is_ok());
}

#[test]
fn stop_after_the_receiver_is_gone_still_consumes_the_handle() {
    let mut daemon = Daemon::new();
    let rx = daemon.enter_loop(true);
    drop(rx);
    assert!(daemon.stop());
    assert!(!daemon.stop());
}

#[test]
fn a_shutdown_request_exits_the_loop() {
    let mut daemon = Daemon::new();
    let _rx = daemon.enter_loop(true);
    assert_eq!(daemon.on_event(DaemonEvent::ShutdownRequested), Directive::ExitLoop);
    assert_eq!(daemon.current_phase(), Phase::Stopped);
}

#[test]
fn an_interrupt_exits_the_loop_like_a_stop_request() {
    let mut daemon = Daemon::new();
    let _rx = daemon.enter_loop(true);
    assert_eq!(daemon.on_event(DaemonEvent::Interrupted), Directive::ExitLoop);
    assert_eq!(daemon.current_phase(), Phase::Stopped);
}

#[test]
fn timer_ticks_run_their_own_checks_and_keep_the_loop_running() {
    let mut daemon = Daemon::new();
    let _rx = daemon.enter_loop(true);
    assert_eq!(daemon.on_event(DaemonEvent::ExpiryTick), Directive::RunExpiryCheck);
    assert_eq!(daemon.current_phase(), Phase::Running);
    assert_eq!(daemon.on_event(DaemonEvent::WarningTick), Directive::RunWarningCheck);
    assert_eq!(daemon.current_phase(), Phase::Running);
}
