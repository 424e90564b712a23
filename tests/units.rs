use android_utils::log::{
    log_level_to_priority, DisableLogGuard, Level, LevelFilter, ASSERT, DEBUG, ERROR, INFO,
    VERBOSE, WARN,
};
use android_utils::os::{
    direct_outcome, route_wake, spawn_result, BridgeError, FallbackDispatcher, InvokeAction,
    PollDriver, PollOutcome, TaskPhase, WakeOutcome, WakeRoute,
};
use android_utils::queue::SerialQueue;

#[test]
fn priorities_match_android_constants() {
    assert_eq!(log_level_to_priority(Level::Error), 6);
    assert_eq!(log_level_to_priority(Level::Warn), 5);
    assert_eq!(log_level_to_priority(Level::Info), 4);
    assert_eq!(log_level_to_priority(Level::Debug), 3);
    assert_eq!(log_level_to_priority(Level::Trace), 2);
    assert_eq!(log_level_to_priority(Level::Error), ERROR);
    assert_eq!(log_level_to_priority(Level::Warn), WARN);
    assert_eq!(log_level_to_priority(Level::Info), INFO);
    assert_eq!(log_level_to_priority(Level::Debug), DEBUG);
    assert_eq!(log_level_to_priority(Level::Trace), VERBOSE);
    assert_eq!(ASSERT, 7);
}

#[test]
fn disable_log_guard_switches_off_and_restores() {
    log::set_max_level(log::LevelFilter::Info);
    {
        let guard = DisableLogGuard::new();
        assert_eq!(log::max_level(), log::LevelFilter::Off);
        assert_eq!(guard.saved(), LevelFilter::Info);
    }
    assert_eq!(log::max_level(), log::LevelFilter::Info);
    let guard = DisableLogGuard::restoring(LevelFilter::Trace);
    assert_eq!(guard.saved(), LevelFilter::Trace);
    drop(guard);
    assert_eq!(log::max_level(), log::LevelFilter::Trace);
    log::set_max_level(log::LevelFilter::Off);
}

#[test]
fn serial_queue_is_fifo_and_refuses_after_shutdown() {
    let mut q = SerialQueue::new();
    assert!(q.is_idle());
    assert!(q.is_open());
    assert!(q.post(3));
    assert!(q.post(1));
    assert!(q.post(3));
    assert_eq!(q.len(), 3);
    assert_eq!(q.run_one(), Some(3));
    assert_eq!(q.run_one(), Some(1));
    q.shut_down();
    assert!(!q.is_open());
    assert!(q.is_idle());
    assert_eq!(q.run_one(), None);
    assert!(!q.post(4));
    assert_eq!(q.len(), 0);
}

#[test]
fn spawn_result_reports_shutdown() {
    assert_eq!(spawn_result(true), Ok(()));
    assert_eq!(spawn_result(false), Err(BridgeError::Shutdown));
}

#[test]
fn wake_routes_and_outcomes() {
    assert_eq!(route_wake(true, true), WakeRoute::Direct);
    assert_eq!(route_wake(true, false), WakeRoute::Fallback);
    assert_eq!(route_wake(false, true), WakeRoute::Discard);
    assert_eq!(route_wake(false, false), WakeRoute::Discard);
    assert_eq!(direct_outcome(true), WakeOutcome::Delivered);
    assert_eq!(direct_outcome(false), WakeOutcome::Dropped);
}

#[test]
fn dispatcher_lifecycle() {
    let mut d: FallbackDispatcher<u32> = FallbackDispatcher::new();
    assert!(d.needs_start());
    assert!(d.sender().is_none());
    assert_eq!(d.outcome(true), WakeOutcome::Dropped);
    d.start(9);
    assert!(!d.needs_start());
    assert_eq!(d.sender(), Some(&9));
    assert_eq!(d.outcome(true), WakeOutcome::Deferred);
    assert_eq!(d.outcome(false), WakeOutcome::Dropped);
    assert_eq!(d.shut_down(), Some(9));
    assert!(!d.needs_start());
    assert!(d.sender().is_none());
    assert_eq!(d.outcome(true), WakeOutcome::Dropped);
    assert_eq!(d.shut_down(), None);
}

#[test]
fn dispatcher_shut_down_before_start_never_starts() {
    let mut d: FallbackDispatcher<u32> = FallbackDispatcher::new();
    assert_eq!(d.shut_down(), None);
    assert!(!d.needs_start());
}

#[test]
fn poll_driver_steps() {
    let mut d: PollDriver<u32, &str> = PollDriver::new(5);
    assert_eq!(d.phase(), TaskPhase::Unstarted);
    assert_eq!(d.begin(1), Ok(InvokeAction::InstallWakerAndPoll));
    d.install_waker("w");
    assert_eq!(d.phase(), TaskPhase::Pending);
    assert_eq!(*d.waker(), "w");
    *d.future_mut() += 1;
    assert!(!d.finish_poll(PollOutcome::Pending));
    assert_eq!(d.begin(1), Ok(InvokeAction::Poll));
    assert_eq!(*d.waker(), "w");
    assert_eq!(*d.future_mut(), 6);
    assert!(d.finish_poll(PollOutcome::Ready));
    assert_eq!(d.phase(), TaskPhase::Completed);
    assert_eq!(d.begin(1), Ok(InvokeAction::Skip));
}

#[test]
fn local_poll_driver_checks_thread() {
    let d: PollDriver<u32, u8> = PollDriver::new_local(0, 4);
    assert_eq!(d.begin(3), Err(BridgeError::LocalThreadViolation));
    assert_eq!(d.begin(4), Ok(InvokeAction::InstallWakerAndPoll));
}
