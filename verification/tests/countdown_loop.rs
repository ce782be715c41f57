use sleep_timer::countdown::{
    run_countdown, should_suspend, tick, CancelFlag, Observation, TickOutcome, WaitResult,
};

fn obs(cancelled: bool, elapsed: u64) -> Observation {
    Observation { cancelled, elapsed }
}

#[test]
fn tick_checks_cancellation_first() {
    assert_eq!(tick(10, true, 0), TickOutcome::Cancelled);
    assert_eq!(tick(10, true, 10), TickOutcome::Cancelled);
}

#[test]
fn tick_completes_when_elapsed_reaches_total() {
    assert_eq!(tick(10, false, 10), TickOutcome::Completed);
    assert_eq!(tick(10, false, 11), TickOutcome::Completed);
}

#[test]
fn tick_continues_with_remaining_time() {
    assert_eq!(tick(10, false, 3), TickOutcome::Continue(7));
}

#[test]
fn zero_duration_finishes_immediately() {
    let run = vec![obs(false, 0)];
    assert_eq!(run_countdown(0, &run), Some(WaitResult::Finished));
}

#[test]
fn zero_duration_never_continues() {
    assert_eq!(tick(0, false, 0), TickOutcome::Completed);
}

#[test]
fn cancel_before_first_tick_terminates() {
    let run = vec![obs(true, 0)];
    assert_eq!(run_countdown(u64::MAX, &run), Some(WaitResult::Terminated));
}

#[test]
fn cancel_mid_countdown_terminates_without_suspend() {
    let run = vec![
        obs(false, 0),
        obs(false, 1),
        obs(false, 2),
        obs(true, 3),
    ];
    let outcome = run_countdown(10, &run);
    assert_eq!(outcome, Some(WaitResult::Terminated));
    assert!(!should_suspend(&outcome.unwrap()));
}

#[test]
fn natural_completion_finishes_and_suspends() {
    let run = vec![obs(false, 0), obs(false, 1), obs(false, 2)];
    let outcome = run_countdown(2, &run);
    assert_eq!(outcome, Some(WaitResult::Finished));
    let mut suspend_invocations: u32 = 0;
    if should_suspend(&outcome.unwrap()) {
        suspend_invocations += 1;
    }
    assert_eq!(suspend_invocations, 1);
}

#[test]
fn exhausted_recording_is_still_running() {
    let run = vec![obs(false, 0), obs(false, 1)];
    assert_eq!(run_countdown(10, &run), None);
}

#[test]
fn setting_cancel_flag_is_idempotent() {
    let mut once = CancelFlag::new();
    once.request_cancel();
    let mut many = CancelFlag::new();
    many.request_cancel();
    many.request_cancel();
    many.request_cancel();
    assert_eq!(once, many);
    assert!(many.is_set());
}

#[test]
fn fresh_flag_is_unset() {
    assert!(!CancelFlag::new().is_set());
}
