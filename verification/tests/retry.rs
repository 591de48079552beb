//! The retry/timeout policy family.

use jw_stm32f1_hal::retry::{
    elapsed_ticks, NoRetry, RetryTimes, SoftTicker, TickCounter, TickWindow, Timeout,
    TimeoutInstance,
};

#[test]
fn bounded_retry_times_out_after_exactly_the_bound() {
    let policy = RetryTimes::new(3);
    let mut inst = policy.start();
    assert!(!inst.timeout());
    assert!(!inst.timeout());
    assert!(!inst.timeout());
    assert!(inst.timeout());
    assert!(inst.timeout());
    inst.restart();
    assert!(!inst.timeout());
    assert!(!inst.timeout());
    assert!(!inst.timeout());
    assert!(inst.timeout());
}

#[test]
fn bounded_retry_zero_times_out_at_once() {
    let policy = RetryTimes::new(0);
    let mut inst = policy.start();
    assert!(inst.timeout());
}

#[test]
fn one_policy_starts_independent_instances() {
    let policy = RetryTimes::new(1);
    let mut a = policy.start();
    let mut b = policy.start();
    assert!(!a.timeout());
    assert!(a.timeout());
    // b's progress is its own
    assert!(!b.timeout());
    assert!(b.timeout());
}

#[test]
fn unconditional_times_out_immediately() {
    let policy = NoRetry;
    let mut inst = policy.start();
    assert!(inst.timeout());
    inst.restart();
    assert!(inst.timeout());
    inst.interval();
    assert!(inst.timeout());
}

#[test]
fn elapsed_ticks_counts_down_and_wraps() {
    // plain countdown: 100 -> 40 on a reload of 1000
    assert_eq!(elapsed_ticks(100, 40, 1000), 60);
    // no time passed
    assert_eq!(elapsed_ticks(500, 500, 1000), 0);
    // wrapped: 5 counted down to 0, reloaded at 1000, reached 900
    assert_eq!(elapsed_ticks(5, 900, 1000), 105);
    // full edge values
    assert_eq!(elapsed_ticks(1000, 0, 1000), 1000);
}

#[test]
fn soft_ticker_counts_down_and_reloads() {
    let mut clock = SoftTicker::new(1000, 400);
    assert_eq!(clock.reload(), 1000);
    assert_eq!(clock.now(), 1000);
    assert_eq!(clock.now(), 600);
    assert_eq!(clock.now(), 200);
    // 200 < 400: the counter reloads
    assert_eq!(clock.now(), 1000);
}

#[test]
fn tick_window_times_out_once_the_window_elapses() {
    // each poll costs 200 ticks (two readings of a step-100 clock)
    let clock = SoftTicker::new(100_000, 100);
    let policy = TickWindow::new(250, 1000, clock);
    let mut inst = policy.start();
    assert!(!inst.timeout());
    assert!(!inst.timeout());
    assert!(inst.timeout());
}

#[test]
fn tick_window_restart_takes_a_fresh_baseline() {
    let clock = SoftTicker::new(100_000, 100);
    let policy = TickWindow::new(250, 1000, clock);
    let mut inst = policy.start();
    assert!(!inst.timeout());
    assert!(!inst.timeout());
    inst.restart();
    assert!(!inst.timeout());
    assert!(!inst.timeout());
    assert!(inst.timeout());
}

#[test]
fn tick_window_poll_cap_bounds_a_stalled_clock() {
    // a clock that never advances can never let the window elapse; the
    // poll budget still ends the wait
    let clock = SoftTicker::new(1000, 0);
    let policy = TickWindow::new(10, 2, clock);
    let mut inst = policy.start();
    assert!(!inst.timeout());
    assert!(!inst.timeout());
    assert!(inst.timeout());
}
