//! The executor: how long a unit of work lasts.

use std::time::{Duration, Instant};

use lemonade_worker::worker::{WorkerService, DEFAULT_DELAY};

/// Blocks the caller for as long as the executor asked.
fn block_for(wait_ms: u64) {
    let runtime = tokio::runtime::Builder::new_current_thread()
        .enable_time()
        .build()
        .expect("failed to start a runtime");
    runtime.block_on(async { tokio::time::sleep(Duration::from_millis(wait_ms)).await });
}

/// Test that default delay is used when no delay is provided
#[test]
fn test_no_delay_provided_should_elapse_default() {
    let default_delay = Duration::from_millis(DEFAULT_DELAY);
    let worker = WorkerService;
    let time_now = Instant::now();
    block_for(worker.handle_work(None));
    assert!(time_now.elapsed() >= default_delay);
}

/// Test that provided delay is used when specified
#[test]
fn test_any_delay_provided_should_elapse_itself() {
    let default_delay = Duration::from_millis(5);
    let worker = WorkerService;
    let time_now = Instant::now();
    block_for(worker.handle_work(Some(5)));
    assert!(time_now.elapsed() >= default_delay);
}

/// Test that a delay less than default doesn't elapse the default time
#[test]
fn test_lesser_delay_provided_should_not_elapse_default() {
    let default_default = Duration::from_millis(DEFAULT_DELAY);
    let worker = WorkerService;
    let wait = worker.handle_work(Some(DEFAULT_DELAY - 1));
    assert!(Duration::from_millis(wait) < default_default);
}

/// Test that a delay greater than default elapses more than the default time
#[test]
fn test_greater_delay_provided_should_elapse_default() {
    let default_default = Duration::from_millis(DEFAULT_DELAY);
    let worker = WorkerService;
    let time_now = Instant::now();
    block_for(worker.handle_work(Some(DEFAULT_DELAY + 1)));
    assert!(time_now.elapsed() > default_default);
}

#[test]
fn default_delay_is_twenty_milliseconds() {
    assert_eq!(DEFAULT_DELAY, 20);
    assert_eq!(WorkerService.handle_work(None), 20);
}

#[test]
fn hint_is_taken_as_it_is() {
    let worker = WorkerService;
    assert_eq!(worker.handle_work(Some(0)), 0);
    assert_eq!(worker.handle_work(Some(5)), 5);
    assert_eq!(worker.handle_work(Some(19)), 19);
    assert_eq!(worker.handle_work(Some(20)), 20);
    assert_eq!(worker.handle_work(Some(21)), 21);
    assert_eq!(worker.handle_work(Some(u64::MAX)), u64::MAX);
}

#[test]
fn derived_executor_decides_like_a_fresh_one() {
    let worker = WorkerService::default();
    let copy = worker.clone();
    assert_eq!(worker.handle_work(None), copy.handle_work(None));
    assert_eq!(copy.handle_work(Some(7)), 7);
}
