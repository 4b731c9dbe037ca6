//! Tests of the retry executor's decision core and the transience
//! classifier.

use devhub_core::retry::{
    is_retryable_error, next_backoff, run_retry, run_retry_on_retryable, RetryPolicy,
};

#[test]
fn always_failing_runs_exactly_four_times() {
    let policy = RetryPolicy::default();
    let outcomes = vec![false, false, false, false];
    let run = run_retry(&outcomes, &policy, true);
    // One initial attempt plus three retries.
    assert_eq!(run.attempts, 4);
    assert!(!run.succeeded);
    // The pauses double from 100 ms.
    assert_eq!(run.sleeps, vec![100, 200, 400]);
}

#[test]
fn stops_at_first_success() {
    let policy = RetryPolicy::default();
    let run = run_retry(&vec![true, false, false, false], &policy, true);
    assert_eq!(run.attempts, 1);
    assert!(run.succeeded);
    assert!(run.sleeps.is_empty());

    let run2 = run_retry(&vec![false, false, true, false], &policy, true);
    assert_eq!(run2.attempts, 3);
    assert!(run2.succeeded);
    assert_eq!(run2.sleeps, vec![100, 200]);
}

#[test]
fn disabled_retries_run_once() {
    let policy = RetryPolicy::default();
    let run = run_retry(&vec![false, false, false, false], &policy, false);
    assert_eq!(run.attempts, 1);
    assert!(!run.succeeded);
    assert!(run.sleeps.is_empty());
}

#[test]
fn backoff_grows_and_caps() {
    let policy = RetryPolicy::default();
    assert_eq!(next_backoff(100, &policy), 200);
    assert_eq!(next_backoff(2500, &policy), 5000);
    assert_eq!(next_backoff(4000, &policy), 5000);
    assert_eq!(next_backoff(u64::MAX, &policy), 5000);
}

#[test]
fn non_retryable_failure_returns_at_once() {
    let policy = RetryPolicy::default();
    let outcomes = vec![
        Some("invalid credentials".to_string()),
        Some("invalid credentials".to_string()),
        Some("invalid credentials".to_string()),
        Some("invalid credentials".to_string()),
    ];
    let run = run_retry_on_retryable(&outcomes, &policy, true);
    // The classifier rejects the message: exactly one invocation, no sleep.
    assert_eq!(run.attempts, 1);
    assert_eq!(run.failure, Some("invalid credentials".to_string()));
    assert!(run.sleeps.is_empty());
}

#[test]
fn retryable_failures_exhaust_the_budget() {
    let policy = RetryPolicy::default();
    let outcomes = vec![
        Some("connection refused".to_string()),
        Some("connection refused".to_string()),
        Some("connection refused".to_string()),
        Some("connection refused".to_string()),
    ];
    let run = run_retry_on_retryable(&outcomes, &policy, true);
    assert_eq!(run.attempts, 4);
    assert_eq!(run.failure, Some("connection refused".to_string()));
    assert_eq!(run.sleeps, vec![100, 200, 400]);
}

#[test]
fn retryable_then_success() {
    let policy = RetryPolicy::default();
    let outcomes = vec![
        Some("HTTP 503 from upstream".to_string()),
        None,
        None,
        None,
    ];
    let run = run_retry_on_retryable(&outcomes, &policy, true);
    assert_eq!(run.attempts, 2);
    assert_eq!(run.failure, None);
    assert_eq!(run.sleeps, vec![100]);
}

#[test]
fn classifier_matches_transient_conditions() {
    assert!(is_retryable_error("Network unreachable"));
    assert!(is_retryable_error("operation TIMEOUT"));
    assert!(is_retryable_error("service temporarily unavailable"));
    assert!(is_retryable_error("Rate Limit exceeded"));
    assert!(is_retryable_error("server returned 503"));
    assert!(is_retryable_error("server returned 502"));
    assert!(is_retryable_error("internal error 500"));
    assert!(is_retryable_error("Connection reset by peer"));
    assert!(is_retryable_error("connect: refused"));
    assert!(!is_retryable_error("invalid credentials"));
    assert!(!is_retryable_error(""));
    assert!(!is_retryable_error("bad request"));
}
