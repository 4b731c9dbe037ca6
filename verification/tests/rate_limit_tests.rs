//! Tests of the sliding-window rate limiter under a simulated clock.

use devhub_core::rate_limit::RateLimiter;

#[test]
fn below_limit_no_wait() {
    let mut rl = RateLimiter::new();
    assert_eq!(rl.required_wait_at("svc", 3, 100), 0);
    rl.record_at("svc", 100);
    assert_eq!(rl.required_wait_at("svc", 3, 100), 0);
    rl.record_at("svc", 100);
    // Two of three slots used: still no wait.
    assert_eq!(rl.required_wait_at("svc", 3, 100), 0);
}

#[test]
fn window_bound_holds_back_to_back() {
    // Two back-to-back admissions at the limit of two, then a third call:
    // the third must wait until the oldest timestamp leaves the window.
    let mut rl = RateLimiter::new();
    assert_eq!(rl.required_wait_at("svc", 2, 100), 0);
    rl.record_at("svc", 100);
    assert_eq!(rl.required_wait_at("svc", 2, 100), 0);
    rl.record_at("svc", 100);
    let wait = rl.required_wait_at("svc", 2, 100);
    assert_eq!(wait, 60);
    // The caller slept the demanded wait; at the new instant the oldest
    // request has left the trailing window and no further wait is owed.
    let now2 = 100 + wait;
    assert_eq!(rl.required_wait_at("svc", 2, now2), 0);
    rl.record_at("svc", now2);
    // One fresh timestamp in the window: one more is admitted at once.
    assert_eq!(rl.required_wait_at("svc", 2, now2), 0);
}

#[test]
fn window_slides_rather_than_buckets() {
    let mut rl = RateLimiter::new();
    rl.record_at("svc", 100);
    rl.record_at("svc", 130);
    // At 150 both timestamps are within the trailing minute.
    assert_eq!(rl.required_wait_at("svc", 2, 150), 60 - (150 - 100));
    // At 161 the first has slid out; only one remains.
    assert_eq!(rl.required_wait_at("svc", 2, 161), 0);
}

#[test]
fn services_are_independent() {
    let mut rl = RateLimiter::new();
    rl.record_at("azure", 100);
    rl.record_at("azure", 100);
    assert_eq!(rl.required_wait_at("azure", 2, 100), 60);
    assert_eq!(rl.required_wait_at("github", 2, 100), 0);
}

#[test]
fn reset_drops_one_service() {
    let mut rl = RateLimiter::new();
    rl.record_at("azure", 100);
    rl.record_at("github", 100);
    rl.reset("azure");
    assert_eq!(rl.required_wait_at("azure", 1, 100), 0);
    assert_eq!(rl.required_wait_at("github", 1, 100), 60);
}

#[test]
fn reset_all_drops_everything() {
    let mut rl = RateLimiter::new();
    rl.record_at("azure", 100);
    rl.record_at("github", 100);
    rl.reset_all();
    assert_eq!(rl.required_wait_at("azure", 1, 100), 0);
    assert_eq!(rl.required_wait_at("github", 1, 100), 0);
}

#[test]
fn disabled_limiter_never_waits() {
    let mut rl = RateLimiter::new();
    rl.set_enabled(false);
    rl.record_at("svc", 100);
    rl.record_at("svc", 100);
    assert_eq!(rl.required_wait_at("svc", 1, 100), 0);
    // Nothing was recorded while disabled.
    rl.set_enabled(true);
    assert_eq!(rl.required_wait_at("svc", 1, 100), 0);
}
