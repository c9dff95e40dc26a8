//! The single-item generation throttle: one second between completed
//! generations; a cache hit neither waits longer nor resets the window.

use thumbserve::generator::GenerationStatus;
use thumbserve::throttle::Throttle;

#[test]
fn fresh_throttle_enforces_full_window() {
    let throttle = Throttle::new(10_000);
    assert_eq!(throttle.wait_before_start(10_000), 1000);
    assert_eq!(throttle.wait_before_start(10_400), 600);
    assert_eq!(throttle.wait_before_start(10_999), 1);
    assert_eq!(throttle.wait_before_start(11_000), 0);
    assert_eq!(throttle.wait_before_start(20_000), 0);
}

#[test]
fn generated_outcome_restarts_window() {
    let mut throttle = Throttle::new(0);
    throttle.record_completion(5_000, &GenerationStatus::Generated);
    assert_eq!(throttle.last_generated_ms, 5_000);
    // A second call 300 ms after the completion must wait the remainder.
    assert_eq!(throttle.wait_before_start(5_300), 700);
    // The wait lands exactly at one second past the completion.
    assert_eq!(5_300 + throttle.wait_before_start(5_300), 6_000);
}

#[test]
fn skipped_outcome_does_not_reset_window() {
    let mut throttle = Throttle::new(0);
    throttle.record_completion(2_000, &GenerationStatus::Generated);
    // A cache hit at 2 600 ms does not move the window...
    throttle.record_completion(2_600, &GenerationStatus::Skipped);
    assert_eq!(throttle.last_generated_ms, 2_000);
    // ...so a call at 3 000 ms does not wait at all.
    assert_eq!(throttle.wait_before_start(3_000), 0);
}

#[test]
fn back_to_back_calls_are_spaced() {
    let mut throttle = Throttle::new(0);
    // First call completes real work at t = 1 500 ms.
    throttle.record_completion(1_500, &GenerationStatus::Generated);
    // Second call arrives immediately; its work may start no earlier
    // than one second after the first completion.
    let now = 1_501;
    let wait = throttle.wait_before_start(now);
    assert!(now + wait >= 1_500 + 1000);
    assert_eq!(now + wait, 2_500);
}
