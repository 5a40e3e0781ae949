use paykit::rate_limit::{RateLimitConfig, RateLimiter};

#[test]
fn at_most_max_requests_per_window() {
    let mut l = RateLimiter::new(RateLimitConfig::new(2, 60));
    assert!(l.check_at("ip1", 0));
    assert!(l.check_at("ip1", 1));
    assert!(!l.check_at("ip1", 2));
    assert!(!l.check_at("ip1", 3));
}

#[test]
fn keys_are_counted_apart() {
    let mut l = RateLimiter::new(RateLimitConfig::new(1, 60));
    assert!(l.check_at("a", 0));
    assert!(!l.check_at("a", 0));
    assert!(l.check_at("b", 0));
}

#[test]
fn a_passed_window_starts_afresh() {
    let mut l = RateLimiter::new(RateLimitConfig::new(1, 1));
    assert!(l.check_at("a", 0));
    assert!(!l.check_at("a", 1_000_000_000));
    assert!(l.check_at("a", 1_000_000_001));
}

#[test]
fn live_clock_allows_first_request() {
    let mut l = RateLimiter::new(RateLimitConfig::new(5, 60));
    assert!(l.check("k"));
}

#[test]
fn exactly_the_first_max_requests_are_allowed() {
    let mut limiter = RateLimiter::new(RateLimitConfig::new(3, 60));
    let allowed: Vec<bool> = (0..6u128).map(|i| limiter.check_at("k", i)).collect();
    assert_eq!(allowed, vec![true, true, true, false, false, false]);
}

#[test]
fn other_keys_do_not_use_up_a_window() {
    let mut l = RateLimiter::new(RateLimitConfig::new(2, 60));
    assert!(l.check_at("a", 0));
    assert!(l.check_at("b", 1));
    assert!(l.check_at("b", 2));
    assert!(!l.check_at("b", 3));
    assert!(l.check_at("a", 4));
    assert!(!l.check_at("a", 5));
}

#[test]
fn a_limit_of_zero_refuses_every_call() {
    let mut l = RateLimiter::new(RateLimitConfig::new(0, 60));
    assert!(!l.check_at("a", 0));
    assert!(!l.check_at("a", 1));
}

#[test]
fn the_largest_limit_is_accepted() {
    let mut l = RateLimiter::new(RateLimitConfig::new(u32::MAX, 60));
    assert!(l.check_at("a", 0));
    assert!(l.check_at("a", 1));
}
