use graph::api::handlers::{batch_outcome, health_report};
use graph::api::middleware::{token_accepted, RateLimiter};
use graph::api::models::ComponentStatus;
use graph::api::state::component_report;
use std::time::Duration;

#[test]
fn rate_limiter_admits_up_to_the_limit_per_window() {
    let mut limiter = RateLimiter::new(2, 100);
    assert!(limiter.check_at("a", 0));
    assert!(limiter.check_at("a", 10));
    assert!(!limiter.check_at("a", 20));
    assert!(!limiter.check_at("a", 100));
    // Another client has its own window.
    assert!(limiter.check_at("b", 20));
    // Once the window has run out, a new one starts.
    assert!(limiter.check_at("a", 101));
    assert!(limiter.check_at("a", 150));
    assert!(!limiter.check_at("a", 160));
}

#[test]
fn rate_limiter_with_zero_limit_admits_first_request_only() {
    let mut limiter = RateLimiter::new(0, 100);
    assert!(limiter.check_at("a", 0));
    assert!(!limiter.check_at("a", 1));
    assert!(limiter.check_at("a", 200));
}

#[test]
fn rate_limiter_on_the_clock() {
    let mut limiter = RateLimiter::new(1, Duration::from_secs(3600).as_nanos());
    assert!(limiter.check("127.0.0.1"));
    assert!(!limiter.check("127.0.0.1"));
}

#[test]
fn tokens() {
    assert!(token_accepted("secret-api-token"));
    assert!(!token_accepted("secret-api-token "));
}

#[test]
fn health_and_batches() {
    let h = health_report(5);
    assert_eq!(h.status, "healthy");
    assert_eq!(h.uptime, 5);
    assert_eq!(h.components.len(), 1);
    assert_eq!(h.components[0].status, ComponentStatus::Healthy);
    let b = batch_outcome(3);
    assert_eq!(b.success_count, 3);
    assert!(b.failures.is_empty());
    let c = component_report(false);
    assert_eq!(c[0].name, "dynamodb");
    assert_eq!(c[0].status, ComponentStatus::Unhealthy);
    assert_eq!(c[1].status, ComponentStatus::Healthy);
}

#[test]
fn rate_limiter_two_per_hour() {
    let hour = Duration::from_secs(3600).as_nanos();
    let mut limiter = RateLimiter::new(2, hour);
    assert!(limiter.check_at("1.2.3.4", 0));
    assert!(limiter.check_at("1.2.3.4", 1_000));
    assert!(!limiter.check_at("1.2.3.4", 2_000));
    assert!(limiter.check_at("5.6.7.8", 3_000));
    assert!(limiter.check_at("1.2.3.4", hour + 1));
}
