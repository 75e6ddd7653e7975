use tealdrive::rate_limit::login::{InMemoryLoginRateLimiter, LoginRateLimitDecision, LoginRateLimitKey};

#[test]
fn repeated_failed_attempts_eventually_limited() {
    let key = LoginRateLimitKey {
        username: "alice".to_owned(),
        ip: Some("127.0.0.1".to_owned()),
    };
    let mut limiter = InMemoryLoginRateLimiter::new(2);

    assert_eq!(limiter.check(&key), LoginRateLimitDecision::Allowed);
    assert_eq!(
        limiter.record_failure(key.clone()),
        LoginRateLimitDecision::Allowed
    );
    assert_eq!(
        limiter.record_failure(key.clone()),
        LoginRateLimitDecision::Limited
    );
    assert_eq!(limiter.check(&key), LoginRateLimitDecision::Limited);
}

#[test]
fn success_clears_failures() {
    let key = LoginRateLimitKey {
        username: "alice".to_owned(),
        ip: None,
    };
    let other = LoginRateLimitKey {
        username: "bob".to_owned(),
        ip: None,
    };
    let mut limiter = InMemoryLoginRateLimiter::new(1);
    assert_eq!(limiter.record_failure(key.clone()), LoginRateLimitDecision::Limited);
    assert_eq!(limiter.record_failure(other.clone()), LoginRateLimitDecision::Limited);
    limiter.record_success(&key);
    assert_eq!(limiter.check(&key), LoginRateLimitDecision::Allowed);
    assert_eq!(limiter.check(&other), LoginRateLimitDecision::Limited);
}

#[test]
fn verdict_follows_failures_since_last_success() {
    let alice = LoginRateLimitKey { username: "alice".to_owned(), ip: Some("10.0.0.1".to_owned()) };
    let bob = LoginRateLimitKey { username: "bob".to_owned(), ip: None };
    let mut limiter = InMemoryLoginRateLimiter::new(2);
    assert_eq!(limiter.record_failure(alice.clone()), LoginRateLimitDecision::Allowed);
    assert_eq!(limiter.record_failure(bob.clone()), LoginRateLimitDecision::Allowed);
    limiter.record_success(&alice);
    assert_eq!(limiter.record_failure(alice.clone()), LoginRateLimitDecision::Allowed);
    assert_eq!(limiter.record_failure(alice.clone()), LoginRateLimitDecision::Limited);
    assert_eq!(limiter.check(&alice), LoginRateLimitDecision::Limited);
    assert_eq!(limiter.check(&bob), LoginRateLimitDecision::Allowed);
}

#[test]
fn zero_maximum_limits_every_key() {
    let key = LoginRateLimitKey { username: "carol".to_owned(), ip: None };
    let limiter = InMemoryLoginRateLimiter::new(0);
    assert_eq!(limiter.check(&key), LoginRateLimitDecision::Limited);
}
