pub mod login;

pub use login::{InMemoryLoginRateLimiter, LoginRateLimitDecision, LoginRateLimitKey};
