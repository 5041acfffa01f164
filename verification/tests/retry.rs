use discord_hook::{RetryPolicy, RetrySchedule, RetryStep};
use std::time::Duration;

#[test]
fn default_values_are_sensible() {
    let p = RetryPolicy::default();
    assert_eq!(p.max_attempts, 3);
    assert_eq!(p.base_delay, Duration::from_millis(500));
    assert!(p.jitter, "jitter should be on by default");
}

#[test]
fn clone_is_independent() {
    let a = RetryPolicy { max_attempts: 5, base_delay: Duration::from_millis(100), jitter: false };
    let b = a.clone();
    assert_eq!(b.max_attempts, 5);
    assert_eq!(b.base_delay, Duration::from_millis(100));
    assert!(!b.jitter);
}

#[test]
fn custom_values_are_preserved() {
    let p = RetryPolicy { max_attempts: 10, base_delay: Duration::from_secs(2), ..Default::default() };
    assert_eq!(p.max_attempts, 10);
    assert_eq!(p.base_delay, Duration::from_secs(2));
    assert!(p.jitter);
}

#[test]
fn zero_attempts_still_tries_once() {
    let p = RetryPolicy { max_attempts: 0, ..Default::default() };
    assert_eq!(p.attempts(), 1);
    let mut s = RetrySchedule::new(&p);
    assert!(s.may_attempt());
    assert_eq!(s.on_failure(), RetryStep::GiveUp);
    assert!(!s.may_attempt());
}

#[test]
fn backoff_doubles_then_gives_up() {
    let p = RetryPolicy { max_attempts: 4, ..Default::default() };
    let mut s = RetrySchedule::new(&p);
    assert_eq!(s.on_failure(), RetryStep::Wait { backoff_factor: 1 });
    assert_eq!(s.on_failure(), RetryStep::Wait { backoff_factor: 2 });
    assert_eq!(s.on_failure(), RetryStep::Wait { backoff_factor: 4 });
    assert_eq!(s.on_failure(), RetryStep::GiveUp);
}

#[test]
fn backoff_delay_scales_the_base_delay() {
    let policy = RetryPolicy { max_attempts: 4, base_delay: Duration::from_millis(500), jitter: false };
    assert_eq!(policy.backoff_delay(1), Some(Duration::from_millis(500)));
    assert_eq!(policy.backoff_delay(4), Some(Duration::from_secs(2)));
    assert_eq!(policy.backoff_delay(0), Some(Duration::ZERO));
    let huge = RetryPolicy { max_attempts: 2, base_delay: Duration::MAX, jitter: false };
    assert_eq!(huge.backoff_delay(1), Some(Duration::MAX));
    assert_eq!(huge.backoff_delay(2), None);
}
