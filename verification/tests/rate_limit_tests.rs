use std::time::Duration;

use lnxdrive::graph::Timestamp;
use lnxdrive::rate_limit::{parse_retry_after, parse_u64, retry_after_secs, seconds_until, AdaptiveCapacity, RateLimitGuard};

#[test]
fn test_on_throttle_reduces_capacity() {
    let mut bucket = AdaptiveCapacity::new(100);
    assert_eq!(bucket.effective_capacity(), 100);

    bucket.on_throttle();
    assert_eq!(bucket.effective_capacity(), 50);

    bucket.on_throttle();
    assert_eq!(bucket.effective_capacity(), 25);
}

#[test]
fn test_on_throttle_minimum_capacity_is_one() {
    let mut bucket = AdaptiveCapacity::new(4);
    bucket.on_throttle();
    assert_eq!(bucket.effective_capacity(), 2);
    bucket.on_throttle();
    assert_eq!(bucket.effective_capacity(), 1);
    bucket.on_throttle();
    assert_eq!(bucket.effective_capacity(), 1);
}

#[test]
fn test_on_success_recovers_capacity() {
    let mut bucket = AdaptiveCapacity::new(100);
    bucket.on_throttle();
    assert_eq!(bucket.effective_capacity(), 50);

    for _ in 0..100 {
        bucket.on_success();
    }

    let cap = bucket.effective_capacity();
    assert!(cap > 50, "Capacity should have increased from 50, got {}", cap);
    assert!(cap <= 100, "Capacity should not exceed original 100, got {}", cap);
}

#[test]
fn test_on_success_does_not_exceed_original_capacity() {
    let mut bucket = AdaptiveCapacity::new(100);
    for _ in 0..500 {
        bucket.on_success();
    }
    assert_eq!(bucket.effective_capacity(), 100);
}

#[test]
fn test_throttle_resets_success_counter() {
    let mut bucket = AdaptiveCapacity::new(100);
    bucket.on_throttle();

    for _ in 0..90 {
        bucket.on_success();
    }
    assert_eq!(bucket.effective_capacity(), 50);

    bucket.on_throttle();

    for _ in 0..90 {
        bucket.on_success();
    }
    assert_eq!(bucket.effective_capacity(), 25);

    for _ in 0..10 {
        bucket.on_success();
    }
    let cap = bucket.effective_capacity();
    assert!(cap > 25, "Should have recovered, got {}", cap);
}

#[test]
fn test_on_throttle_reduces_endpoint_capacity() {
    // The "delta" endpoint is configured with a capacity of 10.
    let mut bucket = AdaptiveCapacity::new(10);
    let original_cap = bucket.effective_capacity();
    bucket.on_throttle();
    assert_eq!(bucket.effective_capacity(), original_cap / 2);
}

#[test]
fn test_on_success_recovers_after_throttle() {
    // The "upload" endpoint is configured with a capacity of 60.
    let mut bucket = AdaptiveCapacity::new(60);
    bucket.on_throttle();
    let throttled_cap = bucket.effective_capacity();
    for _ in 0..100 {
        bucket.on_success();
    }
    let recovered_cap = bucket.effective_capacity();
    assert!(recovered_cap > throttled_cap);
}

#[test]
fn test_recovery_step_values() {
    let mut bucket = AdaptiveCapacity::new(1000);
    bucket.on_throttle(); // 500
    for _ in 0..100 {
        bucket.on_success();
    }
    assert_eq!(bucket.effective_capacity(), 525); // 500 + 5%
    let mut small = AdaptiveCapacity::new(10);
    small.on_throttle(); // 5
    for _ in 0..100 {
        small.on_success();
    }
    assert_eq!(small.effective_capacity(), 6); // at least one
    assert_eq!(small.capacity(), 10);
}

#[test]
fn test_parse_retry_after_seconds() {
    let duration = parse_retry_after("30", Duration::from_secs(60));
    assert_eq!(duration, Duration::from_secs(30));
}

#[test]
fn test_parse_retry_after_zero() {
    let duration = parse_retry_after("0", Duration::from_secs(60));
    assert_eq!(duration, Duration::from_secs(0));
}

#[test]
fn test_parse_retry_after_with_whitespace() {
    let duration = parse_retry_after("  45  ", Duration::from_secs(60));
    assert_eq!(duration, Duration::from_secs(45));
}

#[test]
fn test_parse_retry_after_invalid_falls_back() {
    let default = Duration::from_secs(60);
    let duration = parse_retry_after("not-a-number", default);
    assert_eq!(duration, default);
}

#[test]
fn test_parse_retry_after_empty_falls_back() {
    let default = Duration::from_secs(30);
    let duration = parse_retry_after("", default);
    assert_eq!(duration, default);
}

#[test]
fn test_parse_retry_after_past_date_falls_back() {
    let default = Duration::from_secs(7);
    let duration = parse_retry_after("Wed, 21 Oct 2015 07:28:00 GMT", default);
    assert_eq!(duration, default);
}

#[test]
fn test_retry_after_http_date() {
    let now = Timestamp { secs: 1_445_412_400, nanos: 0 }; // 2015-10-21 07:26:40 UTC
    assert_eq!(retry_after_secs("Wed, 21 Oct 2015 07:28:00 GMT", now), Some(80));
    let much_earlier = Timestamp { secs: 1_445_412_480 - 7200, nanos: 0 };
    assert_eq!(retry_after_secs("Wed, 21 Oct 2015 07:28:00 GMT", much_earlier), None);
    let later = Timestamp { secs: 1_445_412_481, nanos: 0 };
    assert_eq!(retry_after_secs("Wed, 21 Oct 2015 07:28:00 GMT", later), None);
}

#[test]
fn test_parse_u64_forms() {
    assert_eq!(parse_u64("42"), Some(42));
    assert_eq!(parse_u64("+7"), Some(7));
    assert_eq!(parse_u64("007"), Some(7));
    assert_eq!(parse_u64("18446744073709551615"), Some(u64::MAX));
    assert_eq!(parse_u64("18446744073709551616"), None);
    assert_eq!(parse_u64(""), None);
    assert_eq!(parse_u64("+"), None);
    assert_eq!(parse_u64("-1"), None);
    assert_eq!(parse_u64("4 2"), None);
}

#[test]
fn test_seconds_until_truncates() {
    let now = Timestamp { secs: 100, nanos: 900_000_000 };
    assert_eq!(seconds_until(Timestamp { secs: 102, nanos: 100_000_000 }, now), Some(1));
    assert_eq!(seconds_until(Timestamp { secs: 100, nanos: 950_000_000 }, now), Some(0));
    assert_eq!(seconds_until(now, now), None);
}

#[test]
fn test_rate_limit_guard_creation() {
    let guard = RateLimitGuard::new("test".to_string());
    let debug_str = format!("{:?}", guard);
    assert!(debug_str.contains("RateLimitGuard"));
    drop(guard);
}

#[test]
fn test_capacity_stays_between_one_and_configured() {
    let mut bucket = AdaptiveCapacity::new(3);
    for _ in 0..5 {
        bucket.on_throttle();
        assert!(bucket.effective_capacity() >= 1);
    }
    assert_eq!(bucket.effective_capacity(), 1);
    for _ in 0..1000 {
        bucket.on_success();
        assert!(bucket.effective_capacity() <= 3);
    }
    assert_eq!(bucket.effective_capacity(), 3);
}

#[test]
fn test_throttle_then_ninety_successes_keep_capacity() {
    let mut bucket = AdaptiveCapacity::new(100);
    bucket.on_throttle();
    assert_eq!(bucket.effective_capacity(), 50);
    for _ in 0..90 {
        bucket.on_success();
    }
    assert_eq!(bucket.effective_capacity(), 50);
    for _ in 0..10 {
        bucket.on_success();
    }
    assert_eq!(bucket.effective_capacity(), 52);
}
