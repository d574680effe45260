use retry_backoff::backoff::{constant, instant, Backoff, Duration};

#[test]
fn test_instant() {
    let mut bo = instant();
    assert_eq!(bo.next_retry(), Some(Duration::from_secs(0)));
    assert_eq!(bo.next_retry(), Some(Duration::from_secs(0)));
}

#[test]
fn test_constant() {
    let mut bo = constant(Duration::from_secs(5));
    assert_eq!(bo.next_retry(), Some(Duration::from_secs(5)));
    assert_eq!(bo.next_retry(), Some(Duration::from_secs(5)));
}

#[test]
fn test_min_backoff() {
    let mut bo = constant(Duration::from_secs(5)).min_backoff(Duration::from_secs(10));
    assert_eq!(bo.next_retry(), Some(Duration::from_secs(10)));
    assert_eq!(bo.next_retry(), Some(Duration::from_secs(10)));

    let mut bo = constant(Duration::from_secs(5)).min_backoff(Duration::from_secs(3));
    assert_eq!(bo.next_retry(), Some(Duration::from_secs(5)));
    assert_eq!(bo.next_retry(), Some(Duration::from_secs(5)));
}

#[test]
fn test_max_backoff() {
    let mut bo = constant(Duration::from_secs(5)).max_backoff(Duration::from_secs(10));
    assert_eq!(bo.next_retry(), Some(Duration::from_secs(5)));
    assert_eq!(bo.next_retry(), Some(Duration::from_secs(5)));

    let mut bo = constant(Duration::from_secs(5)).max_backoff(Duration::from_secs(3));
    assert_eq!(bo.next_retry(), Some(Duration::from_secs(3)));
    assert_eq!(bo.next_retry(), Some(Duration::from_secs(3)));
}

#[test]
fn test_exponential() {
    let mut bo = constant(Duration::from_secs(1)).exponential();
    assert_eq!(bo.next_retry(), Some(Duration::from_secs(1)));
    assert_eq!(bo.next_retry(), Some(Duration::from_secs(2)));
    assert_eq!(bo.next_retry(), Some(Duration::from_secs(4)));
    assert_eq!(bo.next_retry(), Some(Duration::from_secs(8)));
}

#[test]
fn test_jitter() {
    let mut bo = constant(Duration::from_secs(1)).jitter(100);
    let range = Duration::from_millis(900)..=Duration::from_secs(1);
    for _i in 0..100_000 {
        let dur = bo.next_retry().unwrap();
        assert!(range.contains(&dur));
    }
}

#[test]
fn test_num_attempts() {
    let mut bo = constant(Duration::from_secs(1)).num_attempts(3);
    assert_eq!(bo.next_retry(), Some(Duration::from_secs(1)));
    assert_eq!(bo.next_retry(), Some(Duration::from_secs(1)));
    assert_eq!(bo.next_retry(), None);
    assert_eq!(bo.next_retry(), None);
}

#[test]
fn duration_units() {
    assert_eq!(Duration::from_secs(2).as_nanos(), 2_000_000_000);
    assert_eq!(Duration::from_millis(900).as_nanos(), 900_000_000);
    assert_eq!(Duration::from_nanos(17).as_nanos(), 17);
    assert_eq!(Duration::from_millis(1000), Duration::from_secs(1));
}

#[test]
fn exponential_saturates() {
    let mut bo = constant(Duration::from_nanos(u64::MAX)).exponential();
    assert_eq!(bo.next_retry(), Some(Duration::from_nanos(u64::MAX)));
    assert_eq!(bo.next_retry(), Some(Duration::from_nanos(u64::MAX)));
}

#[test]
fn jitter_of_tiny_duration_is_exact() {
    // The margin of 5 ns at 100/1000 rounds down to zero, so the base
    // duration comes back untouched.
    let mut bo = constant(Duration::from_nanos(5)).jitter(100);
    assert_eq!(bo.next_retry(), Some(Duration::from_nanos(5)));
}

#[test]
fn jitter_full_scale_stays_in_bounds() {
    let mut bo = constant(Duration::from_secs(1)).jitter(1000);
    for _i in 0..10_000 {
        let dur = bo.next_retry().unwrap();
        assert!(dur <= Duration::from_secs(1));
    }
}

#[test]
fn jitter_varies_between_queries() {
    let mut bo = constant(Duration::from_secs(1)).jitter(1000);
    let first = bo.next_retry().unwrap();
    let mut saw_other = false;
    for _i in 0..10_000 {
        if bo.next_retry().unwrap() != first {
            saw_other = true;
            break;
        }
    }
    assert!(saw_other);
}

#[test]
fn num_attempts_of_one_stops_at_once() {
    let mut bo = constant(Duration::from_secs(1)).num_attempts(1);
    assert_eq!(bo.next_retry(), None);
    assert_eq!(bo.next_retry(), None);
}

#[test]
fn deadline_mock_clock() {
    let mut bo = constant(Duration::from_secs(1)).deadline(50);
    assert_eq!(bo.next_retry_at(10), Some(Duration::from_secs(1)));
    assert_eq!(bo.next_retry_at(50), Some(Duration::from_secs(1)));
    assert_eq!(bo.next_retry_at(51), None);
    assert_eq!(bo.next_retry_at(60), None);
}

#[test]
fn deadline_real_clock() {
    // The clock sits strictly between the epoch and the largest
    // representable instant.
    let mut far = constant(Duration::from_secs(1)).deadline(u64::MAX);
    assert_eq!(far.next_retry(), Some(Duration::from_secs(1)));
    let mut past = constant(Duration::from_secs(1)).deadline(0);
    assert_eq!(past.next_retry(), None);
}

#[test]
fn decorator_order_is_caller_controlled() {
    // A floor applied after exponential growth clamps the grown value ...
    let mut bo = constant(Duration::from_nanos(2)).exponential().min_backoff(Duration::from_nanos(3));
    assert_eq!(bo.next_retry(), Some(Duration::from_nanos(3)));
    assert_eq!(bo.next_retry(), Some(Duration::from_nanos(4)));
    // ... while an outermost attempt count stops the whole chain.
    let mut bo = constant(Duration::from_nanos(2)).exponential().num_attempts(2);
    assert_eq!(bo.next_retry(), Some(Duration::from_nanos(2)));
    assert_eq!(bo.next_retry(), None);
}
