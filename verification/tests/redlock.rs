use redis_lock::single::{
    begin_acquire, lock_key, lock_or_error, quorum, reply_granted, LockAcrossOptions,
    DEFAULT_DURATION, DEFAULT_RETRY_DELAY, DEFAULT_TTL,
};

#[test]
fn default_options() {
    let options = LockAcrossOptions::default();
    assert_eq!(options.ttl, 10_000_000);
    assert_eq!(options.retry, 100_000_000);
    assert_eq!(options.duration, 10_000_000_000);
    assert_eq!(options.ttl, DEFAULT_TTL);
    assert_eq!(options.retry, DEFAULT_RETRY_DELAY);
    assert_eq!(options.duration, DEFAULT_DURATION);
}

#[test]
fn quorum_is_a_strict_majority() {
    assert_eq!(quorum(0), 1);
    assert_eq!(quorum(1), 1);
    assert_eq!(quorum(2), 2);
    assert_eq!(quorum(3), 2);
    assert_eq!(quorum(4), 3);
    assert_eq!(quorum(5), 3);
    for n in 1..50usize {
        let q = quorum(n);
        assert!(2 * q > n && q <= n);
    }
}

#[test]
fn lock_key_has_prefix() {
    assert_eq!(lock_key("account1"), "redlock:account1");
    assert_eq!(lock_key(""), "redlock:");
}

#[test]
fn begin_acquire_fills_the_attempt() {
    let options = LockAcrossOptions { ttl: 30_999_999, retry: 5, duration: 77 };
    let attempt = begin_acquire(5, "res", &options);
    assert_eq!(attempt.key, "redlock:res");
    assert_eq!(attempt.value.len(), 36);
    assert_eq!(attempt.quorum, 3);
    assert_eq!(attempt.ttl_millis, 30);
    assert_eq!(attempt.duration, 77);
}

#[test]
fn ttl_millis_is_cut_to_64_bits() {
    let ttl = ((1u128 << 64) + 5) * 1_000_000;
    let attempt = begin_acquire(1, "r", &LockAcrossOptions { ttl, retry: 0, duration: 0 });
    assert_eq!(attempt.ttl_millis, 5);
}

#[test]
fn keep_trying_until_duration() {
    let attempt = begin_acquire(1, "r", &LockAcrossOptions { ttl: 1, retry: 1, duration: 100 });
    assert!(attempt.keep_trying(0));
    assert!(attempt.keep_trying(99));
    assert!(!attempt.keep_trying(100));
    assert!(!attempt.keep_trying(1000));
}

#[test]
fn round_with_majority_and_time_left_takes_the_lock() {
    // ttl 10 ms, round took 3.9 ms (3 whole ms), drift 2 ms: 5 ms left.
    let attempt = begin_acquire(3, "r", &LockAcrossOptions::default());
    let lock = attempt.conclude_round(2, 3_900_000, 2).expect("lock");
    assert_eq!(lock.resource, "redlock:r");
    assert_eq!(lock.value, attempt.value);
    assert_eq!(lock.validity_time, 5_000_000);
}

#[test]
fn round_without_majority_fails() {
    let attempt = begin_acquire(3, "r", &LockAcrossOptions::default());
    assert!(attempt.conclude_round(1, 0, 2).is_none());
    assert!(attempt.conclude_round(0, 0, 0).is_none());
}

#[test]
fn round_without_time_left_fails() {
    let attempt = begin_acquire(3, "r", &LockAcrossOptions::default());
    // 8 ms elapsed + 2 ms drift uses up the 10 ms.
    assert!(attempt.conclude_round(3, 8_000_000, 2).is_none());
    // Elapsed beyond the ttl saturates to zero.
    assert!(attempt.conclude_round(3, 50_000_000, 0).is_none());
    // Drift beyond what is left saturates to zero.
    assert!(attempt.conclude_round(3, 0, u64::MAX).is_none());
    // 7 ms elapsed + 2 ms drift leaves 1 ms.
    assert_eq!(attempt.conclude_round(3, 7_999_999, 2).unwrap().validity_time, 1_000_000);
}

#[test]
fn zero_connections_never_reach_quorum() {
    let attempt = begin_acquire(0, "r", &LockAcrossOptions::default());
    assert!(attempt.conclude_round(0, 0, 0).is_none());
}

#[test]
fn granted_replies() {
    assert!(reply_granted(&Ok(Some(String::from("OK")))));
    assert!(!reply_granted(&Ok(None)));
    let err = redis::RedisError::from((redis::ErrorKind::ResponseError, "boom"));
    assert!(!reply_granted(&Err(err)));
}

#[test]
fn missing_lock_is_an_io_error() {
    let err = lock_or_error(None).err().expect("error");
    assert_eq!(err.kind(), redis::ErrorKind::IoError);
    assert!(err.to_string().contains("Failed to acquire lock"));
    let attempt = begin_acquire(1, "r", &LockAcrossOptions::default());
    let lock = attempt.conclude_round(1, 0, 0).unwrap();
    let value = lock.value.clone();
    let held = lock_or_error(Some(lock)).ok().expect("lock");
    assert_eq!(held.value, value);
    assert_eq!(held.validity_time, 10_000_000);
}
