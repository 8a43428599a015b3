use redis_lock::multi::{
    acquire_step, map_step, AcquireAction, AcquireEvent, MapAction, MapError, MapEvent, MapState,
    MultiResourceLock, DEFAULT_EXPIRATION, DEFAULT_SLEEP, DEFAULT_TIMEOUT,
};

fn redis_error() -> redis::RedisError {
    redis::RedisError::from((redis::ErrorKind::ResponseError, "boom"))
}

#[test]
fn defaults() {
    assert_eq!(DEFAULT_EXPIRATION, 3600 * 1_000_000_000);
    assert_eq!(DEFAULT_TIMEOUT, 60 * 1_000_000_000);
    assert_eq!(DEFAULT_SLEEP, 1_000_000_000);
}

#[test]
fn new_keeps_the_client() {
    let client = redis::Client::open("redis://127.0.0.1/").unwrap();
    let lock = MultiResourceLock::new(client, Ok(())).unwrap();
    assert_eq!(lock.client().get_connection_info().addr.to_string(), "127.0.0.1:6379");
}

#[test]
fn new_reports_a_failed_connection() {
    let client = redis::Client::open("redis://127.0.0.1/").unwrap();
    let connected = Err(redis::RedisError::from((redis::ErrorKind::IoError, "refused")));
    let err = MultiResourceLock::new(client, connected).err().expect("error");
    assert_eq!(err.kind(), redis::ErrorKind::IoError);
    assert!(err.to_string().contains("refused"));
}

#[test]
fn debug_text_hides_the_connection() {
    let client = redis::Client::open("redis://127.0.0.1/").unwrap();
    let lock = MultiResourceLock::new(client, Ok(())).unwrap();
    assert_eq!(lock.debug_text(), r#"MultiResourceLock { conn: ".." }"#);
}

#[test]
fn acquire_gives_up_only_after_timeout() {
    assert!(matches!(acquire_step(100, AcquireEvent::Polled { elapsed: 0 }), AcquireAction::Attempt));
    assert!(matches!(acquire_step(100, AcquireEvent::Polled { elapsed: 100 }), AcquireAction::Attempt));
    assert!(matches!(
        acquire_step(100, AcquireEvent::Polled { elapsed: 101 }),
        AcquireAction::Finish(Ok(None))
    ));
}

#[test]
fn acquire_reacts_to_attempts() {
    match acquire_step(5, AcquireEvent::Attempted(Ok(Some(String::from("id"))))) {
        AcquireAction::Finish(Ok(Some(id))) => assert_eq!(id, "id"),
        _ => panic!("expected the lock id"),
    }
    assert!(matches!(acquire_step(5, AcquireEvent::Attempted(Ok(None))), AcquireAction::Sleep));
    assert!(matches!(
        acquire_step(5, AcquireEvent::Attempted(Err(redis_error()))),
        AcquireAction::Finish(Err(_))
    ));
}

#[test]
fn map_runs_task_then_releases_the_same_lock() {
    let (state, action) = map_step(MapState::Acquiring, MapEvent::Acquired(Ok(Some(String::from("L1")))));
    assert!(matches!(action, MapAction::RunTask));
    let (state, action) = map_step(state, MapEvent::TaskFinished);
    match action {
        MapAction::Release { lock_id } => assert_eq!(lock_id, "L1"),
        _ => panic!("expected a release"),
    }
    let (state, action) = map_step(state, MapEvent::Released(Ok(1)));
    assert!(matches!(action, MapAction::ReturnOutput));
    assert!(matches!(state, MapState::Finished));
}

#[test]
fn map_timeout() {
    let (state, action) = map_step(MapState::Acquiring, MapEvent::Acquired(Ok(None)));
    assert!(matches!(action, MapAction::Fail(MapError::Timeout)));
    assert!(matches!(state, MapState::Finished));
}

#[test]
fn map_acquire_error() {
    let (state, action) = map_step(MapState::Acquiring, MapEvent::Acquired(Err(redis_error())));
    match action {
        MapAction::Fail(MapError::Acquire(e)) => assert_eq!(e.kind(), redis::ErrorKind::ResponseError),
        _ => panic!("expected an acquire error"),
    }
    assert!(matches!(state, MapState::Finished));
}

#[test]
fn map_release_error() {
    let (state, _) = map_step(MapState::Acquiring, MapEvent::Acquired(Ok(Some(String::from("L")))));
    let (state, _) = map_step(state, MapEvent::TaskFinished);
    let (state, action) = map_step(state, MapEvent::Released(Err(redis_error())));
    assert!(matches!(action, MapAction::Fail(MapError::Release(_))));
    assert!(matches!(state, MapState::Finished));
}
