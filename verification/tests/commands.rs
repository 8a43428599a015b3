use redis::Arg;
use redis_lock::multi::{release_command, setup_command, try_acquire_command};
use redis_lock::single::{begin_acquire, LockAcrossOptions, RELEASE_SCRIPT};
use redis_lock::text::decimal_string;

fn args_of(cmd: &redis::Cmd) -> Vec<String> {
    cmd.args_iter()
        .map(|arg| match arg {
            Arg::Simple(bytes) => String::from_utf8(bytes.to_vec()).unwrap(),
            Arg::Cursor => String::from("<cursor>"),
        })
        .collect()
}

fn is_uuid_text(s: &str) -> bool {
    s.len() == 36
        && s.chars().enumerate().all(|(i, c)| {
            if i == 8 || i == 13 || i == 18 || i == 23 {
                c == '-'
            } else {
                c.is_ascii_digit() || ('a'..='f').contains(&c)
            }
        })
        && s.as_bytes()[14] == b'4'
}

#[test]
fn decimal_renders_like_to_string() {
    for n in [0u128, 7, 9, 10, 42, 100, 1234567890, u64::MAX as u128, u128::MAX] {
        assert_eq!(decimal_string(n), n.to_string());
    }
}

#[test]
fn setup_loads_library_with_replace() {
    let cmd = setup_command("#!lua name=lock\nreturn 1");
    assert_eq!(
        args_of(&cmd),
        vec!["FUNCTION", "LOAD", "REPLACE", "#!lua name=lock\nreturn 1"]
    );
}

#[test]
fn try_acquire_command_carries_id_expiration_and_resources() {
    let resources = vec![String::from("account1"), String::from("account2")];
    // One hour and half a millisecond: only whole milliseconds are sent.
    let (lock_id, cmd) = try_acquire_command(&resources, 3_600_000_500_000);
    assert!(is_uuid_text(&lock_id));
    assert_eq!(
        args_of(&cmd),
        vec![
            "FCALL".to_string(),
            "acquire_lock".to_string(),
            "0".to_string(),
            lock_id.clone(),
            "3600000".to_string(),
            "account1".to_string(),
            "account2".to_string(),
        ]
    );
}

#[test]
fn try_acquire_ids_are_fresh() {
    let (first, _) = try_acquire_command(&[], 1_000_000);
    let (second, _) = try_acquire_command(&[], 1_000_000);
    assert_ne!(first, second);
}

#[test]
fn try_acquire_without_resources() {
    let (lock_id, cmd) = try_acquire_command(&[], 999_999);
    assert_eq!(args_of(&cmd), vec!["FCALL", "acquire_lock", "0", lock_id.as_str(), "0"]);
}

#[test]
fn release_command_names_the_lock() {
    let cmd = release_command("some-id");
    assert_eq!(args_of(&cmd), vec!["FCALL", "release_lock", "0", "some-id"]);
}

#[test]
fn set_command_is_conditional_with_expiry() {
    let options = LockAcrossOptions { ttl: 2_500_000_000, retry: 1, duration: 1 };
    let attempt = begin_acquire(3, "resource", &options);
    let cmd = attempt.set_command();
    assert_eq!(
        args_of(&cmd),
        vec![
            "SET".to_string(),
            "redlock:resource".to_string(),
            attempt.value.clone(),
            "NX".to_string(),
            "PX".to_string(),
            "2500".to_string(),
        ]
    );
}

#[test]
fn release_script_command_names_key_and_value() {
    let attempt = begin_acquire(1, "r", &LockAcrossOptions::default());
    let cmd = attempt.release_command();
    assert_eq!(
        args_of(&cmd),
        vec![
            "EVAL".to_string(),
            RELEASE_SCRIPT.to_string(),
            "1".to_string(),
            "redlock:r".to_string(),
            attempt.value.clone(),
        ]
    );
    assert!(RELEASE_SCRIPT.contains(r#"if redis.call("get", KEYS[1]) == ARGV[1] then"#));
    assert!(RELEASE_SCRIPT.contains(r#"return redis.call("del", KEYS[1])"#));
}
