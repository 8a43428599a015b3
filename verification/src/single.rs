//! Locking a single resource across several Redis instances with the RedLock
//! algorithm: the decisions of each acquisition round.

use vstd::prelude::*;
use crate::command::command;
use crate::outside::{cmd_args, io_error, io_error_of, new_v4_string};
use crate::text::{decimal, decimal_string, is_lowercase_hyphenated_uuid};

verus! {

/// The default time-to-live of the lock: 10 milliseconds, in nanoseconds.
pub const DEFAULT_TTL: u128 = 10_000_000;
/// The default delay between attempts to acquire the lock: 100 milliseconds, in nanoseconds.
pub const DEFAULT_RETRY_DELAY: u128 = 100_000_000;
/// The default time to keep attempting to acquire the lock: 10 seconds, in nanoseconds.
pub const DEFAULT_DURATION: u128 = 10_000_000_000;

/// The prefix of the key under which a resource is locked.
pub const LOCK_KEY_PREFIX: &'static str = "redlock:";

/// The script that deletes a lock's key only while it still holds the lock's value.
pub const RELEASE_SCRIPT: &'static str = r#"
        if redis.call("get", KEYS[1]) == ARGV[1] then
            return redis.call("del", KEYS[1])
        else
            return 0
        end
    "#;

/// Options to configure the locking of a single resource. All times are in nanoseconds.
#[derive(Debug)]
pub struct LockAcrossOptions {
    /// The time-to-live of the lock.
    pub ttl: u128,
    /// The delay between attempts to acquire the lock.
    pub retry: u128,
    /// The maximum time to keep attempting to acquire the lock.
    pub duration: u128,
}

impl Default for LockAcrossOptions {
    fn default() -> (options: Self)
        ensures
            options.ttl == DEFAULT_TTL,
            options.retry == DEFAULT_RETRY_DELAY,
            options.duration == DEFAULT_DURATION,
    {
        LockAcrossOptions { ttl: DEFAULT_TTL, retry: DEFAULT_RETRY_DELAY, duration: DEFAULT_DURATION }
    }
}

/// A lock held on a majority of the instances.
pub struct Lock {
    /// The key under which the resource is locked.
    pub resource: String,
    /// The lock's unique value, stored under the key.
    pub value: String,
    /// How long the lock stays valid from the end of the round that took it, in nanoseconds.
    pub validity_time: u128,
}

/// The number of instances that must grant the lock: a strict majority of `n`.
pub open spec fn quorum_of(n: nat) -> nat {
    n / 2 + 1
}

/// Whole milliseconds in `nanos` nanoseconds, cut to 64 bits.
pub open spec fn millis_of(nanos: u128) -> u64 {
    (nanos / 1_000_000) as u64
}

/// `a - b`, or zero when `b` exceeds `a`.
pub open spec fn saturating_diff(a: nat, b: nat) -> nat {
    if a >= b { (a - b) as nat } else { 0 }
}

/// The time in milliseconds for which a lock taken with time-to-live `ttl` stays valid
/// after a round that took `elapsed` milliseconds, allowing `drift` milliseconds of
/// clock drift.
pub open spec fn validity_of(ttl: u64, elapsed: u64, drift: u64) -> nat {
    saturating_diff(saturating_diff(ttl as nat, elapsed as nat), drift as nat)
}

/// The key under which `resource` is locked.
pub open spec fn lock_key_of(resource: Seq<char>) -> Seq<char> {
    LOCK_KEY_PREFIX@ + resource
}

/// The arguments of the command that sets `key` to `value` only if `key` is absent,
/// expiring after `ttl` milliseconds.
pub open spec fn set_nx_args(key: Seq<char>, value: Seq<char>, ttl: u64) -> Seq<Seq<char>> {
    seq!["SET"@, key, value, "NX"@, "PX"@, decimal(ttl as nat)]
}

/// The arguments of the command that deletes `key` if it still holds `value`.
pub open spec fn release_script_args(key: Seq<char>, value: Seq<char>) -> Seq<Seq<char>> {
    seq!["EVAL"@, RELEASE_SCRIPT@, "1"@, key, value]
}

/// The number of instances out of `connections` that must grant the lock.
pub fn quorum(connections: usize) -> (q: usize)
    ensures
        q == quorum_of(connections as nat),
{
    connections / 2 + 1
}

/// The key under which `resource` is locked.
pub fn lock_key(resource: &str) -> (key: String)
    ensures
        key@ == lock_key_of(resource@),
        key@ == "redlock:"@ + resource@,
{
    let mut key = String::from_str(LOCK_KEY_PREFIX);
    key.append(resource);
    key
}

/// Whether one instance granted the lock: its reply to the conditional set was a value.
/// An error counts as a refusal.
pub fn reply_granted(reply: &Result<Option<String>, redis::RedisError>) -> (granted: bool)
    ensures
        granted == (reply matches Ok(Some(_))),
{
    match reply {
        Ok(Some(_)) => true,
        _ => false,
    }
}

/// One acquisition of a lock on a single resource, over several instances.
pub struct Attempt {
    /// The key under which the resource is locked.
    pub key: String,
    /// The lock's unique value.
    pub value: String,
    /// How many instances must grant the lock.
    pub quorum: usize,
    /// The lock's time-to-live, in milliseconds.
    pub ttl_millis: u64,
    /// How long to keep attempting, in nanoseconds.
    pub duration: u128,
}

/// Starts acquiring a lock on `resource` over `connections` instances: a fresh random
/// value, the resource's key, the majority needed and the time-to-live in milliseconds.
pub fn begin_acquire(connections: usize, resource: &str, options: &LockAcrossOptions) -> (attempt: Attempt)
    ensures
        is_lowercase_hyphenated_uuid(attempt.value@),
        attempt.value@[14] == '4',
        attempt.key@ == lock_key_of(resource@),
        attempt.quorum == quorum_of(connections as nat),
        attempt.ttl_millis == millis_of(options.ttl),
        attempt.ttl_millis == (options.ttl / 1_000_000) as u64,
        attempt.duration == options.duration,
{
    let value = new_v4_string();
    let key = lock_key(resource);
    Attempt {
        key,
        value,
        quorum: quorum(connections),
        ttl_millis: (options.ttl / 1_000_000) as u64,
        duration: options.duration,
    }
}

impl Attempt {
    /// Whether another round may start after `elapsed` nanoseconds since the acquisition
    /// began.
    pub fn keep_trying(&self, elapsed: u128) -> (more: bool)
        ensures
            more == (elapsed < self.duration),
    {
        elapsed < self.duration
    }

    /// The command that takes the lock on one instance.
    pub fn set_command(&self) -> (cmd: redis::Cmd)
        ensures
            cmd_args(cmd) == set_nx_args(self.key@, self.value@, self.ttl_millis),
            cmd_args(cmd) == seq!["SET"@, self.key@, self.value@, "NX"@, "PX"@, decimal(self.ttl_millis as nat)],
    {
        let ttl = decimal_string(self.ttl_millis as u128);
        let cmd = command("SET", &[self.key.as_str(), self.value.as_str(), "NX", "PX", ttl.as_str()]);
        assert(cmd_args(cmd) =~= set_nx_args(self.key@, self.value@, self.ttl_millis));
        cmd
    }

    /// The command that gives the lock back on one instance.
    pub fn release_command(&self) -> (cmd: redis::Cmd)
        ensures
            cmd_args(cmd) == release_script_args(self.key@, self.value@),
            cmd_args(cmd) == seq!["EVAL"@, RELEASE_SCRIPT@, "1"@, self.key@, self.value@],
    {
        release_command(&self.key, &self.value)
    }

    /// The end of one round, in which `granted` instances granted the lock and which took
    /// `elapsed` nanoseconds, with `drift` milliseconds allowed for clock drift: the lock
    /// is taken when a majority granted it and some validity time is left.
    pub fn conclude_round(&self, granted: usize, elapsed: u128, drift: u64) -> (lock: Option<Lock>)
        ensures
            lock is Some <==> (granted >= self.quorum
                && validity_of(self.ttl_millis, millis_of(elapsed), drift) > 0),
            lock matches Some(l) ==> {
                &&& l.resource@ == self.key@
                &&& l.value@ == self.value@
                &&& l.validity_time == validity_of(self.ttl_millis, millis_of(elapsed), drift) * 1_000_000
            },
    {
        let elapsed_millis: u64 = (elapsed / 1_000_000) as u64;
        let validity: u64 = self.ttl_millis.saturating_sub(elapsed_millis).saturating_sub(drift);
        if granted >= self.quorum && validity > 0 {
            Some(Lock {
                resource: self.key.clone(),
                value: self.value.clone(),
                validity_time: validity as u128 * 1_000_000,
            })
        } else {
            None
        }
    }
}

impl Lock {
    /// The command that gives this lock back on one instance.
    pub fn release_command(&self) -> (cmd: redis::Cmd)
        ensures
            cmd_args(cmd) == release_script_args(self.resource@, self.value@),
            cmd_args(cmd) == seq!["EVAL"@, RELEASE_SCRIPT@, "1"@, self.resource@, self.value@],
    {
        release_command(&self.resource, &self.value)
    }
}

fn release_command(key: &str, value: &str) -> (cmd: redis::Cmd)
    ensures
        cmd_args(cmd) == release_script_args(key@, value@),
        cmd_args(cmd) == seq!["EVAL"@, RELEASE_SCRIPT@, "1"@, key@, value@],
{
    let cmd = command("EVAL", &[RELEASE_SCRIPT, "1", key, value]);
    assert(cmd_args(cmd) =~= release_script_args(key@, value@));
    cmd
}

/// The lock that a round took, or the error of an acquisition that ran out of time: an
/// `IoError` described as "Failed to acquire lock".
pub fn lock_or_error(lock: Option<Lock>) -> (result: Result<Lock, redis::RedisError>)
    ensures
        result is Ok <==> lock is Some,
        lock matches Some(l) ==> result == Ok::<Lock, redis::RedisError>(l),
        lock is None ==> result == Err::<Lock, redis::RedisError>(io_error_of("Failed to acquire lock"@)),
{
    match lock {
        Some(l) => Ok(l),
        None => Err(io_error("Failed to acquire lock")),
    }
}

/// A majority is reachable and exclusive: with at least one instance, the quorum is at
/// least one and at most the number of instances, and two groups of instances that share
/// none cannot both reach it, so no two holders take the same lock in the same round. It
/// is the smallest such number: one less is no strict majority.
pub proof fn lemma_quorum_is_exclusive_majority(n: nat, first: nat, second: nat)
    ensures
        quorum_of(n) >= 1,
        2 * quorum_of(n) > n,
        n >= 1 ==> quorum_of(n) <= n,
        first + second <= n ==> !(first >= quorum_of(n) && second >= quorum_of(n)),
        2 * (quorum_of(n) - 1) <= n,
{
}

/// The validity time never exceeds the time-to-live, shrinks as a round takes longer,
/// and is positive exactly when the round's time and the drift together stay below the
/// time-to-live, in which case it is the time-to-live less both.
pub proof fn lemma_validity_bounds(ttl: u64, elapsed: u64, later: u64, drift: u64)
    ensures
        validity_of(ttl, elapsed, drift) <= ttl,
        elapsed <= later ==> validity_of(ttl, later, drift) <= validity_of(ttl, elapsed, drift),
        validity_of(ttl, elapsed, drift) > 0 <==> elapsed + drift < ttl,
        validity_of(ttl, elapsed, drift) > 0 ==> validity_of(ttl, elapsed, drift) == ttl - elapsed - drift,
{
}

/// For every key, value and time-to-live, the command that takes the lock sets the key
/// to the value only if the key is absent (`NX`), so a lock already held is never
/// overwritten, and expires it after the time-to-live in milliseconds (`PX`).
pub proof fn lemma_set_is_conditional(key: Seq<char>, value: Seq<char>, ttl: u64)
    ensures
        set_nx_args(key, value, ttl).len() == 6,
        set_nx_args(key, value, ttl)[0] == "SET"@,
        set_nx_args(key, value, ttl)[1] == key,
        set_nx_args(key, value, ttl)[2] == value,
        set_nx_args(key, value, ttl)[3] == "NX"@,
        set_nx_args(key, value, ttl)[4] == "PX"@,
        set_nx_args(key, value, ttl)[5] == decimal(ttl as nat),
        set_nx_args(key, value, ttl).contains("NX"@),
{
    assert(set_nx_args(key, value, ttl)[3] == "NX"@);
}

/// For every key and value, the release command runs the compare-and-delete script on
/// exactly one key, the lock's key, with the lock's value as its one argument: it deletes
/// the key only while it still holds that value, so it never frees another holder's lock.
pub proof fn lemma_release_script_targets_the_lock(key: Seq<char>, value: Seq<char>)
    ensures
        release_script_args(key, value).len() == 5,
        release_script_args(key, value)[0] == "EVAL"@,
        release_script_args(key, value)[1] == RELEASE_SCRIPT@,
        release_script_args(key, value)[2] == "1"@,
        release_script_args(key, value)[3] == key,
        release_script_args(key, value)[4] == value,
{
}

/// Every resource is locked under its own key: the prefix `redlock:` followed by the
/// resource's name, so two different resources never share a key.
pub proof fn lemma_lock_keys_are_distinct(first: Seq<char>, second: Seq<char>)
    ensures
        lock_key_of(first) == "redlock:"@ + first,
        lock_key_of(first) == lock_key_of(second) <==> first == second,
{
    if lock_key_of(first) == lock_key_of(second) {
        let n = LOCK_KEY_PREFIX@.len() as int;
        assert(first =~= lock_key_of(first).subrange(n, lock_key_of(first).len() as int));
        assert(second =~= lock_key_of(second).subrange(n, lock_key_of(second).len() as int));
    }
}

/// A time in nanoseconds that fits in 64 bits of milliseconds is counted in whole
/// milliseconds, rounded down: the count covers it to within one millisecond.
pub proof fn lemma_millis_round_down(nanos: u128)
    requires
        nanos / 1_000_000 <= u64::MAX,
    ensures
        millis_of(nanos) * 1_000_000 <= nanos < (millis_of(nanos) + 1) * 1_000_000,
{
    assert(millis_of(nanos) == nanos / 1_000_000);
}

} // verus!
