//! A lock over several resources at once, decided by functions that a Redis instance
//! runs: the client side of acquisition, release and scoped use.

use vstd::prelude::*;
use crate::command::{command, push_args, texts};
use crate::outside::{cmd_args, new_v4_string};
use crate::text::{decimal, decimal_string, is_lowercase_hyphenated_uuid};

verus! {

/// Default time after which a held lock expires: one hour, in nanoseconds.
pub const DEFAULT_EXPIRATION: u128 = 3_600_000_000_000;
/// Default time to keep trying to acquire a lock: one minute, in nanoseconds.
pub const DEFAULT_TIMEOUT: u128 = 60_000_000_000;
/// Default pause between two attempts to acquire a lock: one second, in nanoseconds.
pub const DEFAULT_SLEEP: u128 = 1_000_000_000;

/// A distributed mutual exclusion lock backed by Redis.
///
/// Supports exclusion based on multiple resources and partial overlaps: a lock on
/// resources `["a", "b"]` blocks a lock on `["a"]` or on `["b", "c"]`.
pub struct MultiResourceLock {
    client: redis::Client,
}

impl MultiResourceLock {
    /// The client through which this lock reaches Redis.
    pub closed spec fn held_client(&self) -> redis::Client {
        self.client
    }

    /// Creates a lock that reaches Redis through `client`, given the outcome of opening a
    /// connection with it: the connection's error when it could not be opened, otherwise
    /// a lock holding `client`.
    pub fn new(client: redis::Client, connected: Result<(), redis::RedisError>) -> (lock: Result<
        Self,
        redis::RedisError,
    >)
        ensures
            connected matches Err(e) ==> lock == Err::<Self, redis::RedisError>(e),
            connected is Ok ==> (lock matches Ok(l) && l.held_client() == client),
    {
        match connected {
            Ok(()) => Ok(MultiResourceLock { client }),
            Err(e) => Err(e),
        }
    }

    /// The debug rendering of the lock, which hides the connection details.
    pub fn debug_text(&self) -> (text: String)
        ensures
            text@ == "MultiResourceLock { conn: \"..\" }"@,
    {
        String::from_str("MultiResourceLock { conn: \"..\" }")
    }

    /// The client through which this lock reaches Redis.
    pub fn client(&self) -> (client: &redis::Client)
        ensures
            *client == self.held_client(),
    {
        &self.client
    }
}

/// The arguments of the command that asks Redis for a lock with id `lock_id` over
/// `resources`, expiring after `expiration` nanoseconds: the library function
/// `acquire_lock` is called with no keys, then the id, the expiration in whole
/// milliseconds, and the resources.
pub open spec fn acquire_args(lock_id: Seq<char>, expiration: u128, resources: Seq<String>) -> Seq<Seq<char>> {
    seq!["FCALL"@, "acquire_lock"@, "0"@, lock_id, decimal((expiration / 1_000_000) as nat)]
        + texts(resources)
}

/// The arguments of the command that releases the lock with id `lock_id`.
pub open spec fn release_args(lock_id: Seq<char>) -> Seq<Seq<char>> {
    seq!["FCALL"@, "release_lock"@, "0"@, lock_id]
}

/// The arguments of the command that loads the Lua library `library` into Redis,
/// replacing one of the same name.
pub open spec fn setup_args(library: Seq<char>) -> Seq<Seq<char>> {
    seq!["FUNCTION"@, "LOAD"@, "REPLACE"@, library]
}

/// The command that loads the Lua library with the locking functions into Redis.
pub fn setup_command(library: &str) -> (cmd: redis::Cmd)
    ensures
        cmd_args(cmd) == setup_args(library@),
        cmd_args(cmd) == seq!["FUNCTION"@, "LOAD"@, "REPLACE"@, library@],
{
    let cmd = command("FUNCTION", &["LOAD", "REPLACE", library]);
    assert(cmd_args(cmd) =~= setup_args(library@));
    cmd
}

/// The command for one attempt at a lock over `resources` that expires after
/// `expiration` nanoseconds, together with the fresh random lock id that it carries.
pub fn try_acquire_command(resources: &[String], expiration: u128) -> (request: (String, redis::Cmd))
    ensures
        is_lowercase_hyphenated_uuid(request.0@),
        request.0@[14] == '4',
        cmd_args(request.1) == acquire_args(request.0@, expiration, resources@),
        cmd_args(request.1).len() == 5 + resources@.len(),
        cmd_args(request.1).subrange(0, 5)
            == seq!["FCALL"@, "acquire_lock"@, "0"@, request.0@, decimal((expiration / 1_000_000) as nat)],
        forall|i: int| 0 <= i < resources@.len() ==> #[trigger] cmd_args(request.1)[5 + i] == resources@[i]@,
{
    let lock_id = new_v4_string();
    let millis = decimal_string(expiration / 1_000_000);
    let mut cmd = command("FCALL", &["acquire_lock", "0", lock_id.as_str(), millis.as_str()]);
    push_args(&mut cmd, resources);
    assert(cmd_args(cmd) =~= acquire_args(lock_id@, expiration, resources@));
    (lock_id, cmd)
}

/// The command that releases the lock with id `lock_id`.
pub fn release_command(lock_id: &str) -> (cmd: redis::Cmd)
    ensures
        cmd_args(cmd) == release_args(lock_id@),
        cmd_args(cmd) == seq!["FCALL"@, "release_lock"@, "0"@, lock_id@],
{
    let cmd = command("FCALL", &["release_lock", "0", lock_id]);
    assert(cmd_args(cmd) =~= release_args(lock_id@));
    cmd
}

/// What the acquisition loop learns: the time elapsed since it started, checked before
/// each attempt, or the outcome of one attempt.
pub enum AcquireEvent {
    /// The time elapsed since the acquisition began, in nanoseconds.
    Polled { elapsed: u128 },
    /// The reply to one attempt: the lock id when Redis granted the lock.
    Attempted(Result<Option<String>, redis::RedisError>),
}

/// What the acquisition loop does next.
pub enum AcquireAction {
    /// Make one attempt at the lock.
    Attempt,
    /// Pause for the configured time, then poll again.
    Sleep,
    /// Stop, with this result: the lock id, `None` on a timeout, or the error of an attempt.
    Finish(Result<Option<String>, redis::RedisError>),
}

/// The acquisition loop's decision for `event`, with `timeout` nanoseconds allowed:
/// past the timeout it gives up with `None`; otherwise it attempts; a granted lock or an
/// error ends the loop with it; a refused attempt leads to a pause.
pub open spec fn acquire_next(timeout: u128, event: AcquireEvent) -> AcquireAction {
    match event {
        AcquireEvent::Polled { elapsed } => if elapsed > timeout {
            AcquireAction::Finish(Ok(None))
        } else {
            AcquireAction::Attempt
        },
        AcquireEvent::Attempted(Ok(Some(lock_id))) => AcquireAction::Finish(Ok(Some(lock_id))),
        AcquireEvent::Attempted(Ok(None)) => AcquireAction::Sleep,
        AcquireEvent::Attempted(Err(e)) => AcquireAction::Finish(Err(e)),
    }
}

/// One decision of the loop that acquires a lock, blocking up to `timeout` nanoseconds.
pub fn acquire_step(timeout: u128, event: AcquireEvent) -> (action: AcquireAction)
    ensures
        action == acquire_next(timeout, event),
        event matches AcquireEvent::Polled { elapsed } ==> action == (if elapsed > timeout {
            AcquireAction::Finish(Ok(None))
        } else {
            AcquireAction::Attempt
        }),
        event matches AcquireEvent::Attempted(Ok(Some(id))) ==> action == AcquireAction::Finish(Ok(Some(id))),
        event == AcquireEvent::Attempted(Ok(None)) ==> action == AcquireAction::Sleep,
        event matches AcquireEvent::Attempted(Err(e)) ==> action == AcquireAction::Finish(Err(e)),
{
    match event {
        AcquireEvent::Polled { elapsed } => if elapsed > timeout {
            AcquireAction::Finish(Ok(None))
        } else {
            AcquireAction::Attempt
        },
        AcquireEvent::Attempted(Ok(Some(lock_id))) => AcquireAction::Finish(Ok(Some(lock_id))),
        AcquireEvent::Attempted(Ok(None)) => AcquireAction::Sleep,
        AcquireEvent::Attempted(Err(e)) => AcquireAction::Finish(Err(e)),
    }
}

/// Why a scoped use of the lock failed.
#[derive(Debug)]
pub enum MapError {
    /// Timed out attempting to acquire the lock.
    Timeout,
    /// Failed to acquire the lock.
    Acquire(redis::RedisError),
    /// Failed to release the lock.
    Release(redis::RedisError),
}

/// Where a scoped use of the lock stands.
pub enum MapState {
    /// Waiting for the lock.
    Acquiring,
    /// The lock with this id is held and the task runs.
    Running { lock_id: String },
    /// The task has finished and the lock is being released.
    Releasing,
    /// The scoped use is over.
    Finished,
}

/// What a scoped use of the lock learns.
pub enum MapEvent {
    /// The outcome of acquiring the lock.
    Acquired(Result<Option<String>, redis::RedisError>),
    /// The task has finished.
    TaskFinished,
    /// The outcome of releasing the lock: the count that Redis returned, or an error.
    Released(Result<usize, redis::RedisError>),
}

/// What a scoped use of the lock does next.
pub enum MapAction {
    /// Run the task.
    RunTask,
    /// Release the lock with this id.
    Release { lock_id: String },
    /// Return the task's output.
    ReturnOutput,
    /// Return this error.
    Fail(MapError),
}

/// Which events a scoped use expects in each state.
pub open spec fn map_accepts(state: MapState, event: MapEvent) -> bool {
    match state {
        MapState::Acquiring => event is Acquired,
        MapState::Running { .. } => event is TaskFinished,
        MapState::Releasing => event is Released,
        MapState::Finished => false,
    }
}

/// The next state and action of a scoped use: an acquisition error or a timeout ends it
/// with that error; a granted lock runs the task; a finished task releases the lock it
/// ran under; a release ends it with the task's output, or with the release's error.
pub open spec fn map_next(state: MapState, event: MapEvent) -> (MapState, MapAction) {
    match (state, event) {
        (MapState::Acquiring, MapEvent::Acquired(Err(e))) => (MapState::Finished, MapAction::Fail(MapError::Acquire(e))),
        (MapState::Acquiring, MapEvent::Acquired(Ok(None))) => (MapState::Finished, MapAction::Fail(MapError::Timeout)),
        (MapState::Acquiring, MapEvent::Acquired(Ok(Some(lock_id)))) => (MapState::Running { lock_id }, MapAction::RunTask),
        (MapState::Running { lock_id }, MapEvent::TaskFinished) => (MapState::Releasing, MapAction::Release { lock_id }),
        (MapState::Releasing, MapEvent::Released(Ok(_))) => (MapState::Finished, MapAction::ReturnOutput),
        (MapState::Releasing, MapEvent::Released(Err(e))) => (MapState::Finished, MapAction::Fail(MapError::Release(e))),
        (s, _) => (s, MapAction::ReturnOutput),
    }
}

/// One step of a scoped use of the lock: acquire, run the task, release.
pub fn map_step(state: MapState, event: MapEvent) -> (next: (MapState, MapAction))
    requires
        map_accepts(state, event),
    ensures
        next == map_next(state, event),
        event matches MapEvent::Acquired(Err(e)) ==> next == (MapState::Finished, MapAction::Fail(MapError::Acquire(e))),
        event == MapEvent::Acquired(Ok(None)) ==> next == (MapState::Finished, MapAction::Fail(MapError::Timeout)),
        event matches MapEvent::Acquired(Ok(Some(id))) ==> next == (MapState::Running { lock_id: id }, MapAction::RunTask),
        state matches MapState::Running { lock_id } ==> next == (MapState::Releasing, MapAction::Release { lock_id }),
        event matches MapEvent::Released(Ok(_)) ==> next == (MapState::Finished, MapAction::ReturnOutput),
        event matches MapEvent::Released(Err(e)) ==> next == (MapState::Finished, MapAction::Fail(MapError::Release(e))),
{
    match (state, event) {
        (MapState::Acquiring, MapEvent::Acquired(Err(e))) => (MapState::Finished, MapAction::Fail(MapError::Acquire(e))),
        (MapState::Acquiring, MapEvent::Acquired(Ok(None))) => (MapState::Finished, MapAction::Fail(MapError::Timeout)),
        (MapState::Acquiring, MapEvent::Acquired(Ok(Some(lock_id)))) => (MapState::Running { lock_id }, MapAction::RunTask),
        (MapState::Running { lock_id }, MapEvent::TaskFinished) => (MapState::Releasing, MapAction::Release { lock_id }),
        (MapState::Releasing, MapEvent::Released(Ok(_))) => (MapState::Finished, MapAction::ReturnOutput),
        (MapState::Releasing, MapEvent::Released(Err(e))) => (MapState::Finished, MapAction::Fail(MapError::Release(e))),
        (s, _) => (s, MapAction::ReturnOutput),
    }
}

/// An acquisition ends with `None` exactly when a poll finds more than `timeout`
/// nanoseconds elapsed, and with a lock id exactly when an attempt was granted that id;
/// a poll within the timeout always leads to an attempt.
pub proof fn lemma_acquire_outcomes(timeout: u128, event: AcquireEvent, lock_id: String)
    ensures
        (acquire_next(timeout, event) == AcquireAction::Finish(Ok(None)))
            <==> (event matches AcquireEvent::Polled { elapsed } && elapsed > timeout),
        (acquire_next(timeout, event) == AcquireAction::Finish(Ok(Some(lock_id))))
            <==> (event == AcquireEvent::Attempted(Ok(Some(lock_id)))),
        (event matches AcquireEvent::Polled { elapsed } && elapsed <= timeout)
            ==> acquire_next(timeout, event) == AcquireAction::Attempt,
        (acquire_next(timeout, event) == AcquireAction::Sleep)
            <==> (event == AcquireEvent::Attempted(Ok(None))),
        event matches AcquireEvent::Attempted(Err(e))
            ==> acquire_next(timeout, event) == AcquireAction::Finish(Err(e)),
{
}

/// Whatever the timeout, an attempt that fails with an error ends the acquisition at
/// once with that same error: it is neither retried nor turned into a timeout.
pub proof fn lemma_acquire_error_ends_it(timeout: u128, error: redis::RedisError)
    ensures
        acquire_next(timeout, AcquireEvent::Attempted(Err(error)))
            == AcquireAction::Finish(Err::<Option<String>, redis::RedisError>(error)),
        acquire_next(timeout, AcquireEvent::Attempted(Err(error))) != AcquireAction::Attempt,
        acquire_next(timeout, AcquireEvent::Attempted(Err(error))) != AcquireAction::Sleep,
{
}

/// An acquisition that fails with an error ends the scoped use with that error,
/// reported as a failure to acquire: the task does not run and nothing is released.
pub proof fn lemma_map_acquire_error(error: redis::RedisError)
    ensures
        map_next(MapState::Acquiring, MapEvent::Acquired(Err(error)))
            == (MapState::Finished, MapAction::Fail(MapError::Acquire(error))),
{
}

/// For every lock id, expiration and list of resources, the acquisition command calls
/// the function `acquire_lock` with no keys, then carries the id, the expiration in whole
/// milliseconds, and every requested resource, in order and nothing else.
pub proof fn lemma_acquire_args_carry_every_resource(
    lock_id: Seq<char>,
    expiration: u128,
    resources: Seq<String>,
)
    ensures
        acquire_args(lock_id, expiration, resources).len() == 5 + resources.len(),
        acquire_args(lock_id, expiration, resources)[0] == "FCALL"@,
        acquire_args(lock_id, expiration, resources)[1] == "acquire_lock"@,
        acquire_args(lock_id, expiration, resources)[2] == "0"@,
        acquire_args(lock_id, expiration, resources)[3] == lock_id,
        acquire_args(lock_id, expiration, resources)[4] == decimal((expiration / 1_000_000) as nat),
        forall|i: int| 0 <= i < resources.len()
            ==> #[trigger] acquire_args(lock_id, expiration, resources)[5 + i] == resources[i]@,
        acquire_args(lock_id, expiration, resources).subrange(5, 5 + resources.len() as int)
            == resources.map_values(|r: String| r@),
{
    let args = acquire_args(lock_id, expiration, resources);
    assert(args.subrange(5, 5 + resources.len() as int) =~= resources.map_values(|r: String| r@));
}

/// For every lock id, the release command calls the function `release_lock` with no
/// keys and the id as its one argument.
pub proof fn lemma_release_args_pass_the_id(lock_id: Seq<char>)
    ensures
        release_args(lock_id).len() == 4,
        release_args(lock_id)[0] == "FCALL"@,
        release_args(lock_id)[1] == "release_lock"@,
        release_args(lock_id)[2] == "0"@,
        release_args(lock_id)[3] == lock_id,
{
}

/// For every library text, the setup command loads it with `REPLACE`, so loading it
/// again replaces the library instead of failing.
pub proof fn lemma_setup_args_replace(library: Seq<char>)
    ensures
        setup_args(library).len() == 4,
        setup_args(library)[0] == "FUNCTION"@,
        setup_args(library)[1] == "LOAD"@,
        setup_args(library)[2] == "REPLACE"@,
        setup_args(library)[3] == library,
{
}

/// A scoped use that is granted the lock `lock_id` runs the task, then releases exactly
/// `lock_id`, then returns the task's output, or the release's error if the release
/// fails; it is then over.
pub proof fn lemma_map_releases_what_it_acquired(
    lock_id: String,
    release: Result<usize, redis::RedisError>,
)
    ensures
        ({
            let (s1, a1) = map_next(MapState::Acquiring, MapEvent::Acquired(Ok(Some(lock_id))));
            let (s2, a2) = map_next(s1, MapEvent::TaskFinished);
            let (s3, a3) = map_next(s2, MapEvent::Released(release));
            &&& a1 == MapAction::RunTask
            &&& map_accepts(s1, MapEvent::TaskFinished)
            &&& a2 == MapAction::Release { lock_id }
            &&& map_accepts(s2, MapEvent::Released(release))
            &&& s3 == MapState::Finished
            &&& match release {
                Ok(_) => a3 == MapAction::ReturnOutput,
                Err(e) => a3 == MapAction::Fail(MapError::Release(e)),
            }
        }),
{
}

/// The task runs only right after the lock was granted, and runs under the lock id
/// that was granted; the lock is released only right after the task finished, with the
/// id it ran under.
pub proof fn lemma_map_task_only_under_lock(state: MapState, event: MapEvent)
    requires
        map_accepts(state, event),
    ensures
        map_next(state, event).1 == MapAction::RunTask ==> (event matches MapEvent::Acquired(Ok(Some(id)))
            && map_next(state, event).0 == MapState::Running { lock_id: id }),
        map_next(state, event).1 is Release ==> (state matches MapState::Running { lock_id }
            && map_next(state, event).1 == MapAction::Release { lock_id }),
{
}

/// A scoped use fails with `Timeout` exactly when the acquisition timed out, and every
/// failure or returned output ends it.
pub proof fn lemma_map_failures_end(state: MapState, event: MapEvent)
    requires
        map_accepts(state, event),
    ensures
        (map_next(state, event).1 == MapAction::Fail(MapError::Timeout))
            <==> (event == MapEvent::Acquired(Ok(None))),
        (map_next(state, event).1 is Fail || map_next(state, event).1 is ReturnOutput)
            ==> map_next(state, event).0 == MapState::Finished,
{
}

} // verus!
