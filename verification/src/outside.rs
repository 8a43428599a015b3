//! The items of outside crates that the library's logic uses, with the contracts
//! taken on trust for them.

use rand::Rng;
use vstd::prelude::*;
use crate::text::is_lowercase_hyphenated_uuid;

verus! {

/// A Redis client (`redis::Client`): connection information only, opaque here.
#[verifier::external_type_specification]
#[verifier::external_body]
pub struct ExClient(redis::Client);

/// A Redis error (`redis::RedisError`), opaque here.
#[verifier::external_type_specification]
#[verifier::external_body]
pub struct ExRedisError(redis::RedisError);

/// A Redis command under construction (`redis::Cmd`); its arguments are named by
/// [`cmd_args`].
#[verifier::external_type_specification]
#[verifier::external_body]
pub struct ExCmd(redis::Cmd);

/// The thread-local random number generator of `rand` (`rand::rngs::ThreadRng`).
#[verifier::external_type_specification]
#[verifier::external_body]
pub struct ExThreadRng(rand::rngs::ThreadRng);

/// The arguments that a `redis::Cmd` holds, in order, each by its text; the first is
/// the command's name.
pub uninterp spec fn cmd_args(cmd: redis::Cmd) -> Seq<Seq<char>>;

/// Calls `redis::cmd(name)`, which creates an empty command and appends `name` as its
/// first argument: the new command's arguments are exactly `[name]`.
#[verifier::external_body]
pub(crate) fn new_cmd(name: &str) -> (cmd: redis::Cmd)
    ensures
        cmd_args(cmd) == seq![name@],
{
    redis::cmd(name)
}

/// Calls `redis::Cmd::arg` with a string slice, which appends the slice's bytes as one
/// more argument: the arguments after the call are those before it with `arg` at the end.
#[verifier::external_body]
pub(crate) fn push_arg(cmd: &mut redis::Cmd, arg: &str)
    ensures
        cmd_args(*final(cmd)) == cmd_args(*old(cmd)).push(arg@),
{
    cmd.arg(arg);
}

/// Calls `uuid::Uuid::new_v4` and renders the result with `to_string`. The UUID is
/// random; its `Display` form is the lowercase hyphenated one (8-4-4-4-12 hex digits),
/// with the version digit `4` in its third group. Nothing else is stated of it.
#[verifier::external_body]
pub(crate) fn new_v4_string() -> (s: String)
    ensures
        is_lowercase_hyphenated_uuid(s@),
        s@[14] == '4',
{
    uuid::Uuid::new_v4().to_string()
}

/// The error that `redis::RedisError::from((redis::ErrorKind::IoError, description))`
/// builds: of kind `IoError`, with the given description. It depends on the description
/// alone.
pub uninterp spec fn io_error_of(description: Seq<char>) -> redis::RedisError;

/// Builds `redis::RedisError::from((redis::ErrorKind::IoError, description))`, an error
/// of kind `IoError` with the given description, named by [`io_error_of`].
#[verifier::external_body]
pub(crate) fn io_error(description: &'static str) -> (e: redis::RedisError)
    ensures
        e == io_error_of(description@),
{
    redis::RedisError::from((redis::ErrorKind::IoError, description))
}

/// Calls `rand::Rng::gen_range(10..=100)` on the thread-local generator: a random
/// `i64` in the inclusive range `10..=100`.
#[verifier::external_body]
pub(crate) fn gen_range_10_to_100(rng: &mut rand::rngs::ThreadRng) -> (n: i64)
    ensures
        10 <= n <= 100,
{
    rng.gen_range(10..=100)
}

/// Calls `rand::Rng::gen_range(0..3)` on the thread-local generator: a random `i32`
/// in the half-open range `0..3`.
#[verifier::external_body]
pub(crate) fn gen_range_0_to_3(rng: &mut rand::rngs::ThreadRng) -> (n: i32)
    ensures
        0 <= n < 3,
{
    rng.gen_range(0..3)
}

} // verus!
