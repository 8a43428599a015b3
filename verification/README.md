# redis_lock

Distributed locking backed by Redis: a lock over several resources at once, decided by
Lua functions that the Redis instance runs, and a RedLock lock over a single resource
held on a majority of several instances.

- `src/` is the library, verified with Verus: the commands sent to Redis (with exact
  argument lists), the decisions of the acquisition loop and of a scoped use of the
  lock (as step functions of small state machines), the RedLock round (quorum and
  validity time, given the clock-drift allowance), and the account transfers used to exercise the locks.
  `src/outside.rs` holds the trusted contracts of the few calls into `redis`, `uuid` and
  `rand` that the logic makes.
- `app/` drives those decisions asynchronously with `tokio`: connections, replies,
  timers and the tasks run under a lock. It also computes the clock-drift allowance,
  which is a floating-point expression.
- `tests/` runs the library on concrete values.
