# orengine_sync

Synchronization primitives of an asynchronous engine — channels, mutexes, read-write locks,
condition variables, wait groups, onces, lazy values, scopes and pools — written as state
machines and verified with Verus.

Each primitive is a value that its operations take by `&mut`. A task that has to wait is
parked in the primitive as a `Task` handle; waking it means handing it to a `Scheduler`, which
records the tasks it was asked to run at once (`exec_task`) or to queue (`spawn_task`). A lock
is held through a token (a guard) that the lock's operations hand out and take back, and a
future is a value whose `poll` takes the primitive and the polling task.
Each primitive carries a ghost identity; the guards, futures and handles that it hands out
record it, and the operations that take them back ask for the same identity, so a token of one
primitive cannot be used on another.

Layout:

- `src/task.rs`: `Task`, `Scheduler`, and the lookup of the outcome recorded for a woken task.
- `src/sync_task_queue.rs`: the list of parked tasks of the shared primitives.
- `src/sync/`: the primitives. `channel_state.rs` holds the state machine that both channels
  share, `rw_lock_state.rs` the one of the local read-write locks, and `deques_pool.rs` the
  cache of wait lists that shared channels draw from (an `ahash` map). The interfaces that
  several primitives share are `AsyncChannel`, `AsyncSender` and `AsyncReceiver`
  (`channel_traits.rs`), `AsyncMutex` and `AsyncSubscribableMutex` (`mutex_traits.rs`),
  `AsyncRWLock` (`rw_lock_traits.rs`), `AsyncCondVar`, `AsyncWaitGroup` and `AsyncOnce`.
- `src/test/`: bookkeeping for tests that run on several executors (the free executors wait
  in a `crossbeam` queue).
- `tests/`: scenarios run against the compiled library.

The laws of the library (FIFO order of channels, mutual exclusion, readers-or-one-writer,
a once runs once, a lazy value is computed once, pools give back what was returned last) are
public proof functions next to the primitives they are about.
