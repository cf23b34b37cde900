//! Support for tests that run on several executors: [`ExecutorThreadSpawner`](executor_thread_spawner::ExecutorThreadSpawner) keeps the ids
//! of the executors that a test started on threads of their own, and [`ExecutorPool`](executor_pool::ExecutorPool) the
//! executors that are free for the next job of a test; [`runner`] decides the steps of
//! running a test on the executor of its thread.
pub mod executor_pool;
pub mod executor_thread_spawner;
pub mod runner;
