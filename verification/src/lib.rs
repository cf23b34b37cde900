//! Verified synchronization primitives of an asynchronous engine.
pub mod sync;
pub mod sync_task_queue;
pub mod task;
pub mod test;
