//! Synchronization primitives: channels, mutexes, read-write locks, onces,
//! wait groups, condition variables and scopes.
pub mod channel_results;
pub mod channel_state;
pub mod channel_traits;
pub mod deques_pool;
pub mod local_channel;
pub mod naive_mutex;
pub mod shared_channel;
pub mod rw_lock_state;
pub mod rw_lock_traits;
pub mod local_rw_lock;
pub mod local_rw_mutex;
pub mod smart_mutex;
pub mod local_mutex;
pub mod mutex_traits;
pub mod cond_var;
pub mod wait_group;
pub mod scope;
pub mod once;
pub mod lazy_lock;
pub mod pool;
pub mod naive_rw_lock;
