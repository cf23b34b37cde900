//! The interfaces that every mutex offers: [`AsyncMutex`], and [`AsyncSubscribableMutex`] for
//! the mutexes into whose queue a condition variable can put a woken task.
use crate::task::{Scheduler, Task};
use vstd::prelude::*;

verus! {

/// A mutual exclusion primitive that protects a value of type `T`.
pub trait AsyncMutex<T> {
    /// The token of a held lock.
    type Guard;

    /// Whether the mutex is locked.
    spec fn mutex_locked(&self) -> bool;

    /// The protected value.
    spec fn mutex_value(&self) -> T;

    /// The invariant of the mutex.
    spec fn mutex_wf(&self) -> bool;

    /// Whether no task waits for the mutex, so that an unlock frees it.
    spec fn mutex_idle(&self) -> bool;

    /// Whether the holder may unlock the mutex now.
    spec fn mutex_unlockable(&self) -> bool;

    /// Whether `g` is a token of this mutex.
    spec fn guard_fits(&self, g: Self::Guard) -> bool;

    /// Whether the mutex is locked.
    fn is_locked(&self) -> (b: bool)
        ensures
            b == self.mutex_locked(),
    ;

    /// Takes the lock if the mutex is unlocked.
    fn try_lock(&mut self) -> (g: Option<Self::Guard>)
        requires
            old(self).mutex_wf(),
        ensures
            final(self).mutex_wf(),
            g is Some <==> !old(self).mutex_locked(),
            g matches Some(t) ==> final(self).guard_fits(t),
            final(self).mutex_locked(),
            final(self).mutex_value() == old(self).mutex_value(),
    ;

    /// The protected value, reached without locking through exclusive access to the mutex.
    fn get_mut(&mut self) -> (r: &mut T)
        ensures
            *r == old(self).mutex_value(),
            final(self).mutex_value() == *final(r),
            final(self).mutex_locked() == old(self).mutex_locked(),
    ;

    /// Releases the lock that the caller holds. A mutex that no task waits for becomes
    /// unlocked; else the lock goes to a waiting task and the mutex stays locked.
    fn unlock(&mut self, sched: &mut Scheduler)
        requires
            old(self).mutex_wf(),
            old(self).mutex_unlockable(),
        ensures
            final(self).mutex_wf(),
            final(self).mutex_value() == old(self).mutex_value(),
            old(self).mutex_idle() ==> !final(self).mutex_locked(),
            !old(self).mutex_idle() ==> final(self).mutex_locked(),
    ;

    /// The token of a lock that the caller holds, for a task to which the lock was handed.
    fn get_locked(&self) -> (g: Self::Guard)
        requires
            self.mutex_locked(),
        ensures
            self.guard_fits(g),
    ;
}

/// A mutex into whose queue a task can be put directly, while the mutex is locked.
pub trait AsyncSubscribableMutex<T>: AsyncMutex<T> {
    /// The tasks in the queue of the mutex, in the order in which they entered it.
    spec fn subscribers(&self) -> Seq<Task>;

    /// Puts `task` at the end of the queue of the locked mutex.
    fn low_level_subscribe(&mut self, task: Task)
        requires
            old(self).mutex_wf(),
            old(self).mutex_locked(),
        ensures
            final(self).mutex_wf(),
            final(self).mutex_locked(),
            final(self).subscribers() == old(self).subscribers().push(task),
            final(self).mutex_value() == old(self).mutex_value(),
    ;
}

} // verus!
