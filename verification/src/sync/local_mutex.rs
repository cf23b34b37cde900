//! A mutex for the tasks of one thread: [`LocalMutex`], its token [`LocalMutexGuard`] and its
//! future [`LocalMutexWait`].
//!
//! Waiters are kept in a list and the unlocker hands the lock to the waiter that came last;
//! a mutex with waiters stays locked through the handover.
use crate::sync::channel_results::Poll;
use crate::sync::local_rw_lock::LockStart;
use crate::task::{fresh_id, Scheduler, Task};
use crate::sync::mutex_traits::{AsyncMutex, AsyncSubscribableMutex};
use vstd::prelude::*;

verus! {

/// The token of a held [`LocalMutex`].
pub struct LocalMutexGuard {
    lock_id: Ghost<int>,
}

/// A future that waits until a [`LocalMutex`] is handed to its task.
pub struct LocalMutexWait {
    was_called: bool,
    lock_id: Ghost<int>,
}

/// The effect of a try to lock `old` that leaves `new`: it succeeds exactly when the mutex was
/// free; the mutex is locked afterwards, and its waiters and value stay.
pub open spec fn local_try_lock_post<T>(old: LocalMutex<T>, new: LocalMutex<T>, acquired: bool) -> bool {
    &&& new.wf()
    &&& new.id() == old.id()
    &&& new.locked_view()
    &&& new.waiters() == old.waiters()
    &&& new.value_view() == old.value_view()
    &&& acquired == !old.locked_view()
}

/// The effect of unlocking `old` into `new`, with the scheduler going from `os` to `ns`: the
/// waiter that came last gets the lock and is woken, and the mutex stays locked; without
/// waiters the mutex becomes free. The value stays.
pub open spec fn local_unlock_post<T>(old: LocalMutex<T>, new: LocalMutex<T>, os: Scheduler, ns: Scheduler) -> bool {
    &&& new.wf()
    &&& new.id() == old.id()
    &&& new.value_view() == old.value_view()
    &&& old.waiters().len() > 0 ==> {
        &&& new.locked_view()
        &&& new.waiters() == old.waiters().drop_last()
        &&& ns.executed_after(&os, seq![old.waiters().last()])
    }
    &&& old.waiters().len() == 0 ==> {
        &&& !new.locked_view()
        &&& new.waiters() == old.waiters()
        &&& ns.same_as(&os)
    }
}

/// A mutual exclusion primitive for the tasks of one thread.
pub struct LocalMutex<T> {
    is_locked: bool,
    wait_queue: Vec<Task>,
    value: T,
    id: Ghost<int>,
}

impl<T> LocalMutex<T> {
    /// Whether the mutex is locked.
    pub closed spec fn locked_view(&self) -> bool {
        self.is_locked
    }

    /// The parked tasks, first parked first.
    pub closed spec fn waiters(&self) -> Seq<Task> {
        self.wait_queue@
    }

    /// The protected value.
    pub closed spec fn value_view(&self) -> T {
        self.value
    }

    /// The identity of the mutex, which its tokens and futures record.
    pub closed spec fn id(&self) -> int {
        self.id@
    }

    /// The invariant of the mutex: tasks wait only on a locked mutex.
    pub open spec fn wf(&self) -> bool {
        self.waiters().len() > 0 ==> self.locked_view()
    }

    /// Creates an unlocked mutex that protects `value`.
    pub fn new(value: T) -> (m: Self)
        ensures
            m.wf(),
            !m.locked_view(),
            m.waiters() == Seq::<Task>::empty(),
            m.value_view() == value,
    {
        LocalMutex { is_locked: false, wait_queue: Vec::new(), value, id: fresh_id() }
    }

    /// Whether the mutex is locked.
    pub fn is_locked(&self) -> (b: bool)
        ensures
            b == self.locked_view(),
    {
        self.is_locked
    }

    /// Starts a lock: the token at once if the mutex is unlocked, else a future to await.
    pub fn lock(&mut self) -> (r: LockStart<LocalMutexGuard, LocalMutexWait>)
        requires
            old(self).wf(),
        ensures
            local_try_lock_post(*old(self), *final(self), r is Locked),
            r matches LockStart::Locked(g) ==> g.lock_id_view() == final(self).id(),
            r matches LockStart::Wait(w) ==> !w.was_called_view() && w.lock_id_view()
                == final(self).id(),
    {
        if !self.is_locked {
            self.is_locked = true;
            LockStart::Locked(LocalMutexGuard { lock_id: Ghost(self.id@) })
        } else {
            LockStart::Wait(LocalMutexWait { was_called: false, lock_id: Ghost(self.id@) })
        }
    }

    /// Locks the mutex if it is unlocked.
    pub fn try_lock(&mut self) -> (g: Option<LocalMutexGuard>)
        requires
            old(self).wf(),
        ensures
            local_try_lock_post(*old(self), *final(self), g is Some),
            g matches Some(t) ==> t.lock_id_view() == final(self).id(),
    {
        if !self.is_locked {
            self.is_locked = true;
            Some(LocalMutexGuard { lock_id: Ghost(self.id@) })
        } else {
            None
        }
    }

    /// The protected value, reached without locking through exclusive access to the mutex.
    pub fn get_mut(&mut self) -> (r: &mut T)
        ensures
            *r == old(self).value_view(),
            final(self).value_view() == *final(r),
            final(self).locked_view() == old(self).locked_view(),
            final(self).waiters() == old(self).waiters(),
            final(self).id() == old(self).id(),
    {
        &mut self.value
    }

    /// Unlocks the mutex. If a task waits, the one that was parked last gets the lock and is
    /// woken, and the mutex stays locked; else the mutex becomes unlocked.
    pub fn unlock(&mut self, sched: &mut Scheduler)
        requires
            old(self).wf(),
            old(self).locked_view(),
        ensures
            local_unlock_post(*old(self), *final(self), *old(sched), *final(sched)),
    {
        match self.wait_queue.pop() {
            Some(task) => {
                sched.exec_task(task);
            },
            None => {
                self.is_locked = false;
            },
        }
    }

    /// A token of the mutex, which is locked already.
    pub fn get_locked(&self) -> (g: LocalMutexGuard)
        requires
            self.locked_view(),
        ensures
            g.lock_id_view() == self.id(),
    {
        LocalMutexGuard { lock_id: Ghost(self.id@) }
    }

    /// Parks `task` until the locked mutex is handed to it, as a condition variable does for a
    /// woken task.
    pub fn low_level_subscribe(&mut self, task: Task)
        requires
            old(self).wf(),
            old(self).locked_view(),
        ensures
            final(self).wf(),
            final(self).locked_view(),
            final(self).waiters() == old(self).waiters().push(task),
            final(self).value_view() == old(self).value_view(),
            final(self).id() == old(self).id(),
    {
        self.wait_queue.push(task);
    }
}

impl LocalMutexWait {
    /// Whether the future has parked its task.
    pub closed spec fn was_called_view(&self) -> bool {
        self.was_called
    }

    /// The identity of the mutex that the future waits for.
    pub closed spec fn lock_id_view(&self) -> int {
        self.lock_id@
    }

    /// Creates a future that waits for `mutex`.
    pub fn new<T>(mutex: &LocalMutex<T>) -> (f: Self)
        ensures
            !f.was_called_view(),
            f.lock_id_view() == mutex.id(),
    {
        LocalMutexWait { was_called: false, lock_id: Ghost(mutex.id@) }
    }

    /// Polls the future on behalf of `task`: the first poll parks the task on the locked mutex;
    /// the poll after the task was woken yields the token of the lock that was handed to it.
    pub fn poll<T>(&mut self, mutex: &mut LocalMutex<T>, task: Task) -> (r: Poll<LocalMutexGuard>)
        requires
            old(mutex).wf(),
            old(mutex).locked_view(),
            old(self).lock_id_view() == old(mutex).id(),
        ensures
            final(mutex).wf(),
            final(mutex).id() == old(mutex).id(),
            final(self).lock_id_view() == old(self).lock_id_view(),
            r matches Poll::Ready(g) ==> g.lock_id_view() == final(mutex).id(),
            final(mutex).locked_view(),
            final(mutex).value_view() == old(mutex).value_view(),
            final(self).was_called_view(),
            !old(self).was_called_view() ==> r is Pending && final(mutex).waiters() == old(mutex).waiters().push(task),
            old(self).was_called_view() ==> r is Ready && final(mutex).waiters() == old(mutex).waiters(),
    {
        if !self.was_called {
            mutex.low_level_subscribe(task);
            self.was_called = true;
            Poll::Pending
        } else {
            Poll::Ready(LocalMutexGuard { lock_id: Ghost(mutex.id@) })
        }
    }
}

impl LocalMutexGuard {
    /// The identity of the mutex that this token belongs to.
    pub closed spec fn lock_id_view(&self) -> int {
        self.lock_id@
    }

    /// The protected value, read under the lock.
    pub fn deref<'a, T>(&self, mutex: &'a LocalMutex<T>) -> (r: &'a T)
        requires
            mutex.locked_view(),
            self.lock_id_view() == mutex.id(),
        ensures
            *r == mutex.value_view(),
    {
        &mutex.value
    }

    /// The protected value, changed under the lock.
    pub fn deref_mut<'a, T>(&self, mutex: &'a mut LocalMutex<T>) -> (r: &'a mut T)
        requires
            old(mutex).locked_view(),
            self.lock_id_view() == old(mutex).id(),
        ensures
            final(mutex).id() == old(mutex).id(),
            *r == old(mutex).value_view(),
            final(mutex).value_view() == *final(r),
            final(mutex).locked_view() == old(mutex).locked_view(),
            final(mutex).waiters() == old(mutex).waiters(),
    {
        &mut mutex.value
    }

    /// Releases the lock that this token stands for and returns the mutex (see
    /// [`LocalMutex::unlock`]).
    pub fn into_local_mutex<'a, T>(self, mutex: &'a mut LocalMutex<T>, sched: &mut Scheduler) -> (r:
        &'a mut LocalMutex<T>)
        requires
            old(mutex).wf(),
            old(mutex).locked_view(),
            self.lock_id_view() == old(mutex).id(),
        ensures
            local_unlock_post(*old(mutex), *r, *old(sched), *final(sched)),
            *final(mutex) == *final(r),
    {
        mutex.unlock(sched);
        mutex
    }

    /// Releases the lock that this token stands for (see [`LocalMutex::unlock`]).
    pub fn unlock<T>(self, mutex: &mut LocalMutex<T>, sched: &mut Scheduler)
        requires
            old(mutex).wf(),
            old(mutex).locked_view(),
            self.lock_id_view() == old(mutex).id(),
        ensures
            local_unlock_post(*old(mutex), *final(mutex), *old(sched), *final(sched)),
    {
        mutex.unlock(sched)
    }

    /// Gives up the token without unlocking.
    pub fn leak(self) {
    }
}

/// Only one task holds a mutex: once a try to lock succeeds, the next try fails.
pub proof fn lemma_local_mutex_exclusive<T>(
    m0: LocalMutex<T>,
    m1: LocalMutex<T>,
    m2: LocalMutex<T>,
    first: bool,
    second: bool,
)
    requires
        m0.wf(),
        local_try_lock_post(m0, m1, first),
        first,
        local_try_lock_post(m1, m2, second),
    ensures
        !second,
{
}

/// Unlocking hands the mutex on: after an unlock a try to lock succeeds exactly when no task
/// was waiting, and a waiting task that got the lock finds the value that the holder left.
pub proof fn lemma_local_mutex_unlock_then_try_lock<T>(
    m0: LocalMutex<T>,
    m1: LocalMutex<T>,
    m2: LocalMutex<T>,
    s0: Scheduler,
    s1: Scheduler,
    acquired: bool,
)
    requires
        m0.wf(),
        m0.locked_view(),
        local_unlock_post(m0, m1, s0, s1),
        local_try_lock_post(m1, m2, acquired),
    ensures
        acquired <==> m0.waiters().len() == 0,
        m2.value_view() == m0.value_view(),
{
}

impl<T> AsyncMutex<T> for LocalMutex<T> {
    type Guard = LocalMutexGuard;

    open spec fn mutex_locked(&self) -> bool {
        self.locked_view()
    }

    open spec fn mutex_value(&self) -> T {
        self.value_view()
    }

    open spec fn mutex_wf(&self) -> bool {
        self.wf()
    }

    open spec fn mutex_idle(&self) -> bool {
        self.waiters().len() == 0
    }

    open spec fn mutex_unlockable(&self) -> bool {
        self.locked_view()
    }

    open spec fn guard_fits(&self, g: LocalMutexGuard) -> bool {
        g.lock_id_view() == self.id()
    }

    fn is_locked(&self) -> (b: bool) {
        LocalMutex::is_locked(self)
    }

    fn try_lock(&mut self) -> (g: Option<LocalMutexGuard>)
        ensures
            local_try_lock_post(*old(self), *final(self), g is Some),
    {
        LocalMutex::try_lock(self)
    }

    fn get_mut(&mut self) -> (r: &mut T)
        ensures
            final(self).waiters() == old(self).waiters(),
            final(self).id() == old(self).id(),
    {
        LocalMutex::get_mut(self)
    }

    fn unlock(&mut self, sched: &mut Scheduler)
        ensures
            local_unlock_post(*old(self), *final(self), *old(sched), *final(sched)),
    {
        LocalMutex::unlock(self, sched)
    }

    fn get_locked(&self) -> (g: LocalMutexGuard) {
        LocalMutex::get_locked(self)
    }
}

impl<T> AsyncSubscribableMutex<T> for LocalMutex<T> {
    open spec fn subscribers(&self) -> Seq<Task> {
        self.waiters()
    }

    fn low_level_subscribe(&mut self, task: Task)
        ensures
            final(self).id() == old(self).id(),
    {
        LocalMutex::low_level_subscribe(self, task)
    }
}

} // verus!
