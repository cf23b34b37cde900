//! A read-write lock for the tasks of one thread: [`LocalRWLock`], its tokens
//! [`LocalReadLockGuard`] and [`LocalWriteLockGuard`], and the futures [`ReadLockWait`] and
//! [`WriteLockWait`].
use crate::sync::channel_results::Poll;
use crate::sync::rw_lock_state::{status_of, try_read_post, try_write_post, LockStatus, RwLockState};
use crate::task::{Scheduler, Task};
use crate::sync::rw_lock_traits::AsyncRWLock;
use vstd::prelude::*;

verus! {

/// How a lock operation starts: with the lock taken at once, or with a future to await.
pub enum LockStart<G, W> {
    /// The lock was taken; here is its token.
    Locked(G),
    /// The lock is held; the future parks the task and yields the token once the lock is
    /// handed to it.
    Wait(W),
}

/// The token of a read lock of a [`LocalRWLock`].
pub struct LocalReadLockGuard {
    lock_id: Ghost<int>,
}

/// The token of the write lock of a [`LocalRWLock`].
pub struct LocalWriteLockGuard {
    lock_id: Ghost<int>,
}

/// A future that waits for a read lock of a [`LocalRWLock`].
pub struct ReadLockWait {
    was_called: bool,
    lock_id: Ghost<int>,
}

/// A future that waits for the write lock of a [`LocalRWLock`].
pub struct WriteLockWait {
    was_called: bool,
    lock_id: Ghost<int>,
}

/// A read-write lock for the tasks of one thread.
pub struct LocalRWLock<T> {
    inner: RwLockState,
    value: T,
}

impl<T> LocalRWLock<T> {
    /// The state of the lock.
    pub closed spec fn state(&self) -> RwLockState {
        self.inner
    }

    /// The protected value.
    pub closed spec fn value_view(&self) -> T {
        self.value
    }

    /// The invariant of the lock.
    pub open spec fn wf(&self) -> bool {
        self.state().wf()
    }

    /// Creates a free lock that protects `value`.
    pub fn new(value: T) -> (l: Self)
        ensures
            l.wf(),
            l.state().readers() == 0,
            l.state().read_waiters() == Seq::<Task>::empty(),
            l.state().write_waiters() == Seq::<Task>::empty(),
            l.value_view() == value,
    {
        LocalRWLock { inner: RwLockState::new(), value }
    }

    /// The status of the lock.
    pub fn get_lock_status(&self) -> (s: LockStatus)
        ensures
            s == status_of(self.state().readers()),
            self.state().readers() > 0 ==> (s matches LockStatus::ReadLocked(k) && k == self.state().readers()),
            self.state().readers() == 0 ==> s == LockStatus::Unlocked,
            self.state().readers() < 0 ==> s == LockStatus::WriteLocked,
    {
        self.inner.get_lock_status()
    }

    /// Starts a write: the write lock at once if the lock is free, else a future to await.
    pub fn write(&mut self) -> (r: LockStart<LocalWriteLockGuard, WriteLockWait>)
        requires
            old(self).wf(),
        ensures
            r matches LockStart::Locked(g) ==> g.lock_id_view() == final(self).state().id(),
            r matches LockStart::Wait(w) ==> w.lock_id_view() == final(self).state().id(),
            final(self).wf(),
            final(self).value_view() == old(self).value_view(),
            try_write_post(old(self).state(), final(self).state(), r is Locked),
            r matches LockStart::Wait(w) ==> !w.was_called_view(),
    {
        if self.inner.try_write() {
            LockStart::Locked(LocalWriteLockGuard { lock_id: Ghost(self.inner.id()) })
        } else {
            LockStart::Wait(WriteLockWait { was_called: false, lock_id: Ghost(self.inner.id()) })
        }
    }

    /// Starts a read: a read lock at once if no writer holds the lock, else a future to await.
    pub fn read(&mut self) -> (r: LockStart<LocalReadLockGuard, ReadLockWait>)
        requires
            old(self).wf(),
            old(self).state().readers() < isize::MAX,
        ensures
            r matches LockStart::Locked(g) ==> g.lock_id_view() == final(self).state().id(),
            r matches LockStart::Wait(w) ==> w.lock_id_view() == final(self).state().id(),
            final(self).wf(),
            final(self).value_view() == old(self).value_view(),
            try_read_post(old(self).state(), final(self).state(), r is Locked),
            r matches LockStart::Wait(w) ==> !w.was_called_view(),
    {
        if self.inner.try_read() {
            LockStart::Locked(LocalReadLockGuard { lock_id: Ghost(self.inner.id()) })
        } else {
            LockStart::Wait(ReadLockWait { was_called: false, lock_id: Ghost(self.inner.id()) })
        }
    }

    /// Takes the write lock if the lock is free.
    pub fn try_write(&mut self) -> (g: Option<LocalWriteLockGuard>)
        requires
            old(self).wf(),
        ensures
            g matches Some(t) ==> t.lock_id_view() == final(self).state().id(),
            final(self).wf(),
            final(self).value_view() == old(self).value_view(),
            try_write_post(old(self).state(), final(self).state(), g is Some),
    {
        if self.inner.try_write() {
            Some(LocalWriteLockGuard { lock_id: Ghost(self.inner.id()) })
        } else {
            None
        }
    }

    /// Takes a read lock if no writer holds the lock.
    pub fn try_read(&mut self) -> (g: Option<LocalReadLockGuard>)
        requires
            old(self).wf(),
            old(self).state().readers() < isize::MAX,
        ensures
            g matches Some(t) ==> t.lock_id_view() == final(self).state().id(),
            final(self).wf(),
            final(self).value_view() == old(self).value_view(),
            try_read_post(old(self).state(), final(self).state(), g is Some),
    {
        if self.inner.try_read() {
            Some(LocalReadLockGuard { lock_id: Ghost(self.inner.id()) })
        } else {
            None
        }
    }

    /// The protected value, reached without locking through exclusive access to the lock.
    pub fn get_mut(&mut self) -> (r: &mut T)
        ensures
            *r == old(self).value_view(),
            final(self).value_view() == *final(r),
            final(self).state() == old(self).state(),
    {
        &mut self.value
    }

    /// Releases a read lock (see [`RwLockState::read_unlock`]).
    pub fn read_unlock(&mut self, sched: &mut Scheduler)
        requires
            old(self).wf(),
            old(self).state().readers() > 0,
        ensures
            final(self).state().id() == old(self).state().id(),
            final(self).wf(),
            final(self).value_view() == old(self).value_view(),
            final(self).state().read_waiters() == old(self).state().read_waiters(),
            old(self).state().readers() > 1 || old(self).state().write_waiters().len() == 0 ==> {
                &&& final(self).state().readers() == old(self).state().readers() - 1
                &&& final(self).state().write_waiters() == old(self).state().write_waiters()
                &&& final(sched).same_as(old(sched))
            },
            old(self).state().readers() == 1 && old(self).state().write_waiters().len() > 0 ==> {
                &&& final(self).state().readers() == -1
                &&& final(self).state().write_waiters() == old(self).state().write_waiters().drop_last()
                &&& final(sched).executed_after(
                    old(sched),
                    seq![old(self).state().write_waiters().last()],
                )
            },
    {
        self.inner.read_unlock(sched)
    }

    /// Releases the write lock (see [`RwLockState::write_unlock`]).
    pub fn write_unlock(&mut self, sched: &mut Scheduler)
        requires
            old(self).wf(),
            old(self).state().readers() == -1,
        ensures
            final(self).state().id() == old(self).state().id(),
            final(self).wf(),
            final(self).value_view() == old(self).value_view(),
            old(self).state().write_waiters().len() > 0 ==> {
                &&& final(self).state().readers() == -1
                &&& final(self).state().write_waiters() == old(self).state().write_waiters().drop_last()
                &&& final(self).state().read_waiters() == old(self).state().read_waiters()
                &&& final(sched).executed_after(
                    old(sched),
                    seq![old(self).state().write_waiters().last()],
                )
            },
            old(self).state().write_waiters().len() == 0 ==> {
                &&& final(self).state().readers() == old(self).state().read_waiters().len()
                &&& final(self).state().read_waiters() == Seq::<Task>::empty()
                &&& final(self).state().write_waiters() == old(self).state().write_waiters()
                &&& final(sched).executed_after(
                    old(sched),
                    old(self).state().read_waiters().reverse(),
                )
            },
    {
        self.inner.write_unlock(sched)
    }

    /// A token of a read lock that is held already.
    pub fn get_read_locked(&self) -> (g: LocalReadLockGuard)
        requires
            self.state().readers() > 0,
        ensures
            g.lock_id_view() == self.state().id(),
    {
        LocalReadLockGuard { lock_id: Ghost(self.inner.id()) }
    }

    /// A token of the write lock, which is held already.
    pub fn get_write_locked(&self) -> (g: LocalWriteLockGuard)
        requires
            self.state().readers() == -1,
        ensures
            g.lock_id_view() == self.state().id(),
    {
        LocalWriteLockGuard { lock_id: Ghost(self.inner.id()) }
    }
}

impl LocalReadLockGuard {
    /// The identity of the lock that this token belongs to.
    pub closed spec fn lock_id_view(&self) -> int {
        self.lock_id@
    }

    /// The protected value, read under the read lock.
    pub fn deref<'a, T>(&self, lock: &'a LocalRWLock<T>) -> (r: &'a T)
        requires
            self.lock_id_view() == lock.state().id(),
            lock.state().readers() > 0,
        ensures
            *r == lock.value_view(),
    {
        &lock.value
    }

    /// Releases the read lock that this token stands for.
    pub fn unlock<T>(self, lock: &mut LocalRWLock<T>, sched: &mut Scheduler)
        requires
            self.lock_id_view() == old(lock).state().id(),
            old(lock).wf(),
            old(lock).state().readers() > 0,
        ensures
            final(lock).state().id() == old(lock).state().id(),
            final(lock).wf(),
            final(lock).value_view() == old(lock).value_view(),
            final(lock).state().read_waiters() == old(lock).state().read_waiters(),
            old(lock).state().readers() > 1 || old(lock).state().write_waiters().len() == 0
                ==> final(lock).state().readers() == old(lock).state().readers() - 1
                && final(lock).state().write_waiters() == old(lock).state().write_waiters()
                && final(sched).same_as(old(sched)),
            old(lock).state().readers() == 1 && old(lock).state().write_waiters().len() > 0
                ==> final(lock).state().readers() == -1 && final(lock).state().write_waiters()
                == old(lock).state().write_waiters().drop_last() && final(sched).executed_after(
                old(sched),
                seq![old(lock).state().write_waiters().last()],
            ),
    {
        lock.read_unlock(sched)
    }

    /// Gives up the token without unlocking.
    pub fn leak(self) {
    }
}

impl LocalWriteLockGuard {
    /// The identity of the lock that this token belongs to.
    pub closed spec fn lock_id_view(&self) -> int {
        self.lock_id@
    }

    /// The protected value, read under the write lock.
    pub fn deref<'a, T>(&self, lock: &'a LocalRWLock<T>) -> (r: &'a T)
        requires
            self.lock_id_view() == lock.state().id(),
            lock.state().readers() == -1,
        ensures
            *r == lock.value_view(),
    {
        &lock.value
    }

    /// The protected value, changed under the write lock.
    pub fn deref_mut<'a, T>(&self, lock: &'a mut LocalRWLock<T>) -> (r: &'a mut T)
        requires
            self.lock_id_view() == old(lock).state().id(),
            old(lock).state().readers() == -1,
        ensures
            *r == old(lock).value_view(),
            final(lock).value_view() == *final(r),
            final(lock).state() == old(lock).state(),
    {
        &mut lock.value
    }

    /// Releases the write lock that this token stands for.
    pub fn unlock<T>(self, lock: &mut LocalRWLock<T>, sched: &mut Scheduler)
        requires
            self.lock_id_view() == old(lock).state().id(),
            old(lock).wf(),
            old(lock).state().readers() == -1,
        ensures
            final(lock).state().id() == old(lock).state().id(),
            final(lock).wf(),
            final(lock).value_view() == old(lock).value_view(),
            old(lock).state().write_waiters().len() > 0 ==> final(lock).state().readers() == -1
                && final(lock).state().write_waiters() == old(lock).state().write_waiters().drop_last()
                && final(lock).state().read_waiters() == old(lock).state().read_waiters()
                && final(sched).executed_after(
                old(sched),
                seq![old(lock).state().write_waiters().last()],
            ),
            old(lock).state().write_waiters().len() == 0 ==> final(lock).state().readers() == old(lock).state().read_waiters().len() && final(lock).state().read_waiters() == Seq::<
                Task,
            >::empty() && final(lock).state().write_waiters() == old(lock).state().write_waiters()
                && final(sched).executed_after(
                old(sched),
                old(lock).state().read_waiters().reverse(),
            ),
    {
        lock.write_unlock(sched)
    }

    /// Gives up the token without unlocking.
    pub fn leak(self) {
    }
}

impl ReadLockWait {
    /// The identity of the lock that the future waits for.
    pub closed spec fn lock_id_view(&self) -> int {
        self.lock_id@
    }

    /// Whether the future has parked its task.
    pub closed spec fn was_called_view(&self) -> bool {
        self.was_called
    }

    /// Polls the future on behalf of `task`: the first poll parks the task as a reader; the
    /// poll after the task was woken yields the token of the read lock that was handed to it.
    pub fn poll<T>(&mut self, lock: &mut LocalRWLock<T>, task: Task) -> (r: Poll<LocalReadLockGuard>)
        requires
            old(self).lock_id_view() == old(lock).state().id(),
            old(lock).wf(),
            !old(self).was_called_view() ==> old(lock).state().readers() == -1 && old(lock).state().read_waiters().len() < isize::MAX,
            old(self).was_called_view() ==> old(lock).state().readers() > 0,
        ensures
            final(lock).state().id() == old(lock).state().id(),
            final(self).lock_id_view() == old(self).lock_id_view(),
            r matches Poll::Ready(g) ==> g.lock_id_view() == final(lock).state().id(),
            final(lock).wf(),
            final(lock).value_view() == old(lock).value_view(),
            final(self).was_called_view(),
            !old(self).was_called_view() ==> r is Pending && final(lock).state().readers() == old(lock).state().readers() && final(lock).state().read_waiters() == old(lock).state().read_waiters().push(task) && final(lock).state().write_waiters() == old(lock).state().write_waiters(),
            old(self).was_called_view() ==> r is Ready && final(lock).state() == old(lock).state(),
    {
        if !self.was_called {
            lock.inner.park_reader(task);
            self.was_called = true;
            Poll::Pending
        } else {
            Poll::Ready(LocalReadLockGuard { lock_id: Ghost(lock.inner.id()) })
        }
    }
}

impl WriteLockWait {
    /// The identity of the lock that the future waits for.
    pub closed spec fn lock_id_view(&self) -> int {
        self.lock_id@
    }

    /// Whether the future has parked its task.
    pub closed spec fn was_called_view(&self) -> bool {
        self.was_called
    }

    /// Polls the future on behalf of `task`: the first poll parks the task as a writer; the
    /// poll after the task was woken yields the token of the write lock that was handed to it.
    pub fn poll<T>(&mut self, lock: &mut LocalRWLock<T>, task: Task) -> (r: Poll<LocalWriteLockGuard>)
        requires
            old(self).lock_id_view() == old(lock).state().id(),
            old(lock).wf(),
            !old(self).was_called_view() ==> old(lock).state().readers() != 0,
            old(self).was_called_view() ==> old(lock).state().readers() == -1,
        ensures
            final(lock).state().id() == old(lock).state().id(),
            final(self).lock_id_view() == old(self).lock_id_view(),
            r matches Poll::Ready(g) ==> g.lock_id_view() == final(lock).state().id(),
            final(lock).wf(),
            final(lock).value_view() == old(lock).value_view(),
            final(self).was_called_view(),
            !old(self).was_called_view() ==> r is Pending && final(lock).state().readers() == old(lock).state().readers() && final(lock).state().write_waiters() == old(lock).state().write_waiters().push(task) && final(lock).state().read_waiters() == old(lock).state().read_waiters(),
            old(self).was_called_view() ==> r is Ready && final(lock).state() == old(lock).state(),
    {
        if !self.was_called {
            lock.inner.park_writer(task);
            self.was_called = true;
            Poll::Pending
        } else {
            Poll::Ready(LocalWriteLockGuard { lock_id: Ghost(lock.inner.id()) })
        }
    }
}

impl<T> AsyncRWLock<T> for LocalRWLock<T> {
    type ReadLockGuard = LocalReadLockGuard;

    type WriteLockGuard = LocalWriteLockGuard;

    open spec fn rw_readers(&self) -> int {
        self.state().readers()
    }

    open spec fn rw_value(&self) -> T {
        self.value_view()
    }

    open spec fn rw_wf(&self) -> bool {
        self.wf()
    }

    open spec fn read_guard_fits(&self, g: LocalReadLockGuard) -> bool {
        g.lock_id_view() == self.state().id()
    }

    open spec fn write_guard_fits(&self, g: LocalWriteLockGuard) -> bool {
        g.lock_id_view() == self.state().id()
    }

    fn get_lock_status(&self) -> (s: LockStatus) {
        LocalRWLock::get_lock_status(self)
    }

    fn try_write(&mut self) -> (g: Option<LocalWriteLockGuard>)
        ensures
            try_write_post(old(self).state(), final(self).state(), g is Some),
    {
        LocalRWLock::try_write(self)
    }

    fn try_read(&mut self) -> (g: Option<LocalReadLockGuard>)
        ensures
            try_read_post(old(self).state(), final(self).state(), g is Some),
    {
        LocalRWLock::try_read(self)
    }

    fn get_mut(&mut self) -> (r: &mut T)
        ensures
            final(self).state() == old(self).state(),
    {
        LocalRWLock::get_mut(self)
    }

    fn get_read_locked(&self) -> (g: LocalReadLockGuard) {
        LocalRWLock::get_read_locked(self)
    }

    fn get_write_locked(&self) -> (g: LocalWriteLockGuard) {
        LocalRWLock::get_write_locked(self)
    }
}

} // verus!
