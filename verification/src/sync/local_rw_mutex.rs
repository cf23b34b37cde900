//! A read-write mutex for the tasks of one thread whose lock operations return their futures
//! at once: [`LocalRWMutex`], its tokens [`LocalReadMutexGuard`] and
//! [`LocalWriteMutexGuard`], and the futures [`ReadMutexWait`] and [`WriteMutexWait`].
use crate::sync::channel_results::Poll;
use crate::sync::rw_lock_state::{try_read_post, try_write_post, RwLockState};
use crate::task::{Scheduler, Task};
use crate::sync::rw_lock_state::LockStatus;
use crate::sync::rw_lock_traits::AsyncRWLock;
use vstd::prelude::*;

verus! {

/// The token of a read lock of a [`LocalRWMutex`].
pub struct LocalReadMutexGuard {
    lock_id: Ghost<int>,
}

/// The token of the write lock of a [`LocalRWMutex`].
pub struct LocalWriteMutexGuard {
    lock_id: Ghost<int>,
}

/// The future of a read lock of a [`LocalRWMutex`]: ready at once if the lock was taken when
/// it was created, else it parks its task on its first poll.
pub struct ReadMutexWait {
    need_wait: bool,
    lock_id: Ghost<int>,
}

/// The future of the write lock of a [`LocalRWMutex`]: ready at once if the lock was taken
/// when it was created, else it parks its task on its first poll.
pub struct WriteMutexWait {
    need_wait: bool,
    lock_id: Ghost<int>,
}

/// A read-write mutex for the tasks of one thread.
pub struct LocalRWMutex<T> {
    inner: RwLockState,
    value: T,
}

impl<T> LocalRWMutex<T> {
    /// The state of the lock.
    pub closed spec fn state(&self) -> RwLockState {
        self.inner
    }

    /// The protected value.
    pub closed spec fn value_view(&self) -> T {
        self.value
    }

    /// The invariant of the lock.
    pub open spec fn wf(&self) -> bool {
        self.state().wf()
    }

    /// Creates a free mutex that protects `value`.
    pub fn new(value: T) -> (m: Self)
        ensures
            m.wf(),
            m.state().readers() == 0,
            m.state().read_waiters() == Seq::<Task>::empty(),
            m.state().write_waiters() == Seq::<Task>::empty(),
            m.value_view() == value,
    {
        LocalRWMutex { inner: RwLockState::new(), value }
    }

    /// `-1` while a writer holds the mutex, `0` while it is free, else the number of readers.
    pub fn number_of_readers(&self) -> (n: isize)
        ensures
            n == self.state().readers(),
    {
        self.inner.number_of_readers()
    }

    /// Starts a write: takes the write lock if the mutex is free; else the future waits.
    pub fn write(&mut self) -> (f: WriteMutexWait)
        requires
            old(self).wf(),
        ensures
            f.lock_id_view() == final(self).state().id(),
            final(self).wf(),
            final(self).value_view() == old(self).value_view(),
            try_write_post(old(self).state(), final(self).state(), !f.need_wait_view()),
    {
        let acquired = self.inner.try_write();
        WriteMutexWait { need_wait: !acquired, lock_id: Ghost(self.inner.id()) }
    }

    /// Starts a read: takes a read lock if no writer holds the mutex; else the future waits.
    pub fn read(&mut self) -> (f: ReadMutexWait)
        requires
            old(self).wf(),
            old(self).state().readers() < isize::MAX,
        ensures
            f.lock_id_view() == final(self).state().id(),
            final(self).wf(),
            final(self).value_view() == old(self).value_view(),
            try_read_post(old(self).state(), final(self).state(), !f.need_wait_view()),
    {
        let acquired = self.inner.try_read();
        ReadMutexWait { need_wait: !acquired, lock_id: Ghost(self.inner.id()) }
    }

    /// Takes the write lock if the mutex is free.
    pub fn try_write(&mut self) -> (g: Option<LocalWriteMutexGuard>)
        requires
            old(self).wf(),
        ensures
            g matches Some(t) ==> t.lock_id_view() == final(self).state().id(),
            final(self).wf(),
            final(self).value_view() == old(self).value_view(),
            try_write_post(old(self).state(), final(self).state(), g is Some),
    {
        if self.inner.try_write() {
            Some(LocalWriteMutexGuard { lock_id: Ghost(self.inner.id()) })
        } else {
            None
        }
    }

    /// Takes a read lock if no writer holds the mutex.
    pub fn try_read(&mut self) -> (g: Option<LocalReadMutexGuard>)
        requires
            old(self).wf(),
            old(self).state().readers() < isize::MAX,
        ensures
            g matches Some(t) ==> t.lock_id_view() == final(self).state().id(),
            final(self).wf(),
            final(self).value_view() == old(self).value_view(),
            try_read_post(old(self).state(), final(self).state(), g is Some),
    {
        if self.inner.try_read() {
            Some(LocalReadMutexGuard { lock_id: Ghost(self.inner.id()) })
        } else {
            None
        }
    }

    /// The protected value, reached without locking through exclusive access to the mutex.
    pub fn get_mut(&mut self) -> (r: &mut T)
        ensures
            *r == old(self).value_view(),
            final(self).value_view() == *final(r),
            final(self).state() == old(self).state(),
    {
        &mut self.value
    }
}

impl LocalReadMutexGuard {
    /// The identity of the mutex that this token belongs to.
    pub closed spec fn lock_id_view(&self) -> int {
        self.lock_id@
    }

    /// The protected value, read under the read lock.
    pub fn deref<'a, T>(&self, mutex: &'a LocalRWMutex<T>) -> (r: &'a T)
        requires
            self.lock_id_view() == mutex.state().id(),
            mutex.state().readers() > 0,
        ensures
            *r == mutex.value_view(),
    {
        &mutex.value
    }

    /// Releases the read lock that this token stands for (see [`RwLockState::read_unlock`]).
    pub fn unlock<T>(self, mutex: &mut LocalRWMutex<T>, sched: &mut Scheduler)
        requires
            self.lock_id_view() == old(mutex).state().id(),
            old(mutex).wf(),
            old(mutex).state().readers() > 0,
        ensures
            final(mutex).state().id() == old(mutex).state().id(),
            final(mutex).wf(),
            final(mutex).value_view() == old(mutex).value_view(),
            final(mutex).state().read_waiters() == old(mutex).state().read_waiters(),
            old(mutex).state().readers() > 1 || old(mutex).state().write_waiters().len() == 0
                ==> final(mutex).state().readers() == old(mutex).state().readers() - 1
                && final(mutex).state().write_waiters() == old(mutex).state().write_waiters()
                && final(sched).same_as(old(sched)),
            old(mutex).state().readers() == 1 && old(mutex).state().write_waiters().len() > 0
                ==> final(mutex).state().readers() == -1 && final(mutex).state().write_waiters()
                == old(mutex).state().write_waiters().drop_last() && final(sched).executed_after(
                old(sched),
                seq![old(mutex).state().write_waiters().last()],
            ),
    {
        mutex.inner.read_unlock(sched)
    }
}

impl LocalWriteMutexGuard {
    /// The identity of the mutex that this token belongs to.
    pub closed spec fn lock_id_view(&self) -> int {
        self.lock_id@
    }

    /// The protected value, read under the write lock.
    pub fn deref<'a, T>(&self, mutex: &'a LocalRWMutex<T>) -> (r: &'a T)
        requires
            self.lock_id_view() == mutex.state().id(),
            mutex.state().readers() == -1,
        ensures
            *r == mutex.value_view(),
    {
        &mutex.value
    }

    /// The protected value, changed under the write lock.
    pub fn deref_mut<'a, T>(&self, mutex: &'a mut LocalRWMutex<T>) -> (r: &'a mut T)
        requires
            self.lock_id_view() == old(mutex).state().id(),
            old(mutex).state().readers() == -1,
        ensures
            *r == old(mutex).value_view(),
            final(mutex).value_view() == *final(r),
            final(mutex).state() == old(mutex).state(),
    {
        &mut mutex.value
    }

    /// Releases the write lock that this token stands for (see
    /// [`RwLockState::write_unlock`]).
    pub fn unlock<T>(self, mutex: &mut LocalRWMutex<T>, sched: &mut Scheduler)
        requires
            self.lock_id_view() == old(mutex).state().id(),
            old(mutex).wf(),
            old(mutex).state().readers() == -1,
        ensures
            final(mutex).state().id() == old(mutex).state().id(),
            final(mutex).wf(),
            final(mutex).value_view() == old(mutex).value_view(),
            old(mutex).state().write_waiters().len() > 0 ==> final(mutex).state().readers() == -1
                && final(mutex).state().write_waiters() == old(mutex).state().write_waiters().drop_last()
                && final(mutex).state().read_waiters() == old(mutex).state().read_waiters()
                && final(sched).executed_after(
                old(sched),
                seq![old(mutex).state().write_waiters().last()],
            ),
            old(mutex).state().write_waiters().len() == 0 ==> final(mutex).state().readers()
                == old(mutex).state().read_waiters().len() && final(mutex).state().read_waiters()
                == Seq::<Task>::empty() && final(mutex).state().write_waiters() == old(mutex).state().write_waiters() && final(sched).executed_after(
                old(sched),
                old(mutex).state().read_waiters().reverse(),
            ),
    {
        mutex.inner.write_unlock(sched)
    }
}

impl ReadMutexWait {
    /// The identity of the mutex that the future waits for.
    pub closed spec fn lock_id_view(&self) -> int {
        self.lock_id@
    }

    /// Whether the future still has to park its task.
    pub closed spec fn need_wait_view(&self) -> bool {
        self.need_wait
    }

    /// Polls the future on behalf of `task`: if it has to wait, the task is parked as a reader
    /// and the result is [`Poll::Pending`]; else it yields the token of the read lock that it
    /// holds.
    pub fn poll<T>(&mut self, mutex: &mut LocalRWMutex<T>, task: Task) -> (r: Poll<LocalReadMutexGuard>)
        requires
            old(self).lock_id_view() == old(mutex).state().id(),
            old(mutex).wf(),
            old(self).need_wait_view() ==> old(mutex).state().readers() == -1 && old(mutex).state().read_waiters().len() < isize::MAX,
            !old(self).need_wait_view() ==> old(mutex).state().readers() > 0,
        ensures
            final(mutex).state().id() == old(mutex).state().id(),
            final(self).lock_id_view() == old(self).lock_id_view(),
            r matches Poll::Ready(g) ==> g.lock_id_view() == final(mutex).state().id(),
            final(mutex).wf(),
            final(mutex).value_view() == old(mutex).value_view(),
            !final(self).need_wait_view(),
            old(self).need_wait_view() ==> r is Pending && final(mutex).state().readers() == old(mutex).state().readers() && final(mutex).state().read_waiters() == old(mutex).state().read_waiters().push(task) && final(mutex).state().write_waiters() == old(mutex).state().write_waiters(),
            !old(self).need_wait_view() ==> r is Ready && final(mutex).state() == old(mutex).state(),
    {
        if self.need_wait {
            mutex.inner.park_reader(task);
            self.need_wait = false;
            Poll::Pending
        } else {
            Poll::Ready(LocalReadMutexGuard { lock_id: Ghost(mutex.inner.id()) })
        }
    }
}

impl WriteMutexWait {
    /// The identity of the mutex that the future waits for.
    pub closed spec fn lock_id_view(&self) -> int {
        self.lock_id@
    }

    /// Whether the future still has to park its task.
    pub closed spec fn need_wait_view(&self) -> bool {
        self.need_wait
    }

    /// Polls the future on behalf of `task`: if it has to wait, the task is parked as a writer
    /// and the result is [`Poll::Pending`]; else it yields the token of the write lock that it
    /// holds.
    pub fn poll<T>(&mut self, mutex: &mut LocalRWMutex<T>, task: Task) -> (r: Poll<LocalWriteMutexGuard>)
        requires
            old(self).lock_id_view() == old(mutex).state().id(),
            old(mutex).wf(),
            old(self).need_wait_view() ==> old(mutex).state().readers() != 0,
            !old(self).need_wait_view() ==> old(mutex).state().readers() == -1,
        ensures
            final(mutex).state().id() == old(mutex).state().id(),
            final(self).lock_id_view() == old(self).lock_id_view(),
            r matches Poll::Ready(g) ==> g.lock_id_view() == final(mutex).state().id(),
            final(mutex).wf(),
            final(mutex).value_view() == old(mutex).value_view(),
            !final(self).need_wait_view(),
            old(self).need_wait_view() ==> r is Pending && final(mutex).state().readers() == old(mutex).state().readers() && final(mutex).state().write_waiters() == old(mutex).state().write_waiters().push(task) && final(mutex).state().read_waiters() == old(mutex).state().read_waiters(),
            !old(self).need_wait_view() ==> r is Ready && final(mutex).state() == old(mutex).state(),
    {
        if self.need_wait {
            mutex.inner.park_writer(task);
            self.need_wait = false;
            Poll::Pending
        } else {
            Poll::Ready(LocalWriteMutexGuard { lock_id: Ghost(mutex.inner.id()) })
        }
    }
}

impl<T> AsyncRWLock<T> for LocalRWMutex<T> {
    type ReadLockGuard = LocalReadMutexGuard;

    type WriteLockGuard = LocalWriteMutexGuard;

    open spec fn rw_readers(&self) -> int {
        self.state().readers()
    }

    open spec fn rw_value(&self) -> T {
        self.value_view()
    }

    open spec fn rw_wf(&self) -> bool {
        self.wf()
    }

    open spec fn read_guard_fits(&self, g: LocalReadMutexGuard) -> bool {
        g.lock_id_view() == self.state().id()
    }

    open spec fn write_guard_fits(&self, g: LocalWriteMutexGuard) -> bool {
        g.lock_id_view() == self.state().id()
    }

    fn get_lock_status(&self) -> (s: LockStatus) {
        self.inner.get_lock_status()
    }

    fn try_write(&mut self) -> (g: Option<LocalWriteMutexGuard>)
        ensures
            try_write_post(old(self).state(), final(self).state(), g is Some),
    {
        LocalRWMutex::try_write(self)
    }

    fn try_read(&mut self) -> (g: Option<LocalReadMutexGuard>)
        ensures
            try_read_post(old(self).state(), final(self).state(), g is Some),
    {
        LocalRWMutex::try_read(self)
    }

    fn get_mut(&mut self) -> (r: &mut T)
        ensures
            final(self).state() == old(self).state(),
    {
        LocalRWMutex::get_mut(self)
    }

    fn get_read_locked(&self) -> (g: LocalReadMutexGuard) {
        LocalReadMutexGuard { lock_id: Ghost(self.inner.id()) }
    }

    fn get_write_locked(&self) -> (g: LocalWriteMutexGuard) {
        LocalWriteMutexGuard { lock_id: Ghost(self.inner.id()) }
    }
}

} // verus!
