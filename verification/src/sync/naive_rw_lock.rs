//! A read-write lock for tasks of any thread without queues of waiters: [`RWLock`], with the
//! tokens [`ReadLockGuard`] and [`WriteLockGuard`]. A task that finds the lock taken yields and
//! tries again later.
use crate::sync::channel_results::Poll;
use crate::sync::rw_lock_state::{status_of, LockStatus};
use crate::sync::rw_lock_traits::AsyncRWLock;
use crate::task::fresh_id;
use vstd::prelude::*;

verus! {

/// The token of a read lock of an [`RWLock`].
pub struct ReadLockGuard {
    lock_id: Ghost<int>,
}

/// The token of the write lock of an [`RWLock`].
pub struct WriteLockGuard {
    lock_id: Ghost<int>,
}

/// A read-write lock that spins and yields while it is taken.
pub struct RWLock<T> {
    number_of_readers: isize,
    value: T,
    id: Ghost<int>,
}

impl<T> RWLock<T> {
    /// `-1` while written, `0` while free, else the number of readers.
    pub closed spec fn readers(&self) -> int {
        self.number_of_readers as int
    }

    /// The protected value.
    pub closed spec fn value_view(&self) -> T {
        self.value
    }

    /// The identity of the lock, which its tokens record.
    pub closed spec fn id(&self) -> int {
        self.id@
    }

    /// The invariant of the lock.
    pub open spec fn wf(&self) -> bool {
        self.readers() >= -1
    }

    /// Creates a free lock that protects `value`.
    pub fn new(value: T) -> (l: Self)
        ensures
            l.wf(),
            l.readers() == 0,
            l.value_view() == value,
    {
        RWLock { number_of_readers: 0, value, id: fresh_id() }
    }

    /// The status of the lock.
    pub fn get_lock_status(&self) -> (s: LockStatus)
        ensures
            s == status_of(self.readers()),
            self.readers() > 0 ==> (s matches LockStatus::ReadLocked(k) && k == self.readers()),
            self.readers() == 0 ==> s == LockStatus::Unlocked,
            self.readers() < 0 ==> s == LockStatus::WriteLocked,
    {
        if self.number_of_readers == 0 {
            LockStatus::Unlocked
        } else if self.number_of_readers > 0 {
            LockStatus::ReadLocked(self.number_of_readers as usize)
        } else {
            LockStatus::WriteLocked
        }
    }

    /// Takes the write lock if the lock is free.
    pub fn try_write(&mut self) -> (g: Option<WriteLockGuard>)
        requires
            old(self).wf(),
        ensures
            final(self).id() == old(self).id(),
            g matches Some(x) ==> x.lock_id_view() == final(self).id(),
            final(self).wf(),
            final(self).value_view() == old(self).value_view(),
            g is Some <==> old(self).readers() == 0,
            final(self).readers() == if g is Some {
                -1
            } else {
                old(self).readers()
            },
    {
        if self.number_of_readers == 0 {
            self.number_of_readers = -1;
            Some(WriteLockGuard { lock_id: Ghost(self.id@) })
        } else {
            None
        }
    }

    /// Takes a read lock if no writer holds the lock.
    pub fn try_read(&mut self) -> (g: Option<ReadLockGuard>)
        requires
            old(self).wf(),
            old(self).readers() < isize::MAX,
        ensures
            final(self).id() == old(self).id(),
            g matches Some(x) ==> x.lock_id_view() == final(self).id(),
            final(self).wf(),
            final(self).value_view() == old(self).value_view(),
            g is Some <==> old(self).readers() >= 0,
            final(self).readers() == if g is Some {
                old(self).readers() + 1
            } else {
                old(self).readers()
            },
    {
        let number_of_readers = self.number_of_readers;
        if number_of_readers >= 0 {
            self.number_of_readers = number_of_readers + 1;
            Some(ReadLockGuard { lock_id: Ghost(self.id@) })
        } else {
            None
        }
    }

    /// One poll of a write: the write lock if the lock is free, else [`Poll::Pending`] and the
    /// task yields before it polls again.
    pub fn write(&mut self) -> (p: Poll<WriteLockGuard>)
        requires
            old(self).wf(),
        ensures
            final(self).id() == old(self).id(),
            p matches Poll::Ready(x) ==> x.lock_id_view() == final(self).id(),
            final(self).wf(),
            final(self).value_view() == old(self).value_view(),
            p is Ready <==> old(self).readers() == 0,
            final(self).readers() == if p is Ready {
                -1
            } else {
                old(self).readers()
            },
    {
        match self.try_write() {
            Some(g) => Poll::Ready(g),
            None => Poll::Pending,
        }
    }

    /// One poll of a read: a read lock if no writer holds the lock, else [`Poll::Pending`] and
    /// the task yields before it polls again.
    pub fn read(&mut self) -> (p: Poll<ReadLockGuard>)
        requires
            old(self).wf(),
            old(self).readers() < isize::MAX,
        ensures
            final(self).id() == old(self).id(),
            p matches Poll::Ready(x) ==> x.lock_id_view() == final(self).id(),
            final(self).wf(),
            final(self).value_view() == old(self).value_view(),
            p is Ready <==> old(self).readers() >= 0,
            final(self).readers() == if p is Ready {
                old(self).readers() + 1
            } else {
                old(self).readers()
            },
    {
        match self.try_read() {
            Some(g) => Poll::Ready(g),
            None => Poll::Pending,
        }
    }

    /// The protected value, reached without locking through exclusive access to the lock.
    pub fn get_mut(&mut self) -> (r: &mut T)
        ensures
            final(self).id() == old(self).id(),
            *r == old(self).value_view(),
            final(self).value_view() == *final(r),
            final(self).readers() == old(self).readers(),
    {
        &mut self.value
    }

    /// Releases a read lock.
    pub fn read_unlock(&mut self)
        requires
            old(self).readers() > 0,
        ensures
            final(self).id() == old(self).id(),
            final(self).wf(),
            final(self).readers() == old(self).readers() - 1,
            final(self).value_view() == old(self).value_view(),
    {
        self.number_of_readers = self.number_of_readers - 1;
    }

    /// Releases the write lock.
    pub fn write_unlock(&mut self)
        requires
            old(self).readers() == -1,
        ensures
            final(self).id() == old(self).id(),
            final(self).wf(),
            final(self).readers() == 0,
            final(self).value_view() == old(self).value_view(),
    {
        self.number_of_readers = 0;
    }

    /// A token of a read lock that is held already.
    pub fn get_read_locked(&self) -> (g: ReadLockGuard)
        requires
            self.readers() > 0,
        ensures
            g.lock_id_view() == self.id(),
    {
        ReadLockGuard { lock_id: Ghost(self.id@) }
    }

    /// A token of the write lock, which is held already.
    pub fn get_write_locked(&self) -> (g: WriteLockGuard)
        requires
            self.readers() == -1,
        ensures
            g.lock_id_view() == self.id(),
    {
        WriteLockGuard { lock_id: Ghost(self.id@) }
    }
}

impl ReadLockGuard {
    /// The identity of the lock that this token belongs to.
    pub closed spec fn lock_id_view(&self) -> int {
        self.lock_id@
    }

    /// The protected value, read under the read lock.
    pub fn deref<'a, T>(&self, lock: &'a RWLock<T>) -> (r: &'a T)
        requires
            self.lock_id_view() == lock.id(),
            lock.readers() > 0,
        ensures
            *r == lock.value_view(),
    {
        &lock.value
    }

    /// Releases the read lock that this token stands for.
    pub fn unlock<T>(self, lock: &mut RWLock<T>)
        requires
            self.lock_id_view() == old(lock).id(),
            old(lock).readers() > 0,
        ensures
            final(lock).id() == old(lock).id(),
            final(lock).wf(),
            final(lock).readers() == old(lock).readers() - 1,
            final(lock).value_view() == old(lock).value_view(),
    {
        lock.read_unlock()
    }

    /// Gives up the token without unlocking.
    pub fn leak(self) {
    }
}

impl WriteLockGuard {
    /// The identity of the lock that this token belongs to.
    pub closed spec fn lock_id_view(&self) -> int {
        self.lock_id@
    }

    /// The protected value, read under the write lock.
    pub fn deref<'a, T>(&self, lock: &'a RWLock<T>) -> (r: &'a T)
        requires
            self.lock_id_view() == lock.id(),
            lock.readers() == -1,
        ensures
            *r == lock.value_view(),
    {
        &lock.value
    }

    /// The protected value, changed under the write lock.
    pub fn deref_mut<'a, T>(&self, lock: &'a mut RWLock<T>) -> (r: &'a mut T)
        requires
            self.lock_id_view() == old(lock).id(),
            old(lock).readers() == -1,
        ensures
            final(lock).id() == old(lock).id(),
            *r == old(lock).value_view(),
            final(lock).value_view() == *final(r),
            final(lock).readers() == old(lock).readers(),
    {
        &mut lock.value
    }

    /// Releases the write lock that this token stands for.
    pub fn unlock<T>(self, lock: &mut RWLock<T>)
        requires
            self.lock_id_view() == old(lock).id(),
            old(lock).readers() == -1,
        ensures
            final(lock).id() == old(lock).id(),
            final(lock).wf(),
            final(lock).readers() == 0,
            final(lock).value_view() == old(lock).value_view(),
    {
        lock.write_unlock()
    }

    /// Gives up the token without unlocking.
    pub fn leak(self) {
    }
}

impl<T> AsyncRWLock<T> for RWLock<T> {
    type ReadLockGuard = ReadLockGuard;

    type WriteLockGuard = WriteLockGuard;

    open spec fn rw_readers(&self) -> int {
        self.readers()
    }

    open spec fn rw_value(&self) -> T {
        self.value_view()
    }

    open spec fn rw_wf(&self) -> bool {
        self.wf()
    }

    open spec fn read_guard_fits(&self, g: ReadLockGuard) -> bool {
        g.lock_id_view() == self.id()
    }

    open spec fn write_guard_fits(&self, g: WriteLockGuard) -> bool {
        g.lock_id_view() == self.id()
    }

    fn get_lock_status(&self) -> (s: LockStatus) {
        RWLock::get_lock_status(self)
    }

    fn try_write(&mut self) -> (g: Option<WriteLockGuard>) {
        RWLock::try_write(self)
    }

    fn try_read(&mut self) -> (g: Option<ReadLockGuard>) {
        RWLock::try_read(self)
    }

    fn get_mut(&mut self) -> (r: &mut T) {
        RWLock::get_mut(self)
    }

    fn get_read_locked(&self) -> (g: ReadLockGuard) {
        RWLock::get_read_locked(self)
    }

    fn get_write_locked(&self) -> (g: WriteLockGuard) {
        RWLock::get_write_locked(self)
    }
}

} // verus!
