//! The interface that every read-write lock offers: [`AsyncRWLock`].
use crate::sync::rw_lock_state::{status_of, LockStatus};
use vstd::prelude::*;

verus! {

/// A lock that admits any number of readers or one writer, and protects a value of type `T`.
pub trait AsyncRWLock<T> {
    /// The token of a held read lock.
    type ReadLockGuard;

    /// The token of the held write lock.
    type WriteLockGuard;

    /// `-1` while a writer holds the lock, `0` while it is free, else the number of readers.
    spec fn rw_readers(&self) -> int;

    /// The protected value.
    spec fn rw_value(&self) -> T;

    /// The invariant of the lock.
    spec fn rw_wf(&self) -> bool;

    /// Whether `g` is a token of a read lock of this lock.
    spec fn read_guard_fits(&self, g: Self::ReadLockGuard) -> bool;

    /// Whether `g` is a token of the write lock of this lock.
    spec fn write_guard_fits(&self, g: Self::WriteLockGuard) -> bool;

    /// The status of the lock.
    fn get_lock_status(&self) -> (s: LockStatus)
        ensures
            s == status_of(self.rw_readers()),
            self.rw_readers() > 0 ==> (s matches LockStatus::ReadLocked(k) && k == self.rw_readers()),
            self.rw_readers() == 0 ==> s == LockStatus::Unlocked,
            self.rw_readers() < 0 ==> s == LockStatus::WriteLocked,
    ;

    /// Takes the write lock if nobody holds the lock.
    fn try_write(&mut self) -> (g: Option<Self::WriteLockGuard>)
        requires
            old(self).rw_wf(),
        ensures
            final(self).rw_wf(),
            final(self).rw_value() == old(self).rw_value(),
            g is Some <==> old(self).rw_readers() == 0,
            g matches Some(t) ==> final(self).write_guard_fits(t),
            final(self).rw_readers() == if g is Some {
                -1
            } else {
                old(self).rw_readers()
            },
    ;

    /// Takes a read lock if no writer holds the lock.
    fn try_read(&mut self) -> (g: Option<Self::ReadLockGuard>)
        requires
            old(self).rw_wf(),
            old(self).rw_readers() < isize::MAX,
        ensures
            final(self).rw_wf(),
            final(self).rw_value() == old(self).rw_value(),
            g is Some <==> old(self).rw_readers() > -1,
            g matches Some(t) ==> final(self).read_guard_fits(t),
            final(self).rw_readers() == if g is Some {
                old(self).rw_readers() + 1
            } else {
                old(self).rw_readers()
            },
    ;

    /// The protected value, reached without locking through exclusive access to the lock.
    fn get_mut(&mut self) -> (r: &mut T)
        ensures
            *r == old(self).rw_value(),
            final(self).rw_value() == *final(r),
            final(self).rw_readers() == old(self).rw_readers(),
    ;

    /// The token of a read lock that the caller holds.
    fn get_read_locked(&self) -> (g: Self::ReadLockGuard)
        requires
            self.rw_readers() > 0,
        ensures
            self.read_guard_fits(g),
    ;

    /// The token of the write lock that the caller holds.
    fn get_write_locked(&self) -> (g: Self::WriteLockGuard)
        requires
            self.rw_readers() == -1,
        ensures
            self.write_guard_fits(g),
    ;
}

} // verus!
