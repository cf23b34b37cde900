//! A mutex without a queue of waiters: [`NaiveMutex`]. A task that finds it locked yields
//! and tries again later.
use crate::sync::channel_results::Poll;
use crate::sync::mutex_traits::AsyncMutex;
use crate::task::{fresh_id, Scheduler};
use vstd::prelude::*;

verus! {

/// The token of a held [`NaiveMutex`]; the holder releases the lock with
/// [`unlock`](NaiveMutexGuard::unlock).
pub struct NaiveMutexGuard {
    lock_id: Ghost<int>,
}

impl NaiveMutexGuard {
    /// The identity of the mutex that this token belongs to.
    pub closed spec fn lock_id_view(&self) -> int {
        self.lock_id@
    }
}

/// The effect of a try to lock `old` that leaves `new`: it succeeds exactly when the mutex was
/// free; the mutex is locked afterwards and its value stays.
pub open spec fn naive_try_lock_post<T>(old: NaiveMutex<T>, new: NaiveMutex<T>, acquired: bool) -> bool {
    &&& acquired <==> !old.locked_view()
    &&& new.id() == old.id()
    &&& new.locked_view()
    &&& new.value_view() == old.value_view()
}

/// A mutual exclusion primitive that spins and yields while it is locked.
pub struct NaiveMutex<T> {
    is_locked: bool,
    value: T,
    id: Ghost<int>,
}

impl<T> NaiveMutex<T> {
    /// Whether the mutex is locked.
    pub closed spec fn locked_view(&self) -> bool {
        self.is_locked
    }

    /// The protected value.
    pub closed spec fn value_view(&self) -> T {
        self.value
    }

    /// The identity of the mutex, which its tokens record.
    pub closed spec fn id(&self) -> int {
        self.id@
    }

    /// Creates an unlocked mutex that protects `value`.
    pub fn new(value: T) -> (m: Self)
        ensures
            !m.locked_view(),
            m.value_view() == value,
    {
        NaiveMutex { is_locked: false, value, id: fresh_id() }
    }

    /// Gives up the mutex and hands back its value.
    pub(crate) fn into_inner(self) -> (v: T)
        ensures
            v == self.value_view(),
    {
        self.value
    }

    /// Whether the mutex is locked.
    pub fn is_locked(&self) -> (b: bool)
        ensures
            b == self.locked_view(),
    {
        self.is_locked
    }

    /// Locks the mutex if it is unlocked and returns the token; returns `None` if it is locked.
    pub fn try_lock(&mut self) -> (g: Option<NaiveMutexGuard>)
        ensures
            naive_try_lock_post(*old(self), *final(self), g is Some),
            g matches Some(t) ==> t.lock_id_view() == final(self).id(),
    {
        if self.is_locked {
            None
        } else {
            self.is_locked = true;
            Some(NaiveMutexGuard { lock_id: Ghost(self.id@) })
        }
    }

    /// One poll of the lock future: the token if the mutex was unlocked, else
    /// [`Poll::Pending`], and the task yields before it polls again.
    pub fn lock(&mut self) -> (p: Poll<NaiveMutexGuard>)
        ensures
            p is Ready <==> !old(self).locked_view(),
            final(self).locked_view(),
            final(self).value_view() == old(self).value_view(),
            final(self).id() == old(self).id(),
            p matches Poll::Ready(t) ==> t.lock_id_view() == final(self).id(),
    {
        match self.try_lock() {
            Some(g) => Poll::Ready(g),
            None => Poll::Pending,
        }
    }

    /// The protected value, reached without locking through exclusive access to the mutex.
    pub fn get_mut(&mut self) -> (r: &mut T)
        ensures
            *r == old(self).value_view(),
            final(self).value_view() == *final(r),
            final(self).locked_view() == old(self).locked_view(),
            final(self).id() == old(self).id(),
    {
        &mut self.value
    }

    /// The protected value, read through the token of the held lock.
    pub fn get(&self, guard: &NaiveMutexGuard) -> (r: &T)
        requires
            self.locked_view(),
            guard.lock_id_view() == self.id(),
        ensures
            *r == self.value_view(),
    {
        &self.value
    }

    /// Unlocks a locked mutex.
    pub fn unlock(&mut self)
        requires
            old(self).locked_view(),
        ensures
            !final(self).locked_view(),
            final(self).value_view() == old(self).value_view(),
            final(self).id() == old(self).id(),
    {
        self.is_locked = false;
    }

    /// A new token of a mutex that is locked already.
    pub fn get_locked(&self) -> (g: NaiveMutexGuard)
        requires
            self.locked_view(),
        ensures
            g.lock_id_view() == self.id(),
    {
        NaiveMutexGuard { lock_id: Ghost(self.id@) }
    }
}

impl NaiveMutexGuard {
    /// Releases the lock that this token stands for.
    pub fn unlock<T>(self, mutex: &mut NaiveMutex<T>)
        requires
            old(mutex).locked_view(),
            self.lock_id_view() == old(mutex).id(),
        ensures
            !final(mutex).locked_view(),
            final(mutex).value_view() == old(mutex).value_view(),
            final(mutex).id() == old(mutex).id(),
    {
        mutex.unlock()
    }

    /// Gives up the token without unlocking: the mutex stays locked until
    /// [`NaiveMutex::unlock`] is called.
    pub fn leak_to_atomic(self) {
    }
}

/// Only one task holds a mutex: once a try to lock succeeds, the next try fails.
pub proof fn lemma_naive_mutex_exclusive<T>(
    m0: NaiveMutex<T>,
    m1: NaiveMutex<T>,
    m2: NaiveMutex<T>,
    first: bool,
    second: bool,
)
    requires
        naive_try_lock_post(m0, m1, first),
        first,
        naive_try_lock_post(m1, m2, second),
    ensures
        !second,
        m2.value_view() == m0.value_view(),
{
}

impl<T> AsyncMutex<T> for NaiveMutex<T> {
    type Guard = NaiveMutexGuard;

    open spec fn mutex_locked(&self) -> bool {
        self.locked_view()
    }

    open spec fn mutex_value(&self) -> T {
        self.value_view()
    }

    /// A naive mutex has no invariant.
    open spec fn mutex_wf(&self) -> bool {
        true
    }

    /// No task waits in a naive mutex: waiters try again later.
    open spec fn mutex_idle(&self) -> bool {
        true
    }

    open spec fn mutex_unlockable(&self) -> bool {
        self.locked_view()
    }

    open spec fn guard_fits(&self, g: NaiveMutexGuard) -> bool {
        g.lock_id_view() == self.id()
    }

    fn is_locked(&self) -> (b: bool) {
        NaiveMutex::is_locked(self)
    }

    fn try_lock(&mut self) -> (g: Option<NaiveMutexGuard>) {
        NaiveMutex::try_lock(self)
    }

    fn get_mut(&mut self) -> (r: &mut T) {
        NaiveMutex::get_mut(self)
    }

    /// The scheduler is not touched: no task waits in a naive mutex.
    fn unlock(&mut self, sched: &mut Scheduler)
        ensures
            *final(sched) == *old(sched),
    {
        NaiveMutex::unlock(self)
    }

    fn get_locked(&self) -> (g: NaiveMutexGuard) {
        NaiveMutex::get_locked(self)
    }
}

} // verus!
