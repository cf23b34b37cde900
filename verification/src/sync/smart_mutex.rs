//! A mutex for tasks of any thread that hands the lock over to its waiters: [`Mutex`], its
//! token [`MutexGuard`] and its future [`MutexWait`].
//!
//! The counter of the mutex counts the holder and every task that announced itself as a
//! waiter; `expected_count` is what the counter holds when nobody else waits. A waiter
//! announces itself by incrementing the counter, and is pushed into the wait queue by the
//! executor after its poll returned; in between it is "in flight". A task that re-enters the
//! queue from a condition variable ([`Mutex::low_level_subscribe`]) does not touch the counter
//! and lowers `expected_count` instead, which can fall below zero when several woken tasks
//! re-enter the queue while the mutex is held. Unlocking resets the counter if it still holds
//! `expected_count`, and else hands the lock to the first waiter of the queue; if the queue is
//! still empty, the unlocker owes the lock to a waiter in flight and retries
//! ([`Mutex::unlock_retry`]).
use crate::sync::channel_results::Poll;
use crate::sync_task_queue::SyncTaskList;
use crate::task::{fresh_id, Scheduler, Task};
use crate::sync::mutex_traits::{AsyncMutex, AsyncSubscribableMutex};
use vstd::prelude::*;

verus! {

/// The token of a held [`Mutex`].
pub struct MutexGuard {
    lock_id: Ghost<int>,
}

/// The future of a lock of a [`Mutex`].
pub struct MutexWait {
    was_called: bool,
    lock_id: Ghost<int>,
}

/// The effect of a try to lock `old` that leaves `new`: it succeeds exactly when the mutex was
/// free, and then the counter holds one; a failed try changes nothing.
pub open spec fn mutex_try_lock_post<T>(old: Mutex<T>, new: Mutex<T>, acquired: bool) -> bool {
    &&& new.wf()
    &&& new.id() == old.id()
    &&& acquired <==> !old.locked()
    &&& acquired ==> new.counter_view() == 1
    &&& !acquired ==> new == old
    &&& new.value_view() == old.value_view()
    &&& new.queue_view() == old.queue_view()
    &&& new.expected_view() == old.expected_view()
    &&& new.in_flight_view() == old.in_flight_view()
    &&& new.handoff_owed_view() == old.handoff_owed_view()
}

/// The effect of releasing the lock of `old` into `new`, with the scheduler going from `os` to
/// `ns`: without waiters the mutex becomes free; else the first queued waiter gets the lock and
/// is woken, or, if the waiters are not queued yet, the lock is owed to one of them. The value
/// stays.
pub open spec fn mutex_release_post<T>(old: Mutex<T>, new: Mutex<T>, os: Scheduler, ns: Scheduler) -> bool {
    &&& new.wf()
    &&& new.id() == old.id()
    &&& new.value_view() == old.value_view()
    &&& old.queue_view().len() + old.in_flight_view() == 0 ==> !new.locked() && ns.same_as(&os)
    &&& old.queue_view().len() > 0 ==> {
        &&& new.locked()
        &&& new.queue_view() == old.queue_view().drop_first()
        &&& ns.executed_after(&os, seq![old.queue_view()[0]])
    }
    &&& old.queue_view().len() == 0 && old.in_flight_view() > 0 ==> {
        &&& new.locked()
        &&& new.handoff_owed_view()
        &&& ns.same_as(&os)
    }
}

/// A mutual exclusion primitive for tasks of any thread, with a queue of waiters.
pub struct Mutex<T> {
    counter: usize,
    wait_queue: SyncTaskList,
    expected_count: i128,
    id: Ghost<int>,
    value: T,
    in_flight: Ghost<nat>,
    handoff_owed: bool,
}

impl<T> Mutex<T> {
    /// The counter: `0` while unlocked, else the holder plus the announced waiters.
    pub closed spec fn counter_view(&self) -> nat {
        self.counter as nat
    }

    /// What the counter holds when nobody but the holder waits.
    pub closed spec fn expected_view(&self) -> int {
        self.expected_count as int
    }

    /// The waiters in the queue, first pushed first.
    pub closed spec fn queue_view(&self) -> Seq<Task> {
        self.wait_queue@
    }

    /// The number of waiters that announced themselves and are not yet in the queue.
    pub closed spec fn in_flight_view(&self) -> nat {
        self.in_flight@
    }

    /// Whether an unlocker found the queue empty and owes the lock to the next waiter.
    pub closed spec fn handoff_owed_view(&self) -> bool {
        self.handoff_owed
    }

    /// The protected value.
    pub closed spec fn value_view(&self) -> T {
        self.value
    }

    /// The identity of the mutex, which its tokens and futures record.
    pub closed spec fn id(&self) -> int {
        self.id@
    }

    /// Whether the mutex is locked (held, or being handed over).
    pub open spec fn locked(&self) -> bool {
        self.counter_view() > 0
    }

    /// The invariant of the mutex: an unlocked mutex has no waiters and expects one holder; a
    /// locked one counts in its counter exactly the waiters it expects beyond
    /// `expected_count`, and an owed lock always has a waiter to go to.
    pub open spec fn wf(&self) -> bool {
        &&& self.counter_view() == 0 ==> {
            &&& self.queue_view().len() == 0
            &&& self.in_flight_view() == 0
            &&& self.expected_view() == 1
            &&& !self.handoff_owed_view()
        }
        &&& self.counter_view() > 0 ==> self.counter_view() + (if self.handoff_owed_view() {
            1int
        } else {
            0int
        }) == self.expected_view() + self.queue_view().len() + self.in_flight_view()
        &&& self.handoff_owed_view() ==> self.queue_view().len() + self.in_flight_view() > 0
        &&& self.in_flight_view() <= self.counter_view()
        &&& self.queue_view().len() <= usize::MAX
    }

    /// Creates an unlocked mutex that protects `value`.
    pub fn new(value: T) -> (m: Self)
        ensures
            m.wf(),
            !m.locked(),
            m.value_view() == value,
    {
        Mutex {
            counter: 0,
            wait_queue: SyncTaskList::new(),
            expected_count: 1,
            id: fresh_id(),
            value,
            in_flight: Ghost(0),
            handoff_owed: false,
        }
    }

    /// Whether the mutex is locked.
    pub fn is_locked(&self) -> (b: bool)
        ensures
            b == self.locked(),
    {
        self.counter != 0
    }

    /// Locks the mutex if it is unlocked.
    pub fn try_lock(&mut self) -> (g: Option<MutexGuard>)
        requires
            old(self).wf(),
        ensures
            g matches Some(t) ==> t.lock_id_view() == final(self).id(),
            mutex_try_lock_post(*old(self), *final(self), g is Some),
    {
        if self.counter == 0 {
            self.counter = 1;
            Some(MutexGuard { lock_id: Ghost(self.id@) })
        } else {
            None
        }
    }

    /// Locks the mutex if it is unlocked, trying a few times while exactly one task holds it.
    pub fn try_lock_with_spinning(&mut self) -> (g: Option<MutexGuard>)
        requires
            old(self).wf(),
        ensures
            g matches Some(t) ==> t.lock_id_view() == final(self).id(),
            mutex_try_lock_post(*old(self), *final(self), g is Some),
    {
        let mut step: usize = 0;
        while step <= 6
            invariant
                *self == *old(self),
                self.wf(),
                step > 0 ==> self.counter == 1,
            decreases 7 - step,
        {
            if self.counter == 0 {
                self.counter = 1;
                return Some(MutexGuard { lock_id: Ghost(self.id@) });
            }
            if self.counter != 1 {
                return None;
            }
            step = step + 1;
        }
        None
    }

    /// Creates the future of a lock.
    pub fn lock(&self) -> (f: MutexWait)
        ensures
            f.lock_id_view() == self.id(),
            !f.was_called_view(),
    {
        MutexWait { was_called: false, lock_id: Ghost(self.id@) }
    }

    /// The protected value, reached without locking through exclusive access to the mutex.
    pub fn get_mut(&mut self) -> (r: &mut T)
        ensures
            final(self).id() == old(self).id(),
            *r == old(self).value_view(),
            final(self).value_view() == *final(r),
            final(self).counter_view() == old(self).counter_view(),
            final(self).expected_view() == old(self).expected_view(),
            final(self).queue_view() == old(self).queue_view(),
            final(self).in_flight_view() == old(self).in_flight_view(),
            final(self).handoff_owed_view() == old(self).handoff_owed_view(),
    {
        &mut self.value
    }

    /// The executor's step after a waiter's poll returned [`Poll::Pending`]: the waiter `task`,
    /// which was in flight, enters the back of the queue.
    pub fn push_waiter(&mut self, task: Task)
        requires
            old(self).wf(),
            old(self).in_flight_view() > 0,
        ensures
            final(self).id() == old(self).id(),
            final(self).wf(),
            final(self).queue_view() == old(self).queue_view().push(task),
            final(self).in_flight_view() == old(self).in_flight_view() - 1,
            final(self).counter_view() == old(self).counter_view(),
            final(self).expected_view() == old(self).expected_view(),
            final(self).handoff_owed_view() == old(self).handoff_owed_view(),
            final(self).value_view() == old(self).value_view(),
    {
        self.wait_queue.push(task);
        self.in_flight = Ghost((self.in_flight@ - 1) as nat);
    }

    /// Puts `task` into the queue of a locked mutex without announcing it in the counter, as a
    /// condition variable does for a woken task; the unlocker then expects one holder less.
    pub fn low_level_subscribe(&mut self, task: Task)
        requires
            old(self).wf(),
            old(self).locked(),
        ensures
            final(self).id() == old(self).id(),
            final(self).wf(),
            final(self).queue_view() == old(self).queue_view().push(task),
            final(self).expected_view() == old(self).expected_view() - 1,
            final(self).counter_view() == old(self).counter_view(),
            final(self).in_flight_view() == old(self).in_flight_view(),
            final(self).handoff_owed_view() == old(self).handoff_owed_view(),
            final(self).value_view() == old(self).value_view(),
    {
        self.expected_count = self.expected_count - 1;
        self.wait_queue.push(task);
    }

    /// Unlocks the mutex. If nobody else waits, the mutex becomes unlocked. Else, if a waiter is
    /// in the queue, the first one gets the lock and is woken; if none is in the queue yet,
    /// the lock is owed to the next waiter that enters it (see
    /// [`unlock_retry`](Mutex::unlock_retry)).
    pub fn unlock(&mut self, sched: &mut Scheduler)
        requires
            old(self).wf(),
            old(self).locked(),
            !old(self).handoff_owed_view(),
        ensures
            final(self).id() == old(self).id(),
            final(self).wf(),
            final(self).value_view() == old(self).value_view(),
            final(self).in_flight_view() == old(self).in_flight_view(),
            old(self).queue_view().len() + old(self).in_flight_view() == 0 ==> {
                &&& !final(self).locked()
                &&& final(self).expected_view() == 1
                &&& final(sched).same_as(old(sched))
            },
            old(self).queue_view().len() > 0 ==> {
                &&& final(self).counter_view() == old(self).counter_view()
                &&& final(self).queue_view() == old(self).queue_view().drop_first()
                &&& !final(self).handoff_owed_view()
                &&& final(sched).executed_after(old(sched), seq![old(self).queue_view()[0]])
            },
            old(self).queue_view().len() == 0 && old(self).in_flight_view() > 0 ==> {
                &&& final(self).counter_view() == old(self).counter_view()
                &&& final(self).queue_view() == old(self).queue_view()
                &&& final(self).handoff_owed_view()
                &&& final(sched).same_as(old(sched))
            },
    {
        if self.counter as i128 == self.expected_count {
            self.counter = 0;
            self.expected_count = 1;
            return;
        }
        self.expected_count = self.expected_count + 1;
        match self.wait_queue.pop() {
            Some(task) => {
                sched.exec_task(task);
            },
            None => {
                self.handoff_owed = true;
            },
        }
    }

    /// Retries to hand an owed lock over: the first waiter of the queue gets it and is woken,
    /// and `true` is returned; with the queue still empty nothing changes and `false` is
    /// returned.
    pub fn unlock_retry(&mut self, sched: &mut Scheduler) -> (handed: bool)
        requires
            old(self).wf(),
            old(self).handoff_owed_view(),
        ensures
            final(self).id() == old(self).id(),
            final(self).wf(),
            final(self).value_view() == old(self).value_view(),
            final(self).counter_view() == old(self).counter_view(),
            final(self).in_flight_view() == old(self).in_flight_view(),
            handed <==> old(self).queue_view().len() > 0,
            handed ==> {
                &&& final(self).queue_view() == old(self).queue_view().drop_first()
                &&& !final(self).handoff_owed_view()
                &&& final(sched).executed_after(old(sched), seq![old(self).queue_view()[0]])
            },
            !handed ==> {
                &&& final(self).queue_view() == old(self).queue_view()
                &&& final(self).handoff_owed_view()
                &&& final(self).expected_view() == old(self).expected_view()
                &&& final(sched).same_as(old(sched))
            },
    {
        match self.wait_queue.pop() {
            Some(task) => {
                self.handoff_owed = false;
                sched.exec_task(task);
                true
            },
            None => false,
        }
    }

    /// A token of the mutex, which is locked already.
    pub fn get_locked(&self) -> (g: MutexGuard)
        requires
            self.locked(),
        ensures
            g.lock_id_view() == self.id(),
    {
        MutexGuard { lock_id: Ghost(self.id@) }
    }
}

impl MutexWait {
    /// Whether the future has announced its task as a waiter.
    pub closed spec fn was_called_view(&self) -> bool {
        self.was_called
    }

    /// The identity of the mutex that the future waits for.
    pub closed spec fn lock_id_view(&self) -> int {
        self.lock_id@
    }

    /// Polls the future on behalf of `task`.
    ///
    /// The first poll takes the lock if the mutex is unlocked. Else it announces the task in
    /// the counter, the task is in flight, and the result is [`Poll::Pending`]; the executor
    /// then pushes it into the queue ([`Mutex::push_waiter`]). The poll after the task was
    /// woken yields the token of the lock that was handed to it.
    pub fn poll<T>(&mut self, mutex: &mut Mutex<T>, task: Task) -> (r: Poll<MutexGuard>)
        requires
            old(self).lock_id_view() == old(mutex).id(),
            old(mutex).wf(),
            !old(self).was_called_view() ==> old(mutex).counter_view() < usize::MAX,
            old(self).was_called_view() ==> old(mutex).locked(),
        ensures
            final(mutex).id() == old(mutex).id(),
            final(self).lock_id_view() == old(self).lock_id_view(),
            r matches Poll::Ready(g) ==> g.lock_id_view() == final(mutex).id(),
            final(mutex).wf(),
            final(mutex).value_view() == old(mutex).value_view(),
            final(mutex).queue_view() == old(mutex).queue_view(),
            final(mutex).expected_view() == old(mutex).expected_view(),
            final(mutex).handoff_owed_view() == old(mutex).handoff_owed_view(),
            old(self).was_called_view() ==> r is Ready && *final(mutex) == *old(mutex),
            !old(self).was_called_view() && !old(mutex).locked() ==> r is Ready && final(mutex).counter_view() == 1 && final(mutex).in_flight_view() == old(mutex).in_flight_view(),
            !old(self).was_called_view() && old(mutex).locked() ==> {
                &&& r is Pending
                &&& final(self).was_called_view()
                &&& final(mutex).counter_view() == old(mutex).counter_view() + 1
                &&& final(mutex).in_flight_view() == old(mutex).in_flight_view() + 1
            },
    {
        if !self.was_called {
            match mutex.try_lock_with_spinning() {
                Some(guard) => return Poll::Ready(guard),
                None => {},
            }
            let prev = mutex.counter;
            mutex.counter = mutex.counter + 1;
            if prev == 0 {
                return Poll::Ready(MutexGuard { lock_id: Ghost(mutex.id@) });
            }
            self.was_called = true;
            mutex.in_flight = Ghost(mutex.in_flight@ + 1);
            Poll::Pending
        } else {
            Poll::Ready(MutexGuard { lock_id: Ghost(mutex.id@) })
        }
    }
}

impl MutexGuard {
    /// The identity of the mutex that this token belongs to.
    pub closed spec fn lock_id_view(&self) -> int {
        self.lock_id@
    }

    /// The protected value, read under the lock.
    pub fn deref<'a, T>(&self, mutex: &'a Mutex<T>) -> (r: &'a T)
        requires
            self.lock_id_view() == mutex.id(),
            mutex.locked(),
        ensures
            *r == mutex.value_view(),
    {
        &mutex.value
    }

    /// The protected value, changed under the lock.
    pub fn deref_mut<'a, T>(&self, mutex: &'a mut Mutex<T>) -> (r: &'a mut T)
        requires
            self.lock_id_view() == old(mutex).id(),
            old(mutex).locked(),
        ensures
            final(mutex).id() == old(mutex).id(),
            *r == old(mutex).value_view(),
            final(mutex).value_view() == *final(r),
            final(mutex).counter_view() == old(mutex).counter_view(),
            final(mutex).expected_view() == old(mutex).expected_view(),
            final(mutex).queue_view() == old(mutex).queue_view(),
            final(mutex).in_flight_view() == old(mutex).in_flight_view(),
            final(mutex).handoff_owed_view() == old(mutex).handoff_owed_view(),
    {
        &mut mutex.value
    }

    /// Releases the lock that this token stands for (see [`Mutex::unlock`]).
    pub fn unlock<T>(self, mutex: &mut Mutex<T>, sched: &mut Scheduler)
        requires
            self.lock_id_view() == old(mutex).id(),
            old(mutex).wf(),
            old(mutex).locked(),
            !old(mutex).handoff_owed_view(),
        ensures
            mutex_release_post(*old(mutex), *final(mutex), *old(sched), *final(sched)),
    {
        mutex.unlock(sched)
    }

    /// Gives up the token without unlocking.
    pub fn leak(self) {
    }
}

/// Only one task holds a mutex: once a try to lock succeeds, the next try fails and leaves
/// the mutex as it was.
pub proof fn lemma_mutex_exclusive<T>(
    m0: Mutex<T>,
    m1: Mutex<T>,
    m2: Mutex<T>,
    first: bool,
    second: bool,
)
    requires
        m0.wf(),
        mutex_try_lock_post(m0, m1, first),
        first,
        mutex_try_lock_post(m1, m2, second),
    ensures
        !second,
        m2 == m1,
{
}

impl<T> AsyncMutex<T> for Mutex<T> {
    type Guard = MutexGuard;

    open spec fn mutex_locked(&self) -> bool {
        self.locked()
    }

    open spec fn mutex_value(&self) -> T {
        self.value_view()
    }

    open spec fn mutex_wf(&self) -> bool {
        self.wf()
    }

    open spec fn mutex_idle(&self) -> bool {
        self.queue_view().len() + self.in_flight_view() == 0
    }

    /// A lock that is owed to a waiter is not held by anyone who could release it.
    open spec fn mutex_unlockable(&self) -> bool {
        self.locked() && !self.handoff_owed_view()
    }

    open spec fn guard_fits(&self, g: MutexGuard) -> bool {
        g.lock_id_view() == self.id()
    }

    fn is_locked(&self) -> (b: bool) {
        Mutex::is_locked(self)
    }

    fn try_lock(&mut self) -> (g: Option<MutexGuard>)
        ensures
            mutex_try_lock_post(*old(self), *final(self), g is Some),
    {
        Mutex::try_lock(self)
    }

    fn get_mut(&mut self) -> (r: &mut T)
        ensures
            final(self).id() == old(self).id(),
            final(self).counter_view() == old(self).counter_view(),
            final(self).expected_view() == old(self).expected_view(),
            final(self).queue_view() == old(self).queue_view(),
            final(self).in_flight_view() == old(self).in_flight_view(),
            final(self).handoff_owed_view() == old(self).handoff_owed_view(),
    {
        Mutex::get_mut(self)
    }

    fn unlock(&mut self, sched: &mut Scheduler)
        ensures
            mutex_release_post(*old(self), *final(self), *old(sched), *final(sched)),
    {
        Mutex::unlock(self, sched)
    }

    fn get_locked(&self) -> (g: MutexGuard) {
        Mutex::get_locked(self)
    }
}

impl<T> AsyncSubscribableMutex<T> for Mutex<T> {
    open spec fn subscribers(&self) -> Seq<Task> {
        self.queue_view()
    }

    fn low_level_subscribe(&mut self, task: Task)
        ensures
            final(self).id() == old(self).id(),
            final(self).expected_view() == old(self).expected_view() - 1,
            final(self).counter_view() == old(self).counter_view(),
            final(self).in_flight_view() == old(self).in_flight_view(),
            final(self).handoff_owed_view() == old(self).handoff_owed_view(),
    {
        Mutex::low_level_subscribe(self, task)
    }
}

} // verus!
