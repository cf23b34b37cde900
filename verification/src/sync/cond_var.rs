//! Condition variables: [`LocalCondVar`] with a [`LocalMutex`] for the tasks of one thread,
//! and [`CondVar`] with a [`Mutex`] for tasks of any thread, with their futures
//! [`WaitLocalCondVar`] and [`WaitCondVar`].
//!
//! Waiting releases the lock and parks the task on the condition variable. A notified task
//! takes the lock again: at once if the mutex is free, else by waiting in the mutex's queue.
use crate::sync::channel_results::Poll;
use crate::sync::local_mutex::{local_unlock_post, LocalMutex, LocalMutexGuard};
use crate::sync::smart_mutex::{mutex_release_post, mutex_try_lock_post, Mutex, MutexGuard};
use crate::sync_task_queue::SyncTaskList;
use crate::task::{fresh_id, Scheduler, Task};
use vstd::prelude::*;

verus! {

/// The interface that every condition variable offers to its notifiers.
pub trait AsyncCondVar {
    /// The tasks that wait on the condition variable, in the order in which they came.
    spec fn cond_waiters(&self) -> Seq<Task>;

    /// Whether notified tasks are put into the run queue rather than run at once.
    spec fn notify_spawns(&self) -> bool;

    /// The order in which the waiting tasks `waiters` are notified.
    spec fn wake_order(&self, waiters: Seq<Task>) -> Seq<Task>;

    /// The order of notification holds every waiting task as often as it waits, and nothing
    /// else.
    proof fn lemma_wake_order_permutes(&self, waiters: Seq<Task>)
        ensures
            self.wake_order(waiters).len() == waiters.len(),
            self.wake_order(waiters).to_multiset() == waiters.to_multiset(),
    ;

    /// Wakes the waiting task that comes first in the order of notification, if there is one.
    fn notify_one(&mut self, sched: &mut Scheduler)
        ensures
            old(self).cond_waiters().len() == 0 ==> final(self).cond_waiters()
                == old(self).cond_waiters() && final(sched).same_as(old(sched)),
            old(self).cond_waiters().len() > 0 ==> final(sched).woken_after(
                old(sched),
                seq![old(self).wake_order(old(self).cond_waiters())[0]],
                old(self).notify_spawns(),
            ) && final(self).wake_order(final(self).cond_waiters()) == old(self).wake_order(
                old(self).cond_waiters(),
            ).drop_first(),
            old(self).cond_waiters().len() > 0 ==> final(self).cond_waiters().len()
                == old(self).cond_waiters().len() - 1 && final(self).cond_waiters().to_multiset()
                == old(self).cond_waiters().to_multiset().remove(
                old(self).wake_order(old(self).cond_waiters())[0],
            ),
            final(self).notify_spawns() == old(self).notify_spawns(),
    ;

    /// Wakes every waiting task, in the order of notification.
    fn notify_all(&mut self, sched: &mut Scheduler)
        ensures
            final(self).cond_waiters() == Seq::<Task>::empty(),
            final(sched).woken_after(
                old(sched),
                old(self).wake_order(old(self).cond_waiters()),
                old(self).notify_spawns(),
            ),
            final(self).notify_spawns() == old(self).notify_spawns(),
    ;
}

/// Notifying all wakes every waiting task exactly once: what the scheduler receives from
/// [`AsyncCondVar::notify_all`] on `c` holds each task that waited on `c` as often as it waited,
/// and nothing else.
pub proof fn lemma_notify_all_wakes_each_waiter_once<C: AsyncCondVar>(c: &C, s0: Scheduler, s1: Scheduler)
    requires
        s1.woken_after(&s0, c.wake_order(c.cond_waiters()), c.notify_spawns()),
    ensures
        s1.woken_view(c.notify_spawns()).len() == s0.woken_view(c.notify_spawns()).len()
            + c.cond_waiters().len(),
        s1.woken_view(c.notify_spawns()).subrange(
            s0.woken_view(c.notify_spawns()).len() as int,
            s1.woken_view(c.notify_spawns()).len() as int,
        ).to_multiset() == c.cond_waiters().to_multiset(),
{
    c.lemma_wake_order_permutes(c.cond_waiters());
    let w = c.wake_order(c.cond_waiters());
    let spawn = c.notify_spawns();
    assert(s1.woken_view(spawn) == s0.woken_view(spawn) + w);
    assert(s1.woken_view(spawn).subrange(s0.woken_view(spawn).len() as int, s1.woken_view(spawn).len() as int) =~= w);
}

/// Notifying one waiter and then all the others wakes every task that waited exactly once:
/// the task that [`AsyncCondVar::notify_one`] woke, followed by what the following
/// [`AsyncCondVar::notify_all`] woke, holds each waiter of `c0` as often as it waited.
pub proof fn lemma_notify_one_then_all_wakes_each_waiter_once<C: AsyncCondVar>(
    c0: &C,
    c1: &C,
    s0: Scheduler,
    s1: Scheduler,
    s2: Scheduler,
)
    requires
        c0.cond_waiters().len() > 0,
        c1.notify_spawns() == c0.notify_spawns(),
        s1.woken_after(&s0, seq![c0.wake_order(c0.cond_waiters())[0]], c0.notify_spawns()),
        c1.cond_waiters().to_multiset() == c0.cond_waiters().to_multiset().remove(
            c0.wake_order(c0.cond_waiters())[0],
        ),
        s2.woken_after(&s1, c1.wake_order(c1.cond_waiters()), c1.notify_spawns()),
    ensures
        s2.woken_view(c0.notify_spawns()).subrange(
            s0.woken_view(c0.notify_spawns()).len() as int,
            s2.woken_view(c0.notify_spawns()).len() as int,
        ).to_multiset() == c0.cond_waiters().to_multiset(),
{
    broadcast use vstd::seq_lib::group_to_multiset_ensures;

    let spawn = c0.notify_spawns();
    c0.lemma_wake_order_permutes(c0.cond_waiters());
    c1.lemma_wake_order_permutes(c1.cond_waiters());
    let first = c0.wake_order(c0.cond_waiters())[0];
    let rest = c1.wake_order(c1.cond_waiters());
    assert(c0.wake_order(c0.cond_waiters()).contains(first)) by {
        assert(c0.wake_order(c0.cond_waiters())[0] == first);
    }
    assert(c0.cond_waiters().to_multiset().count(first) > 0);
    let woken = s2.woken_view(spawn).subrange(
        s0.woken_view(spawn).len() as int,
        s2.woken_view(spawn).len() as int,
    );
    assert(woken =~= seq![first] + rest);
    vstd::seq_lib::lemma_multiset_commutative(seq![first], rest);
    assert(seq![first] =~= Seq::<Task>::empty().push(first));
    assert(woken.to_multiset() =~= c0.cond_waiters().to_multiset());
}

/// The stage of a wait on a condition variable.
pub enum WaitState {
    /// The task is about to be parked on the condition variable.
    Sleep,
    /// The task was notified and takes the lock again.
    Wake,
    /// The task waits in the mutex's queue for the lock.
    Lock,
}

/// A condition variable for the tasks of one thread.
pub struct LocalCondVar {
    wait_queue: Vec<Task>,
    id: Ghost<int>,
}

/// A future that waits on a [`LocalCondVar`] and then takes its [`LocalMutex`] again.
pub struct WaitLocalCondVar {
    state: WaitState,
    cond_id: Ghost<int>,
    lock_id: Ghost<int>,
}

impl LocalCondVar {
    /// The parked tasks, first parked first.
    pub closed spec fn waiters(&self) -> Seq<Task> {
        self.wait_queue@
    }

    /// The identity of the condition variable, which its wait futures record.
    pub closed spec fn id(&self) -> int {
        self.id@
    }

    /// Creates a condition variable without waiters.
    pub fn new() -> (c: Self)
        ensures
            c.waiters() == Seq::<Task>::empty(),
    {
        LocalCondVar { wait_queue: Vec::new(), id: fresh_id() }
    }

    /// Releases the lock that `guard` stands for (see [`LocalMutex::unlock`]) and returns the
    /// future that waits for a notification.
    pub fn wait<T>(&self, guard: LocalMutexGuard, mutex: &mut LocalMutex<T>, sched: &mut Scheduler) -> (f:
        WaitLocalCondVar)
        requires
            guard.lock_id_view() == old(mutex).id(),
            old(mutex).wf(),
            old(mutex).locked_view(),
        ensures
            f.cond_id_view() == self.id(),
            f.lock_id_view() == old(mutex).id(),
            f.state_view() is Sleep,
            local_unlock_post(*old(mutex), *final(mutex), *old(sched), *final(sched)),
    {
        let ghost lock_id = mutex.id();
        guard.unlock(mutex, sched);
        WaitLocalCondVar { state: WaitState::Sleep, cond_id: Ghost(self.id@), lock_id: Ghost(lock_id) }
    }

    /// One round of waiting while `predicate` holds of the protected value. If it does not
    /// hold, the lock is kept and its token comes back (`Ok`). Else the lock is released as by
    /// [`wait`](LocalCondVar::wait) and the wait future comes back (`Err`); the caller awaits it
    /// and asks again with the token that it yields.
    pub fn wait_while<T, P: Fn(&T) -> bool>(
        &self,
        guard: LocalMutexGuard,
        mutex: &mut LocalMutex<T>,
        predicate: P,
        sched: &mut Scheduler,
    ) -> (r: Result<LocalMutexGuard, WaitLocalCondVar>)
        requires
            guard.lock_id_view() == old(mutex).id(),
            old(mutex).wf(),
            old(mutex).locked_view(),
            predicate.requires((&old(mutex).value_view(),)),
        ensures
            r matches Ok(g) ==> g.lock_id_view() == final(mutex).id(),
            r matches Err(f) ==> f.cond_id_view() == self.id() && f.lock_id_view() == old(mutex).id(),
            r is Ok ==> predicate.ensures((&old(mutex).value_view(),), false) && *final(mutex)
                == *old(mutex) && final(sched).same_as(old(sched)),
            r matches Err(f) ==> predicate.ensures((&old(mutex).value_view(),), true)
                && f.state_view() is Sleep && local_unlock_post(
                *old(mutex),
                *final(mutex),
                *old(sched),
                *final(sched),
            ),
    {
        if predicate(guard.deref(mutex)) {
            Err(self.wait(guard, mutex, sched))
        } else {
            Ok(guard)
        }
    }

    /// Wakes the task that was parked last, if there is one.
    pub fn notify_one(&mut self, sched: &mut Scheduler)
        ensures
            final(self).id() == old(self).id(),
            old(self).waiters().len() > 0 ==> final(self).waiters() == old(self).waiters().drop_last()
                && final(sched).executed_after(old(sched), seq![old(self).waiters().last()]),
            old(self).waiters().len() == 0 ==> final(self).waiters() == old(self).waiters() && final(sched).same_as(old(sched)),
    {
        match self.wait_queue.pop() {
            Some(task) => sched.exec_task(task),
            None => {},
        }
    }

    /// Wakes every parked task, from the last parked to the first.
    pub fn notify_all(&mut self, sched: &mut Scheduler)
        ensures
            final(self).id() == old(self).id(),
            final(self).waiters() == Seq::<Task>::empty(),
            final(sched).executed_after(old(sched), old(self).waiters().reverse()),
    {
        let ghost w0 = self.wait_queue@;
        let ghost e0 = sched.executed_view();
        while self.wait_queue.len() > 0
            invariant
                w0.len() >= self.wait_queue@.len(),
                self.wait_queue@ == w0.subrange(0, self.wait_queue@.len() as int),
                sched.executed_view() == e0 + w0.subrange(self.wait_queue@.len() as int, w0.len() as int).reverse(),
                sched.spawned_view() == old(sched).spawned_view(),
                self.id == old(self).id,
            decreases self.wait_queue@.len(),
        {
            let n = self.wait_queue.len();
            let task = match self.wait_queue.pop() {
                Some(t) => t,
                None => vstd::pervasive::unreached(),
            };
            sched.exec_task(task);
            assert(w0.subrange(n - 1, w0.len() as int).reverse() =~= w0.subrange(
                n as int,
                w0.len() as int,
            ).reverse().push(task));
            assert(self.wait_queue@ =~= w0.subrange(0, n - 1));
        }
        assert(w0.subrange(0, w0.len() as int) =~= w0);
        assert(self.wait_queue@ =~= Seq::<Task>::empty());
    }
}

impl WaitLocalCondVar {
    /// The stage of the wait.
    pub closed spec fn state_view(&self) -> WaitState {
        self.state
    }

    /// The identity of the condition variable that the future waits on.
    pub closed spec fn cond_id_view(&self) -> int {
        self.cond_id@
    }

    /// The identity of the mutex that the future takes again.
    pub closed spec fn lock_id_view(&self) -> int {
        self.lock_id@
    }

    /// Polls the wait on behalf of `task`.
    ///
    /// The first poll parks the task on the condition variable. The poll after a notification
    /// takes the lock if the mutex is free, and else parks the task on the mutex. The poll
    /// after that yields the token of the lock that was handed over.
    pub fn poll<T>(
        &mut self,
        cond_var: &mut LocalCondVar,
        mutex: &mut LocalMutex<T>,
        task: Task,
    ) -> (r: Poll<LocalMutexGuard>)
        requires
            old(self).cond_id_view() == old(cond_var).id(),
            old(self).lock_id_view() == old(mutex).id(),
            old(mutex).wf(),
            old(self).state_view() is Lock ==> old(mutex).locked_view(),
        ensures
            final(mutex).id() == old(mutex).id(),
            final(cond_var).id() == old(cond_var).id(),
            final(self).cond_id_view() == old(self).cond_id_view(),
            final(self).lock_id_view() == old(self).lock_id_view(),
            r matches Poll::Ready(g) ==> g.lock_id_view() == final(mutex).id(),
            final(mutex).wf(),
            final(mutex).value_view() == old(mutex).value_view(),
            old(self).state_view() is Sleep ==> {
                &&& r is Pending
                &&& final(self).state_view() is Wake
                &&& final(cond_var).waiters() == old(cond_var).waiters().push(task)
                &&& *final(mutex) == *old(mutex)
            },
            old(self).state_view() is Wake ==> {
                &&& final(cond_var).waiters() == old(cond_var).waiters()
                &&& final(mutex).locked_view()
                &&& (r is Ready <==> !old(mutex).locked_view())
                &&& r is Ready ==> final(mutex).waiters() == old(mutex).waiters()
                &&& r is Pending ==> final(self).state_view() is Lock && final(mutex).waiters()
                    == old(mutex).waiters().push(task)
            },
            old(self).state_view() is Lock ==> r is Ready && final(cond_var).waiters() == old(cond_var).waiters() && *final(mutex) == *old(mutex),
    {
        match self.state {
            WaitState::Sleep => {
                self.state = WaitState::Wake;
                cond_var.wait_queue.push(task);
                Poll::Pending
            },
            WaitState::Wake => match mutex.try_lock() {
                Some(guard) => Poll::Ready(guard),
                None => {
                    self.state = WaitState::Lock;
                    mutex.low_level_subscribe(task);
                    Poll::Pending
                },
            },
            WaitState::Lock => Poll::Ready(mutex.get_locked()),
        }
    }
}

/// A condition variable for tasks of any thread.
pub struct CondVar {
    wait_queue: SyncTaskList,
    id: Ghost<int>,
}

/// A future that waits on a [`CondVar`] and then takes its [`Mutex`] again.
pub struct WaitCondVar {
    state: WaitState,
    cond_id: Ghost<int>,
    lock_id: Ghost<int>,
}

impl CondVar {
    /// The identity of the condition variable, which its wait futures record.
    pub closed spec fn id(&self) -> int {
        self.id@
    }

    /// The parked tasks, first parked first.
    pub closed spec fn waiters(&self) -> Seq<Task> {
        self.wait_queue@
    }

    /// Creates a condition variable without waiters.
    pub fn new() -> (c: Self)
        ensures
            c.waiters() == Seq::<Task>::empty(),
    {
        CondVar { wait_queue: SyncTaskList::new(), id: fresh_id() }
    }

    /// Releases the lock that `guard` stands for (see [`Mutex::unlock`]) and returns the
    /// future that waits for a notification.
    pub fn wait<T>(&self, guard: MutexGuard, mutex: &mut Mutex<T>, sched: &mut Scheduler) -> (f:
        WaitCondVar)
        requires
            guard.lock_id_view() == old(mutex).id(),
            old(mutex).wf(),
            old(mutex).locked(),
            !old(mutex).handoff_owed_view(),
        ensures
            f.cond_id_view() == self.id(),
            f.lock_id_view() == old(mutex).id(),
            f.state_view() is Sleep,
            mutex_release_post(*old(mutex), *final(mutex), *old(sched), *final(sched)),
    {
        let ghost lock_id = mutex.id();
        guard.unlock(mutex, sched);
        WaitCondVar { state: WaitState::Sleep, cond_id: Ghost(self.id@), lock_id: Ghost(lock_id) }
    }

    /// One round of waiting while `predicate` holds of the protected value. If it does not
    /// hold, the lock is kept and its token comes back (`Ok`). Else the lock is released as by
    /// [`wait`](CondVar::wait) and the wait future comes back (`Err`); the caller awaits it and
    /// asks again with the token that it yields.
    pub fn wait_while<T, P: Fn(&T) -> bool>(
        &self,
        guard: MutexGuard,
        mutex: &mut Mutex<T>,
        predicate: P,
        sched: &mut Scheduler,
    ) -> (r: Result<MutexGuard, WaitCondVar>)
        requires
            guard.lock_id_view() == old(mutex).id(),
            old(mutex).wf(),
            old(mutex).locked(),
            !old(mutex).handoff_owed_view(),
            predicate.requires((&old(mutex).value_view(),)),
        ensures
            r matches Ok(g) ==> g.lock_id_view() == final(mutex).id(),
            r matches Err(f) ==> f.cond_id_view() == self.id() && f.lock_id_view() == old(mutex).id(),
            r is Ok ==> predicate.ensures((&old(mutex).value_view(),), false) && *final(mutex)
                == *old(mutex) && final(sched).same_as(old(sched)),
            r matches Err(f) ==> predicate.ensures((&old(mutex).value_view(),), true)
                && f.state_view() is Sleep && mutex_release_post(
                *old(mutex),
                *final(mutex),
                *old(sched),
                *final(sched),
            ),
    {
        if predicate(guard.deref(mutex)) {
            Err(self.wait(guard, mutex, sched))
        } else {
            Ok(guard)
        }
    }

    /// Puts the first parked task into the run queue, if there is one.
    pub fn notify_one(&mut self, sched: &mut Scheduler)
        ensures
            final(self).id() == old(self).id(),
            old(self).waiters().len() > 0 ==> final(self).waiters() == old(self).waiters().drop_first()
                && final(sched).spawned_after(old(sched), seq![old(self).waiters()[0]]),
            old(self).waiters().len() == 0 ==> final(self).waiters() == old(self).waiters() && final(sched).same_as(old(sched)),
    {
        match self.wait_queue.pop() {
            Some(task) => sched.spawn_task(task),
            None => {},
        }
    }

    /// Puts every parked task into the run queue, first parked first.
    pub fn notify_all(&mut self, sched: &mut Scheduler)
        ensures
            final(self).id() == old(self).id(),
            final(self).waiters() == Seq::<Task>::empty(),
            final(sched).spawned_after(old(sched), old(self).waiters()),
    {
        let ghost w0 = self.wait_queue@;
        let ghost s0 = sched.spawned_view();
        while !self.wait_queue.is_empty()
            invariant
                w0.len() >= self.wait_queue@.len(),
                self.wait_queue@ == w0.subrange(w0.len() - self.wait_queue@.len(), w0.len() as int),
                sched.spawned_view() == s0 + w0.subrange(0, w0.len() - self.wait_queue@.len()),
                sched.executed_view() == old(sched).executed_view(),
                self.id == old(self).id,
            decreases self.wait_queue@.len(),
        {
            let ghost k = w0.len() - self.wait_queue@.len();
            let task = match self.wait_queue.pop() {
                Some(t) => t,
                None => vstd::pervasive::unreached(),
            };
            sched.spawn_task(task);
            assert(w0.subrange(0, k + 1) =~= w0.subrange(0, k).push(task));
            assert(self.wait_queue@ =~= w0.subrange(k + 1, w0.len() as int));
        }
        assert(w0.subrange(0, w0.len() as int) =~= w0);
    }
}

impl WaitCondVar {
    /// The identity of the condition variable that the future waits on.
    pub closed spec fn cond_id_view(&self) -> int {
        self.cond_id@
    }

    /// The identity of the mutex that the future takes again.
    pub closed spec fn lock_id_view(&self) -> int {
        self.lock_id@
    }

    /// The stage of the wait.
    pub closed spec fn state_view(&self) -> WaitState {
        self.state
    }

    /// Polls the wait on behalf of `task`.
    ///
    /// The first poll parks the task on the condition variable. The poll after a notification
    /// takes the lock if the mutex is unlocked, and else puts the task into the mutex's queue
    /// ([`Mutex::low_level_subscribe`]). The poll after that yields the token of the lock that
    /// was handed over.
    pub fn poll<T>(&mut self, cond_var: &mut CondVar, mutex: &mut Mutex<T>, task: Task) -> (r: Poll<
        MutexGuard,
    >)
        requires
            old(self).cond_id_view() == old(cond_var).id(),
            old(self).lock_id_view() == old(mutex).id(),
            old(mutex).wf(),
            old(self).state_view() is Lock ==> old(mutex).locked(),
        ensures
            final(mutex).id() == old(mutex).id(),
            final(cond_var).id() == old(cond_var).id(),
            final(self).cond_id_view() == old(self).cond_id_view(),
            final(self).lock_id_view() == old(self).lock_id_view(),
            r matches Poll::Ready(g) ==> g.lock_id_view() == final(mutex).id(),
            final(mutex).wf(),
            final(mutex).value_view() == old(mutex).value_view(),
            old(self).state_view() is Sleep ==> {
                &&& r is Pending
                &&& final(self).state_view() is Wake
                &&& final(cond_var).waiters() == old(cond_var).waiters().push(task)
                &&& *final(mutex) == *old(mutex)
            },
            old(self).state_view() is Wake ==> {
                &&& final(cond_var).waiters() == old(cond_var).waiters()
                &&& final(mutex).locked()
                &&& (r is Ready <==> !old(mutex).locked())
                &&& r is Ready ==> mutex_try_lock_post(*old(mutex), *final(mutex), true)
                &&& r is Pending ==> {
                    &&& final(self).state_view() is Lock
                    &&& final(mutex).queue_view() == old(mutex).queue_view().push(task)
                    &&& final(mutex).expected_view() == old(mutex).expected_view() - 1
                    &&& final(mutex).counter_view() == old(mutex).counter_view()
                    &&& final(mutex).in_flight_view() == old(mutex).in_flight_view()
                    &&& final(mutex).handoff_owed_view() == old(mutex).handoff_owed_view()
                }
            },
            old(self).state_view() is Lock ==> r is Ready && final(cond_var).waiters() == old(cond_var).waiters() && *final(mutex) == *old(mutex),
    {
        match self.state {
            WaitState::Sleep => {
                self.state = WaitState::Wake;
                cond_var.wait_queue.push(task);
                Poll::Pending
            },
            WaitState::Wake => match mutex.try_lock_with_spinning() {
                Some(guard) => Poll::Ready(guard),
                None => {
                    self.state = WaitState::Lock;
                    mutex.low_level_subscribe(task);
                    Poll::Pending
                },
            },
            WaitState::Lock => Poll::Ready(mutex.get_locked()),
        }
    }
}

impl AsyncCondVar for LocalCondVar {
    open spec fn cond_waiters(&self) -> Seq<Task> {
        self.waiters()
    }

    /// Notified tasks run at once.
    open spec fn notify_spawns(&self) -> bool {
        false
    }

    /// The task that came last is notified first.
    open spec fn wake_order(&self, waiters: Seq<Task>) -> Seq<Task> {
        waiters.reverse()
    }

    proof fn lemma_wake_order_permutes(&self, waiters: Seq<Task>) {
        waiters.lemma_reverse_to_multiset();
    }

    fn notify_one(&mut self, sched: &mut Scheduler)
        ensures
            final(self).id() == old(self).id(),
            old(self).waiters().len() > 0 ==> final(self).waiters() == old(self).waiters().drop_last()
                && final(sched).executed_after(old(sched), seq![old(self).waiters().last()]),
    {
        LocalCondVar::notify_one(self, sched);
        proof {
            if old(self).waiters().len() > 0 {
                let w = old(self).waiters();
                assert(self.waiters().reverse() =~= w.reverse().drop_first());
                assert(w.drop_last() =~= w.remove(w.len() - 1));
                vstd::seq_lib::to_multiset_remove(w, w.len() - 1);
            }
        }
    }

    fn notify_all(&mut self, sched: &mut Scheduler)
        ensures
            final(self).id() == old(self).id(),
            final(self).waiters() == Seq::<Task>::empty(),
            final(sched).executed_after(old(sched), old(self).waiters().reverse()),
    {
        LocalCondVar::notify_all(self, sched)
    }
}

impl AsyncCondVar for CondVar {
    open spec fn cond_waiters(&self) -> Seq<Task> {
        self.waiters()
    }

    /// Notified tasks are put into the run queue.
    open spec fn notify_spawns(&self) -> bool {
        true
    }

    /// The task that came first is notified first.
    open spec fn wake_order(&self, waiters: Seq<Task>) -> Seq<Task> {
        waiters
    }

    proof fn lemma_wake_order_permutes(&self, waiters: Seq<Task>) {
    }

    fn notify_one(&mut self, sched: &mut Scheduler)
        ensures
            final(self).id() == old(self).id(),
            old(self).waiters().len() > 0 ==> final(self).waiters() == old(self).waiters().drop_first()
                && final(sched).spawned_after(old(sched), seq![old(self).waiters()[0]]),
    {
        CondVar::notify_one(self, sched);
        proof {
            if old(self).waiters().len() > 0 {
                let w = old(self).waiters();
                assert(w.drop_first() =~= w.remove(0));
                vstd::seq_lib::to_multiset_remove(w, 0);
            }
        }
    }

    fn notify_all(&mut self, sched: &mut Scheduler)
        ensures
            final(self).id() == old(self).id(),
            final(self).waiters() == Seq::<Task>::empty(),
            final(sched).spawned_after(old(sched), old(self).waiters()),
    {
        CondVar::notify_all(self, sched)
    }
}

} // verus!
