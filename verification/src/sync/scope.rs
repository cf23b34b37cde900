//! Scopes that run tasks and wait for all of them: [`LocalScope`] for the tasks of one thread
//! and [`Scope`] for tasks of any thread.
//!
//! A scope counts its unfinished tasks in a wait group: starting a task adds one, the
//! task's handle marks it done when the task's future is ready, and the scope's owner waits
//! until the count is zero.
use crate::sync::channel_results::Poll;
use crate::sync::wait_group::{
    AsyncWaitGroup, LocalWaitGroup, WaitGroup, WaitLocalWaitGroup, WaitSharedWaitGroup,
};
use crate::task::{Scheduler, Task};
use vstd::prelude::*;

verus! {

/// A scope for the tasks of one thread.
pub struct LocalScope {
    wg: LocalWaitGroup,
}

/// The handle that a [`LocalScope`] wraps around each of its tasks.
pub struct LocalScopedHandle {
    finished: bool,
    scope_id: Ghost<int>,
}

/// Creates the scope of a `local_scope` call: its owner starts tasks in it, and then awaits
/// [`LocalScope::wait`].
pub fn local_scope() -> (s: LocalScope)
    ensures
        s.wf(),
        s.unfinished() == 0,
{
    LocalScope { wg: LocalWaitGroup::new() }
}

impl LocalScope {
    /// The number of tasks of the scope that have not finished.
    pub closed spec fn unfinished(&self) -> nat {
        self.wg.count_view()
    }

    /// The identity of the scope.
    pub closed spec fn id(&self) -> int {
        self.wg.id()
    }

    /// The tasks that wait for the scope, first parked first.
    pub closed spec fn waiters(&self) -> Seq<Task> {
        self.wg.waiters()
    }

    /// The invariant of the scope.
    pub open spec fn wf(&self) -> bool {
        self.waiters().len() > 0 ==> self.unfinished() > 0
    }

    /// Starts `task` in the scope and runs it at once; returns the handle of the task.
    pub fn exec(&mut self, task: Task, sched: &mut Scheduler) -> (h: LocalScopedHandle)
        requires
            old(self).wf(),
            old(self).unfinished() < usize::MAX,
        ensures
            final(self).id() == old(self).id(),
            h.scope_id_view() == old(self).id(),
            final(self).wf(),
            final(self).unfinished() == old(self).unfinished() + 1,
            final(self).waiters() == old(self).waiters(),
            final(sched).executed_after(old(sched), seq![task]),
            !h.finished_view(),
    {
        self.wg.add(1);
        sched.exec_task(task);
        LocalScopedHandle { finished: false, scope_id: Ghost(self.id()) }
    }

    /// Starts `task` in the scope by putting it into the run queue; returns the handle of the
    /// task.
    pub fn spawn(&mut self, task: Task, sched: &mut Scheduler) -> (h: LocalScopedHandle)
        requires
            old(self).wf(),
            old(self).unfinished() < usize::MAX,
        ensures
            final(self).id() == old(self).id(),
            h.scope_id_view() == old(self).id(),
            final(self).wf(),
            final(self).unfinished() == old(self).unfinished() + 1,
            final(self).waiters() == old(self).waiters(),
            final(sched).spawned_after(old(sched), seq![task]),
            !h.finished_view(),
    {
        self.wg.add(1);
        sched.spawn_task(task);
        LocalScopedHandle { finished: false, scope_id: Ghost(self.id()) }
    }

    /// One poll of the owner's wait for the scope (see [`WaitLocalWaitGroup::poll`]): ready once
    /// every task of the scope has finished.
    pub fn wait(&mut self, task: Task) -> (r: Poll<()>)
        requires
            old(self).wf(),
        ensures
            final(self).id() == old(self).id(),
            final(self).wf(),
            final(self).unfinished() == old(self).unfinished(),
            r is Ready <==> old(self).unfinished() == 0,
            r is Pending ==> final(self).waiters() == old(self).waiters().push(task),
            r is Ready ==> final(self).waiters() == old(self).waiters(),
    {
        let mut w = WaitLocalWaitGroup::new(&self.wg);
        w.poll(&mut self.wg, task)
    }
}

impl LocalScopedHandle {
    /// Whether the task of the handle has finished.
    pub closed spec fn finished_view(&self) -> bool {
        self.finished
    }

    /// The identity of the scope that the handle belongs to.
    pub closed spec fn scope_id_view(&self) -> int {
        self.scope_id@
    }

    /// Polls the handle with `inner`, the result of polling the task's own future: when the
    /// future is ready, the task is marked done in the scope, and the tasks that wait for the
    /// scope are woken if it was the last one.
    pub fn poll(&mut self, scope: &mut LocalScope, inner: Poll<()>, sched: &mut Scheduler) -> (r: Poll<()>)
        requires
            old(self).scope_id_view() == old(scope).id(),
            old(scope).wf(),
            !old(self).finished_view(),
            old(scope).unfinished() > 0,
        ensures
            final(scope).id() == old(scope).id(),
            final(self).scope_id_view() == old(self).scope_id_view(),
            final(scope).wf(),
            r == inner,
            inner is Pending ==> *final(scope) == *old(scope) && final(sched).same_as(old(sched))
                && !final(self).finished_view(),
            inner is Ready ==> {
                &&& final(self).finished_view()
                &&& final(scope).unfinished() == old(scope).unfinished() - 1
                &&& final(scope).unfinished() > 0 ==> final(scope).waiters() == old(scope).waiters() && final(sched).same_as(old(sched))
                &&& final(scope).unfinished() == 0 ==> final(scope).waiters() == Seq::<
                    Task,
                >::empty() && final(sched).executed_after(old(sched), old(scope).waiters())
            },
    {
        if let Poll::Ready(()) = &inner {
            scope.wg.done(sched);
            self.finished = true;
        }
        inner
    }
}

/// A scope for tasks of any thread.
pub struct Scope {
    wg: WaitGroup,
}

/// The handle that a [`Scope`] wraps around each of its tasks.
pub struct ScopedHandle {
    finished: bool,
    scope_id: Ghost<int>,
}

/// Creates the scope of a `shared_scope` call: its owner starts tasks in it, and then awaits
/// the scope's wait.
pub fn shared_scope() -> (s: Scope)
    ensures
        s.wf(),
        s.unfinished() == 0,
{
    Scope { wg: WaitGroup::new() }
}

impl Scope {
    /// The number of tasks of the scope that have not finished.
    pub closed spec fn unfinished(&self) -> nat {
        self.wg.count_view()
    }

    /// The identity of the scope.
    pub closed spec fn id(&self) -> int {
        self.wg.id()
    }

    /// The tasks that wait for the scope, first parked first.
    pub closed spec fn waiters(&self) -> Seq<Task> {
        self.wg.waiters()
    }

    /// The invariant of the scope.
    pub open spec fn wf(&self) -> bool {
        self.waiters().len() > 0 ==> self.unfinished() > 0
    }

    /// Starts `task` in the scope and runs it at once; returns the handle of the task.
    pub fn exec(&mut self, task: Task, sched: &mut Scheduler) -> (h: ScopedHandle)
        requires
            old(self).wf(),
            old(self).unfinished() < usize::MAX,
        ensures
            final(self).id() == old(self).id(),
            h.scope_id_view() == old(self).id(),
            final(self).wf(),
            final(self).unfinished() == old(self).unfinished() + 1,
            final(self).waiters() == old(self).waiters(),
            final(sched).executed_after(old(sched), seq![task]),
            !h.finished_view(),
    {
        self.wg.add(1);
        sched.exec_task(task);
        ScopedHandle { finished: false, scope_id: Ghost(self.id()) }
    }

    /// Starts `task` in the scope by putting it into the run queue; returns the handle of the
    /// task.
    pub fn spawn(&mut self, task: Task, sched: &mut Scheduler) -> (h: ScopedHandle)
        requires
            old(self).wf(),
            old(self).unfinished() < usize::MAX,
        ensures
            final(self).id() == old(self).id(),
            h.scope_id_view() == old(self).id(),
            final(self).wf(),
            final(self).unfinished() == old(self).unfinished() + 1,
            final(self).waiters() == old(self).waiters(),
            final(sched).spawned_after(old(sched), seq![task]),
            !h.finished_view(),
    {
        self.wg.add(1);
        sched.spawn_task(task);
        ScopedHandle { finished: false, scope_id: Ghost(self.id()) }
    }

    /// Creates the owner's wait for the scope (see [`WaitSharedWaitGroup::poll`]).
    pub fn wait(&self) -> (f: WaitSharedWaitGroup)
        ensures
            !f.was_called_view(),
            f.wait_group_id_view() == self.id(),
    {
        self.wg.wait()
    }

    /// One poll of the owner's wait for the scope, made by `task` (see
    /// [`WaitSharedWaitGroup::poll`]).
    pub fn poll_wait(&mut self, wait: &mut WaitSharedWaitGroup, task: Task, sched: &mut Scheduler) -> (r:
        Poll<()>)
        requires
            old(wait).wait_group_id_view() == old(self).id(),
            old(self).wf(),
        ensures
            final(self).id() == old(self).id(),
            final(wait).wait_group_id_view() == old(wait).wait_group_id_view(),
            final(self).wf(),
            final(self).unfinished() == old(self).unfinished(),
            final(wait).was_called_view(),
            old(wait).was_called_view() ==> r is Ready && final(self).waiters() == old(self).waiters() && final(sched).same_as(old(sched)),
            !old(wait).was_called_view() ==> r is Pending,
            !old(wait).was_called_view() && old(self).unfinished() > 0 ==> final(self).waiters()
                == old(self).waiters().push(task) && final(sched).same_as(old(sched)),
            !old(wait).was_called_view() && old(self).unfinished() == 0 ==> final(self).waiters()
                == old(self).waiters() && final(sched).spawned_after(old(sched), seq![task]),
    {
        wait.poll(&mut self.wg, task, sched)
    }
}

impl ScopedHandle {
    /// Whether the task of the handle has finished.
    pub closed spec fn finished_view(&self) -> bool {
        self.finished
    }

    /// The identity of the scope that the handle belongs to.
    pub closed spec fn scope_id_view(&self) -> int {
        self.scope_id@
    }

    /// Polls the handle with `inner`, the result of polling the task's own future: when the
    /// future is ready, the task is marked done in the scope, and the tasks that wait for the
    /// scope go into the run queue if it was the last one.
    pub fn poll(&mut self, scope: &mut Scope, inner: Poll<()>, sched: &mut Scheduler) -> (r: Poll<()>)
        requires
            old(self).scope_id_view() == old(scope).id(),
            old(scope).wf(),
            !old(self).finished_view(),
            old(scope).unfinished() > 0,
        ensures
            final(scope).id() == old(scope).id(),
            final(self).scope_id_view() == old(self).scope_id_view(),
            final(scope).wf(),
            r == inner,
            inner is Pending ==> *final(scope) == *old(scope) && final(sched).same_as(old(sched))
                && !final(self).finished_view(),
            inner is Ready ==> {
                &&& final(self).finished_view()
                &&& final(scope).unfinished() == old(scope).unfinished() - 1
                &&& final(scope).unfinished() > 0 ==> final(scope).waiters() == old(scope).waiters() && final(sched).same_as(old(sched))
                &&& final(scope).unfinished() == 0 ==> final(scope).waiters() == Seq::<
                    Task,
                >::empty() && final(sched).spawned_after(old(sched), old(scope).waiters())
            },
    {
        if let Poll::Ready(()) = &inner {
            scope.wg.done(sched);
            self.finished = true;
        }
        inner
    }
}

} // verus!
