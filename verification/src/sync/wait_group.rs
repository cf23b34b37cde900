//! Wait groups: [`LocalWaitGroup`] for the tasks of one thread and [`WaitGroup`] for tasks of
//! any thread, with their futures [`WaitLocalWaitGroup`] and [`WaitSharedWaitGroup`], and the
//! interface [`AsyncWaitGroup`] that both offer.
//!
//! A wait group counts unfinished jobs; a task that waits is parked until the counter drops
//! to zero, and every parked task is woken when it does.
use crate::sync::channel_results::Poll;
use crate::sync_task_queue::SyncTaskList;
use crate::task::{fresh_id, Scheduler, Task};
use vstd::prelude::*;

verus! {

/// The interface of a wait group.
pub trait AsyncWaitGroup {
    /// The counter of unfinished jobs.
    spec fn count_view(&self) -> nat;

    /// The invariant of the wait group.
    spec fn wf(&self) -> bool;

    /// The tasks that wait for the counter to drop to zero.
    spec fn parked(&self) -> Seq<Task>;

    /// Adds `count` jobs to the counter.
    fn add(&mut self, count: usize)
        requires
            old(self).wf(),
            old(self).count_view() + count <= usize::MAX,
        ensures
            final(self).wf(),
            final(self).count_view() == old(self).count_view() + count,
            final(self).parked() == old(self).parked(),
    ;

    /// Adds one job to the counter.
    fn inc(&mut self)
        requires
            old(self).wf(),
            old(self).count_view() < usize::MAX,
        ensures
            final(self).wf(),
            final(self).count_view() == old(self).count_view() + 1,
            final(self).parked() == old(self).parked(),
    {
        self.add(1)
    }

    /// The counter of unfinished jobs.
    fn count(&self) -> (n: usize)
        ensures
            n == self.count_view(),
    ;

    /// Marks one job as finished; the counter must be positive. When the counter drops to
    /// zero, every waiting task is woken and none is left waiting; before that, the waiting
    /// tasks stay. What comes back is a counter value: which one, each wait group says.
    fn done(&mut self, sched: &mut Scheduler) -> (n: usize)
        requires
            old(self).wf(),
            old(self).count_view() > 0,
        ensures
            final(self).wf(),
            final(self).count_view() == old(self).count_view() - 1,
            final(self).count_view() > 0 ==> final(self).parked() == old(self).parked(),
            final(self).count_view() == 0 ==> final(self).parked() == Seq::<Task>::empty(),
    ;
}

/// A wait group for the tasks of one thread.
pub struct LocalWaitGroup {
    count: usize,
    waited_tasks: Vec<Task>,
    id: Ghost<int>,
}

/// The future of a wait on a [`LocalWaitGroup`]: ready once the counter is zero.
pub struct WaitLocalWaitGroup {
    wait_group_id: Ghost<int>,
}

impl LocalWaitGroup {
    /// The parked tasks, first parked first.
    pub closed spec fn waiters(&self) -> Seq<Task> {
        self.waited_tasks@
    }

    /// The identity of the wait group.
    pub closed spec fn id(&self) -> int {
        self.id@
    }

    /// Creates a wait group with a zero counter and no waiters.
    pub fn new() -> (wg: Self)
        ensures
            wg.wf(),
            wg.count_view() == 0,
            wg.waiters() == Seq::<Task>::empty(),
    {
        LocalWaitGroup { count: 0, waited_tasks: Vec::new(), id: fresh_id() }
    }

    /// Creates the future of a wait.
    pub fn wait(&self) -> (f: WaitLocalWaitGroup)
        ensures
            f.wait_group_id_view() == self.id(),
    {
        WaitLocalWaitGroup::new(self)
    }
}

impl AsyncWaitGroup for LocalWaitGroup {
    closed spec fn count_view(&self) -> nat {
        self.count as nat
    }

    open spec fn parked(&self) -> Seq<Task> {
        self.waiters()
    }

    /// Tasks wait only while the counter is positive.
    open spec fn wf(&self) -> bool {
        self.waiters().len() > 0 ==> self.count_view() > 0
    }

    fn add(&mut self, count: usize)
        ensures
            final(self).waiters() == old(self).waiters(),
            final(self).id() == old(self).id(),
    {
        self.count = self.count + count;
    }

    fn count(&self) -> (n: usize) {
        self.count
    }

    /// Returns the new value of the counter. When it is zero, the parked tasks are woken,
    /// first parked first.
    fn done(&mut self, sched: &mut Scheduler) -> (n: usize)
        ensures
            n == final(self).count_view(),
            final(self).id() == old(self).id(),
            n > 0 ==> final(self).waiters() == old(self).waiters() && final(sched).same_as(
                old(sched),
            ),
            n == 0 ==> final(self).waiters() == Seq::<Task>::empty() && final(sched).executed_after(
                old(sched),
                old(self).waiters(),
            ),
    {
        self.count = self.count - 1;
        if self.count == 0 {
            let ghost w0 = self.waited_tasks@;
            let ghost e0 = sched.executed_view();
            let n = self.waited_tasks.len();
            let mut i: usize = 0;
            while i < n
                invariant
                    n == self.waited_tasks@.len(),
                    self.waited_tasks@ == w0,
                    i <= n,
                    sched.executed_view() == e0 + w0.subrange(0, i as int),
                    sched.spawned_view() == old(sched).spawned_view(),
                decreases n - i,
            {
                sched.exec_task(self.waited_tasks[i]);
                assert(w0.subrange(0, i + 1) =~= w0.subrange(0, i as int).push(w0[i as int]));
                i = i + 1;
            }
            assert(w0.subrange(0, n as int) =~= w0);
            self.waited_tasks.clear();
        }
        self.count
    }
}

impl WaitLocalWaitGroup {
    /// The identity of the wait group that the future waits for.
    pub closed spec fn wait_group_id_view(&self) -> int {
        self.wait_group_id@
    }

    /// Creates the future of a wait for `wait_group`.
    pub fn new(wait_group: &LocalWaitGroup) -> (f: Self)
        ensures
            f.wait_group_id_view() == wait_group.id(),
    {
        WaitLocalWaitGroup { wait_group_id: Ghost(wait_group.id()) }
    }

    /// Polls the wait on behalf of `task`: ready if the counter is zero, else the task is
    /// parked and the result is [`Poll::Pending`].
    pub fn poll(&mut self, wait_group: &mut LocalWaitGroup, task: Task) -> (r: Poll<()>)
        requires
            old(wait_group).wf(),
            old(self).wait_group_id_view() == old(wait_group).id(),
        ensures
            final(wait_group).wf(),
            final(wait_group).id() == old(wait_group).id(),
            final(wait_group).count_view() == old(wait_group).count_view(),
            r is Ready <==> old(wait_group).count_view() == 0,
            r is Ready ==> final(wait_group).waiters() == old(wait_group).waiters(),
            r is Pending ==> final(wait_group).waiters() == old(wait_group).waiters().push(task),
    {
        if wait_group.count != 0 {
            wait_group.waited_tasks.push(task);
            Poll::Pending
        } else {
            Poll::Ready(())
        }
    }
}

/// A wait group for tasks of any thread.
pub struct WaitGroup {
    counter: usize,
    waited_tasks: SyncTaskList,
    id: Ghost<int>,
}

/// The future of a wait on a [`WaitGroup`].
pub struct WaitSharedWaitGroup {
    was_called: bool,
    wait_group_id: Ghost<int>,
}

impl WaitGroup {
    /// The parked tasks, first parked first.
    pub closed spec fn waiters(&self) -> Seq<Task> {
        self.waited_tasks@
    }

    /// The identity of the wait group.
    pub closed spec fn id(&self) -> int {
        self.id@
    }

    /// Creates a wait group with a zero counter and no waiters.
    pub fn new() -> (wg: Self)
        ensures
            wg.wf(),
            wg.count_view() == 0,
            wg.waiters() == Seq::<Task>::empty(),
    {
        WaitGroup { counter: 0, waited_tasks: SyncTaskList::new(), id: fresh_id() }
    }

    /// Creates the future of a wait.
    pub fn wait(&self) -> (f: WaitSharedWaitGroup)
        ensures
            !f.was_called_view(),
            f.wait_group_id_view() == self.id(),
    {
        WaitSharedWaitGroup::new(self)
    }
}

impl AsyncWaitGroup for WaitGroup {
    closed spec fn count_view(&self) -> nat {
        self.counter as nat
    }

    open spec fn parked(&self) -> Seq<Task> {
        self.waiters()
    }

    /// Tasks wait only while the counter is positive.
    open spec fn wf(&self) -> bool {
        self.waiters().len() > 0 ==> self.count_view() > 0
    }

    fn add(&mut self, count: usize)
        ensures
            final(self).waiters() == old(self).waiters(),
            final(self).id() == old(self).id(),
    {
        self.counter = self.counter + count;
    }

    fn count(&self) -> (n: usize) {
        self.counter
    }

    /// Returns the previous value of the counter. When the counter drops to zero, the parked
    /// tasks are put into the run queue, first parked first.
    fn done(&mut self, sched: &mut Scheduler) -> (n: usize)
        ensures
            n == old(self).count_view(),
            final(self).id() == old(self).id(),
            n > 1 ==> final(self).waiters() == old(self).waiters() && final(sched).same_as(
                old(sched),
            ),
            n == 1 ==> final(self).waiters() == Seq::<Task>::empty() && final(sched).spawned_after(
                old(sched),
                old(self).waiters(),
            ),
    {
        let prev_count = self.counter;
        self.counter = self.counter - 1;
        if prev_count == 1 {
            let mut tasks: Vec<Task> = Vec::new();
            self.waited_tasks.pop_all_in(&mut tasks);
            let ghost w0 = tasks@;
            let ghost s0 = sched.spawned_view();
            let n = tasks.len();
            let mut i: usize = 0;
            while i < n
                invariant
                    n == tasks@.len(),
                    tasks@ == w0,
                    i <= n,
                    sched.spawned_view() == s0 + w0.subrange(0, i as int),
                    sched.executed_view() == old(sched).executed_view(),
                decreases n - i,
            {
                sched.spawn_task(tasks[i]);
                assert(w0.subrange(0, i + 1) =~= w0.subrange(0, i as int).push(w0[i as int]));
                i = i + 1;
            }
            assert(w0.subrange(0, n as int) =~= w0);
            assert(w0 =~= old(self).waiters());
        }
        prev_count
    }
}

impl WaitSharedWaitGroup {
    /// Whether the future has parked its task.
    pub closed spec fn was_called_view(&self) -> bool {
        self.was_called
    }

    /// The identity of the wait group that the future waits for.
    pub closed spec fn wait_group_id_view(&self) -> int {
        self.wait_group_id@
    }

    /// Creates the future of a wait for `wait_group`.
    pub fn new(wait_group: &WaitGroup) -> (f: Self)
        ensures
            !f.was_called_view(),
            f.wait_group_id_view() == wait_group.id(),
    {
        WaitSharedWaitGroup { was_called: false, wait_group_id: Ghost(wait_group.id()) }
    }

    /// Polls the wait on behalf of `task`. The first poll parks the task, or, if the counter is
    /// zero already, puts it straight back into the run queue; either way the result is
    /// [`Poll::Pending`]. The poll after that is ready.
    pub fn poll(&mut self, wait_group: &mut WaitGroup, task: Task, sched: &mut Scheduler) -> (r: Poll<()>)
        requires
            old(wait_group).wf(),
            old(self).wait_group_id_view() == old(wait_group).id(),
        ensures
            final(wait_group).wf(),
            final(wait_group).id() == old(wait_group).id(),
            final(self).wait_group_id_view() == old(self).wait_group_id_view(),
            final(wait_group).count_view() == old(wait_group).count_view(),
            final(self).was_called_view(),
            old(self).was_called_view() ==> r is Ready && final(wait_group).waiters() == old(wait_group).waiters() && final(sched).same_as(old(sched)),
            !old(self).was_called_view() ==> r is Pending,
            !old(self).was_called_view() && old(wait_group).count_view() > 0 ==> final(wait_group).waiters() == old(wait_group).waiters().push(task) && final(sched).same_as(old(sched)),
            !old(self).was_called_view() && old(wait_group).count_view() == 0 ==> final(wait_group).waiters() == old(wait_group).waiters() && final(sched).spawned_after(
                old(sched),
                seq![task],
            ),
    {
        if !self.was_called {
            self.was_called = true;
            if wait_group.counter == 0 {
                sched.spawn_task(task);
            } else {
                wait_group.waited_tasks.push(task);
            }
            Poll::Pending
        } else {
            Poll::Ready(())
        }
    }
}

} // verus!
