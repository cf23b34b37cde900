//! [`ExecutorThreadSpawner`]: the bookkeeping of the executors that a test starts, each on a
//! thread of its own.
//!
//! Starting a thread and its executor, and stopping an executor, are the work of the caller:
//! it starts the thread, waits for the id of the executor that runs there and hands that id
//! to one of the `spawn_executor_*` methods; it stops the executors whose ids
//! [`stop_spawned_executors`](ExecutorThreadSpawner::stop_spawned_executors) hands back.
use vstd::prelude::*;

verus! {

/// The ids of the executors that a test has started, in the order in which they started,
/// and whether those executors share work.
pub struct ExecutorThreadSpawner {
    ids_of_executors: Vec<usize>,
    work_sharing: bool,
}

impl ExecutorThreadSpawner {
    /// The ids of the running executors, first started first.
    pub closed spec fn ids_view(&self) -> Seq<usize> {
        self.ids_of_executors@
    }

    /// Whether the executors that this spawner starts share work.
    pub closed spec fn work_sharing_view(&self) -> bool {
        self.work_sharing
    }

    /// Creates a spawner whose executors share work or not, as `work_sharing_enabled` says.
    ///
    /// Executors that share work may only be started by a test that holds the lock of the
    /// tests that share work: `work_sharing_lock_is_free` says whether that lock was free.
    pub fn with_config(work_sharing_enabled: bool, work_sharing_lock_is_free: bool) -> (s: Self)
        requires
            !(work_sharing_enabled && work_sharing_lock_is_free),
        ensures
            s.ids_view() == Seq::<usize>::empty(),
            s.work_sharing_view() == work_sharing_enabled,
    {
        ExecutorThreadSpawner { ids_of_executors: Vec::new(), work_sharing: work_sharing_enabled }
    }

    /// Creates a spawner whose executors do not share work.
    pub fn default() -> (s: Self)
        ensures
            s.ids_view() == Seq::<usize>::empty(),
            !s.work_sharing_view(),
    {
        Self::with_config(false, true)
    }

    /// Whether the executors that this spawner starts share work.
    pub fn is_work_sharing_enabled(&self) -> (b: bool)
        ensures
            b == self.work_sharing_view(),
    {
        self.work_sharing
    }

    /// Records the executor `executor_id`, started on a new thread that blocks on a local
    /// future.
    pub fn spawn_executor_and_block_on_local(&mut self, executor_id: usize)
        ensures
            final(self).ids_view() == old(self).ids_view().push(executor_id),
            final(self).work_sharing_view() == old(self).work_sharing_view(),
    {
        self.ids_of_executors.push(executor_id);
    }

    /// Records the executor `executor_id`, started on a new thread that blocks on a shared
    /// future.
    pub fn spawn_executor_and_block_on_global(&mut self, executor_id: usize)
        ensures
            final(self).ids_view() == old(self).ids_view().push(executor_id),
            final(self).work_sharing_view() == old(self).work_sharing_view(),
    {
        self.ids_of_executors.push(executor_id);
    }

    /// Records the executor `executor_id`, started on a new thread that runs a local future.
    pub fn spawn_executor_and_spawn_local(&mut self, executor_id: usize)
        ensures
            final(self).ids_view() == old(self).ids_view().push(executor_id),
            final(self).work_sharing_view() == old(self).work_sharing_view(),
    {
        self.ids_of_executors.push(executor_id);
    }

    /// Records the executor `executor_id`, started on a new thread that runs a shared future.
    pub fn spawn_executor_and_spawn_global(&mut self, executor_id: usize)
        ensures
            final(self).ids_view() == old(self).ids_view().push(executor_id),
            final(self).work_sharing_view() == old(self).work_sharing_view(),
    {
        self.ids_of_executors.push(executor_id);
    }

    /// The ids of the running executors, first started first.
    pub fn ids_of_executors(&self) -> (ids: &[usize])
        ensures
            ids@ == self.ids_view(),
    {
        self.ids_of_executors.as_slice()
    }

    /// Forgets every running executor and hands back their ids, first started first, for the
    /// caller to stop them.
    pub fn stop_spawned_executors(&mut self) -> (stopped: Vec<usize>)
        ensures
            stopped@ == old(self).ids_view(),
            final(self).ids_view() == Seq::<usize>::empty(),
            final(self).work_sharing_view() == old(self).work_sharing_view(),
    {
        let mut stopped: Vec<usize> = Vec::new();
        let mut i: usize = 0;
        while i < self.ids_of_executors.len()
            invariant
                i <= self.ids_of_executors@.len(),
                self.ids_of_executors@ == old(self).ids_of_executors@,
                self.work_sharing == old(self).work_sharing,
                stopped@ == self.ids_of_executors@.subrange(0, i as int),
            decreases self.ids_of_executors@.len() - i,
        {
            stopped.push(self.ids_of_executors[i]);
            i = i + 1;
        }
        self.ids_of_executors.clear();
        stopped
    }
}

} // verus!
