//! Tasks and the scheduler that runs the tasks woken by the primitives.
use vstd::prelude::*;

verus! {

/// A handle of a task of the engine.
///
/// A primitive that parks a task keeps its handle, and hands it to the
/// [`Scheduler`] when the task has to run again.
#[derive(Clone, Copy, PartialEq, Eq, Structural, Debug)]
pub struct Task {
    /// The identifier of the task.
    pub id: u64,
}

impl Task {
    /// Creates a handle for the task with the given identifier.
    pub fn new(id: u64) -> (task: Task)
        ensures
            task.id == id,
    {
        Task { id }
    }
}

/// The tasks that the primitives made runnable, in order.
///
/// `executed` holds the tasks that have to run at once (`exec_task`),
/// `spawned` the tasks that were put into a run queue (`spawn_*_task`).
pub struct Scheduler {
    executed: Vec<Task>,
    spawned: Vec<Task>,
}

impl Scheduler {
    /// The tasks handed to `exec_task`, oldest first.
    pub closed spec fn executed_view(&self) -> Seq<Task> {
        self.executed@
    }

    /// The tasks handed to `spawn_task`, oldest first.
    pub closed spec fn spawned_view(&self) -> Seq<Task> {
        self.spawned@
    }

    /// Creates a scheduler that has run nothing.
    pub fn new() -> (s: Scheduler)
        ensures
            s.executed_view() == Seq::<Task>::empty(),
            s.spawned_view() == Seq::<Task>::empty(),
    {
        Scheduler { executed: Vec::new(), spawned: Vec::new() }
    }

    /// Runs `task` at once.
    pub fn exec_task(&mut self, task: Task)
        ensures
            final(self).executed_view() == old(self).executed_view().push(task),
            final(self).spawned_view() == old(self).spawned_view(),
            final(self).executed_after(old(self), seq![task]),
    {
        self.executed.push(task);
        assert(self.executed@ =~= old(self).executed@ + seq![task]);
    }

    /// Puts `task` into the run queue.
    pub fn spawn_task(&mut self, task: Task)
        ensures
            final(self).spawned_view() == old(self).spawned_view().push(task),
            final(self).executed_view() == old(self).executed_view(),
            final(self).spawned_after(old(self), seq![task]),
    {
        self.spawned.push(task);
        assert(self.spawned@ =~= old(self).spawned@ + seq![task]);
    }

    /// Nothing was run or spawned between `old` and `self`.
    pub open spec fn same_as(&self, old: &Scheduler) -> bool {
        &&& self.executed_view() == old.executed_view()
        &&& self.spawned_view() == old.spawned_view()
    }

    /// Exactly `tasks` were run, in order, between `old` and `self`, and nothing was spawned.
    pub open spec fn executed_after(&self, old: &Scheduler, tasks: Seq<Task>) -> bool {
        &&& self.executed_view() == old.executed_view() + tasks
        &&& self.spawned_view() == old.spawned_view()
    }

    /// Exactly `tasks` were spawned, in order, between `old` and `self`, and nothing was run.
    pub open spec fn spawned_after(&self, old: &Scheduler, tasks: Seq<Task>) -> bool {
        &&& self.spawned_view() == old.spawned_view() + tasks
        &&& self.executed_view() == old.executed_view()
    }

    /// The tasks woken so far the way `spawn` says: queued if it holds, run at once if not.
    pub open spec fn woken_view(&self, spawn: bool) -> Seq<Task> {
        if spawn {
            self.spawned_view()
        } else {
            self.executed_view()
        }
    }

    /// `self` is `old` after `tasks` were woken, in order, the way `spawn` says.
    pub open spec fn woken_after(&self, old: &Scheduler, tasks: Seq<Task>, spawn: bool) -> bool {
        if spawn {
            self.spawned_after(old, tasks)
        } else {
            self.executed_after(old, tasks)
        }
    }

    /// Wakes `task`: puts it into the run queue if `spawn` holds, else runs it at once.
    pub fn wake(&mut self, task: Task, spawn: bool)
        ensures
            final(self).woken_after(old(self), seq![task], spawn),
    {
        if spawn {
            self.spawn_task(task)
        } else {
            self.exec_task(task)
        }
    }

    /// The tasks handed to `exec_task`, oldest first.
    pub fn executed(&self) -> (r: &Vec<Task>)
        ensures
            r@ == self.executed_view(),
    {
        &self.executed
    }

    /// The tasks handed to `spawn_task`, oldest first.
    pub fn spawned(&self) -> (r: &Vec<Task>)
        ensures
            r@ == self.spawned_view(),
    {
        &self.spawned
    }
}

/// The tasks of a sequence of pairs whose first member is a task.
pub open spec fn tasks_of<X>(s: Seq<(Task, X)>) -> Seq<Task> {
    s.map_values(|p: (Task, X)| p.0)
}

/// The index of the first pair of `s` whose task is `task`, if `i` is that index.
pub open spec fn is_first_index_of<X>(s: Seq<(Task, X)>, task: Task, i: int) -> bool {
    &&& 0 <= i < s.len()
    &&& s[i].0 == task
    &&& forall|j: int| 0 <= j < i ==> s[j].0 != task
}

/// Whether some pair of `s` has the task `task`.
pub open spec fn has_task<X>(s: Seq<(Task, X)>, task: Task) -> bool {
    exists|i: int| 0 <= i < s.len() && s[i].0 == task
}

/// Removes the first pair of `pairs` whose task is `task`, and returns its second member.
pub fn take_by_task<X>(pairs: &mut Vec<(Task, X)>, task: Task) -> (r: Option<X>)
    ensures
        match r {
            Some(x) => exists|i: int|
                #![trigger old(pairs)@[i]]
                is_first_index_of(old(pairs)@, task, i) && x == old(pairs)@[i].1
                    && final(pairs)@ == old(pairs)@.remove(i),
            None => !has_task(old(pairs)@, task) && final(pairs)@ == old(pairs)@,
        },
{
    let mut i: usize = 0;
    while i < pairs.len()
        invariant
            i <= pairs@.len(),
            pairs@ == old(pairs)@,
            forall|j: int| 0 <= j < i ==> pairs@[j].0 != task,
        decreases pairs@.len() - i,
    {
        if pairs[i].0 == task {
            let p = pairs.remove(i);
            proof {
                assert(is_first_index_of(old(pairs)@, task, i as int));
            }
            return Some(p.1);
        }
        i = i + 1;
    }
    None
}

/// A new identity for a primitive. Nothing is known of it: the tokens and futures of a
/// primitive record its identity, and its operations ask for theirs, so that a token of one
/// primitive can be shown to fit only the primitive that it came from.
pub(crate) fn fresh_id() -> Ghost<int> {
    Ghost(0)
}

} // verus!
