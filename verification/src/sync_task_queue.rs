//! A list of parked tasks that the shared primitives keep: [`SyncTaskList`].
use crate::task::Task;
use std::collections::VecDeque;
use vstd::prelude::*;

verus! {

/// Shrinks the capacity of `v` to at least `min_capacity`.
///
/// Calls `Vec::shrink_to`, whose documentation says that it only changes the capacity; the
/// contract states that the elements stay as they were. What capacity is left is not stated.
#[verifier::external_body]
fn vec_shrink_to(v: &mut Vec<Task>, min_capacity: usize)
    ensures
        final(v)@ == old(v)@,
{
    v.shrink_to(min_capacity)
}

/// A list of parked tasks: tasks are pushed at the end and popped from the front.
pub struct SyncTaskList {
    inner: Vec<Task>,
}

impl SyncTaskList {
    /// The tasks of the list, first pushed first.
    pub closed spec fn view(&self) -> Seq<Task> {
        self.inner@
    }

    /// Creates an empty list.
    pub fn new() -> (l: Self)
        ensures
            l@ == Seq::<Task>::empty(),
    {
        SyncTaskList { inner: Vec::new() }
    }

    /// The number of tasks in the list.
    pub fn len(&self) -> (n: usize)
        ensures
            n == self@.len(),
    {
        self.inner.len()
    }

    /// Whether the list is empty.
    pub fn is_empty(&self) -> (b: bool)
        ensures
            b == (self@.len() == 0),
    {
        self.inner.len() == 0
    }

    /// Shrinks the capacity of the list to at least `min_capacity`; the tasks stay.
    pub fn shrink_to(&mut self, min_capacity: usize)
        ensures
            final(self)@ == old(self)@,
    {
        vec_shrink_to(&mut self.inner, min_capacity)
    }

    /// Pushes `task` at the end of the list.
    pub fn push(&mut self, task: Task)
        ensures
            final(self)@ == old(self)@.push(task),
            final(self)@.len() <= usize::MAX,
    {
        self.inner.push(task);
        assert(self.inner@.len() == self.inner.len());
    }

    /// Pops the first task of the list, if there is one.
    pub fn pop(&mut self) -> (t: Option<Task>)
        ensures
            old(self)@.len() == 0 ==> t is None && final(self)@ == old(self)@,
            old(self)@.len() > 0 ==> t == Some(old(self)@[0]) && final(self)@ == old(self)@.drop_first(),
    {
        if self.inner.len() == 0 {
            None
        } else {
            let t = self.inner.remove(0);
            assert(self.inner@ =~= old(self).inner@.drop_first());
            Some(t)
        }
    }

    /// Moves all tasks of the list to the end of `tasks`, in order; the list becomes empty.
    pub fn pop_all_in(&mut self, tasks: &mut Vec<Task>)
        ensures
            final(tasks)@ == old(tasks)@ + old(self)@,
            final(self)@ == Seq::<Task>::empty(),
    {
        tasks.append(&mut self.inner)
    }

    /// Moves all tasks of the list to the back of `other_list`, in order; the list becomes
    /// empty.
    pub fn pop_all_in_deque(&mut self, other_list: &mut VecDeque<Task>)
        ensures
            final(other_list)@ == old(other_list)@ + old(self)@,
            final(self)@ == Seq::<Task>::empty(),
    {
        let n = self.inner.len();
        let mut i: usize = 0;
        while i < n
            invariant
                n == self.inner@.len(),
                self.inner@ == old(self).inner@,
                i <= n,
                other_list@ == old(other_list)@ + self.inner@.subrange(0, i as int),
            decreases n - i,
        {
            other_list.push_back(self.inner[i]);
            assert(self.inner@.subrange(0, i + 1) =~= self.inner@.subrange(0, i as int).push(
                self.inner@[i as int],
            ));
            i = i + 1;
        }
        assert(self.inner@.subrange(0, n as int) =~= self.inner@);
        self.inner.clear();
    }
}

} // verus!
