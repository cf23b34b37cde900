//! The state of a read-write lock of one thread and its transitions, shared by
//! [`LocalRWLock`](crate::sync::local_rw_lock::LocalRWLock) and
//! [`LocalRWMutex`](crate::sync::local_rw_mutex::LocalRWMutex).
//!
//! The number of readers is `-1` while a writer holds the lock, `0` while nobody holds it, and
//! the number of readers while readers hold it. Waiting readers and writers are kept in two
//! lists and woken from the back. A released write lock goes to a waiting writer if there is
//! one, and else to all waiting readers at once; the last reader hands the lock to a waiting
//! writer.
use crate::task::{fresh_id, Scheduler, Task};
use vstd::prelude::*;

verus! {

/// The state of a read-write lock.
///
/// [`Unlocked`](LockStatus::Unlocked): nobody holds the lock.
/// [`WriteLocked`](LockStatus::WriteLocked): one writer holds the lock.
/// [`ReadLocked`](LockStatus::ReadLocked): that many readers hold the lock.
#[derive(Debug, PartialEq, Eq, Structural)]
pub enum LockStatus {
    /// Nobody holds the lock.
    Unlocked,
    /// One writer holds the lock.
    WriteLocked,
    /// That many readers hold the lock.
    ReadLocked(usize),
}

/// The status that a number of readers stands for.
pub open spec fn status_of(number_of_readers: int) -> LockStatus {
    if number_of_readers == 0 {
        LockStatus::Unlocked
    } else if number_of_readers > 0 {
        LockStatus::ReadLocked(number_of_readers as usize)
    } else {
        LockStatus::WriteLocked
    }
}

/// The effect of a try to take the write lock of `old` that leaves `new`: it succeeds exactly
/// when nobody holds the lock, and then the writer holds it; the waiters stay.
pub open spec fn try_write_post(old: RwLockState, new: RwLockState, acquired: bool) -> bool {
    &&& new.wf()
    &&& new.id() == old.id()
    &&& acquired == (old.readers() == 0)
    &&& new.readers() == if acquired {
        -1
    } else {
        old.readers()
    }
    &&& new.read_waiters() == old.read_waiters()
    &&& new.write_waiters() == old.write_waiters()
}

/// The effect of a try to take a read lock of `old` that leaves `new`: it succeeds exactly when
/// no writer holds the lock, and then one more reader holds it; the waiters stay.
pub open spec fn try_read_post(old: RwLockState, new: RwLockState, acquired: bool) -> bool {
    &&& new.wf()
    &&& new.id() == old.id()
    &&& acquired == (old.readers() > -1)
    &&& new.readers() == if acquired {
        old.readers() + 1
    } else {
        old.readers()
    }
    &&& new.read_waiters() == old.read_waiters()
    &&& new.write_waiters() == old.write_waiters()
}

/// The state of a read-write lock of one thread.
pub struct RwLockState {
    wait_queue_read: Vec<Task>,
    wait_queue_write: Vec<Task>,
    number_of_readers: isize,
    id: Ghost<int>,
}

impl RwLockState {
    /// `-1` while written, `0` while free, else the number of readers.
    pub closed spec fn readers(&self) -> int {
        self.number_of_readers as int
    }

    /// The identity of the lock, which its tokens and futures record.
    pub closed spec fn id(&self) -> int {
        self.id@
    }

    /// The parked readers, in the order in which they were parked.
    pub closed spec fn read_waiters(&self) -> Seq<Task> {
        self.wait_queue_read@
    }

    /// The parked writers, in the order in which they were parked.
    pub closed spec fn write_waiters(&self) -> Seq<Task> {
        self.wait_queue_write@
    }

    /// The invariant of the lock: readers wait only while a writer holds the lock, and writers
    /// wait only while somebody holds it.
    pub open spec fn wf(&self) -> bool {
        &&& self.readers() >= -1
        &&& self.read_waiters().len() > 0 ==> self.readers() == -1
        &&& self.write_waiters().len() > 0 ==> self.readers() != 0
        &&& self.read_waiters().len() <= isize::MAX
    }

    /// Creates a free lock without waiters.
    pub fn new() -> (s: Self)
        ensures
            s.wf(),
            s.readers() == 0,
            s.read_waiters() == Seq::<Task>::empty(),
            s.write_waiters() == Seq::<Task>::empty(),
    {
        RwLockState {
            wait_queue_read: Vec::new(),
            wait_queue_write: Vec::new(),
            number_of_readers: 0,
            id: fresh_id(),
        }
    }

    /// `-1` while written, `0` while free, else the number of readers.
    pub fn number_of_readers(&self) -> (n: isize)
        ensures
            n == self.readers(),
    {
        self.number_of_readers
    }

    /// The status of the lock.
    pub fn get_lock_status(&self) -> (s: LockStatus)
        ensures
            s == status_of(self.readers()),
            self.readers() > 0 ==> (s matches LockStatus::ReadLocked(k) && k == self.readers()),
            self.readers() == 0 ==> s == LockStatus::Unlocked,
            self.readers() < 0 ==> s == LockStatus::WriteLocked,
    {
        if self.number_of_readers == 0 {
            LockStatus::Unlocked
        } else if self.number_of_readers > 0 {
            LockStatus::ReadLocked(self.number_of_readers as usize)
        } else {
            LockStatus::WriteLocked
        }
    }

    /// Takes the write lock if the lock is free.
    pub fn try_write(&mut self) -> (acquired: bool)
        requires
            old(self).wf(),
        ensures
            try_write_post(*old(self), *final(self), acquired),
    {
        if self.number_of_readers == 0 {
            self.number_of_readers = -1;
            true
        } else {
            false
        }
    }

    /// Takes a read lock if no writer holds the lock.
    pub fn try_read(&mut self) -> (acquired: bool)
        requires
            old(self).wf(),
            old(self).readers() < isize::MAX,
        ensures
            try_read_post(*old(self), *final(self), acquired),
    {
        if self.number_of_readers > -1 {
            self.number_of_readers = self.number_of_readers + 1;
            true
        } else {
            false
        }
    }

    /// Parks `task` as a reader; a writer holds the lock.
    pub fn park_reader(&mut self, task: Task)
        requires
            old(self).wf(),
            old(self).readers() == -1,
            old(self).read_waiters().len() < isize::MAX,
        ensures
            final(self).id() == old(self).id(),
            final(self).wf(),
            final(self).readers() == old(self).readers(),
            final(self).read_waiters() == old(self).read_waiters().push(task),
            final(self).write_waiters() == old(self).write_waiters(),
    {
        self.wait_queue_read.push(task);
    }

    /// Parks `task` as a writer; somebody holds the lock.
    pub fn park_writer(&mut self, task: Task)
        requires
            old(self).wf(),
            old(self).readers() != 0,
        ensures
            final(self).id() == old(self).id(),
            final(self).wf(),
            final(self).readers() == old(self).readers(),
            final(self).read_waiters() == old(self).read_waiters(),
            final(self).write_waiters() == old(self).write_waiters().push(task),
    {
        self.wait_queue_write.push(task);
    }

    /// Releases a read lock. When the last reader leaves and a writer waits, the writer that
    /// was parked last takes the write lock and is woken.
    pub fn read_unlock(&mut self, sched: &mut Scheduler)
        requires
            old(self).wf(),
            old(self).readers() > 0,
        ensures
            final(self).id() == old(self).id(),
            final(self).wf(),
            final(self).read_waiters() == old(self).read_waiters(),
            old(self).readers() > 1 || old(self).write_waiters().len() == 0 ==> {
                &&& final(self).readers() == old(self).readers() - 1
                &&& final(self).write_waiters() == old(self).write_waiters()
                &&& final(sched).same_as(old(sched))
            },
            old(self).readers() == 1 && old(self).write_waiters().len() > 0 ==> {
                &&& final(self).readers() == -1
                &&& final(self).write_waiters() == old(self).write_waiters().drop_last()
                &&& final(sched).executed_after(old(sched), seq![old(self).write_waiters().last()])
            },
    {
        self.number_of_readers = self.number_of_readers - 1;
        if self.number_of_readers == 0 {
            match self.wait_queue_write.pop() {
                Some(task) => {
                    self.number_of_readers = -1;
                    sched.exec_task(task);
                },
                None => {},
            }
        }
    }

    /// Releases the write lock. If a writer waits, the writer that was parked last takes the
    /// lock and is woken. Else every waiting reader takes a read lock, and they are woken from
    /// the last parked to the first.
    pub fn write_unlock(&mut self, sched: &mut Scheduler)
        requires
            old(self).wf(),
            old(self).readers() == -1,
        ensures
            final(self).id() == old(self).id(),
            final(self).wf(),
            old(self).write_waiters().len() > 0 ==> {
                &&& final(self).readers() == -1
                &&& final(self).write_waiters() == old(self).write_waiters().drop_last()
                &&& final(self).read_waiters() == old(self).read_waiters()
                &&& final(sched).executed_after(old(sched), seq![old(self).write_waiters().last()])
            },
            old(self).write_waiters().len() == 0 ==> {
                &&& final(self).readers() == old(self).read_waiters().len()
                &&& final(self).read_waiters() == Seq::<Task>::empty()
                &&& final(self).write_waiters() == old(self).write_waiters()
                &&& final(sched).executed_after(old(sched), old(self).read_waiters().reverse())
            },
    {
        match self.wait_queue_write.pop() {
            Some(task) => {
                sched.exec_task(task);
            },
            None => {
                let ghost r0 = self.wait_queue_read@;
                let ghost e0 = sched.executed_view();
                let mut readers_count = self.wait_queue_read.len();
                self.number_of_readers = readers_count as isize;
                while readers_count > 0
                    invariant
                        readers_count == self.wait_queue_read@.len(),
                        r0.len() >= readers_count,
                        self.wait_queue_read@ == r0.subrange(0, readers_count as int),
                        sched.executed_view() == e0 + r0.subrange(readers_count as int, r0.len() as int).reverse(),
                        sched.spawned_view() == old(sched).spawned_view(),
                        self.number_of_readers == r0.len(),
                        self.wait_queue_write@.len() == 0,
                        self.id == old(self).id,
                    decreases readers_count,
                {
                    let task = match self.wait_queue_read.pop() {
                        Some(t) => t,
                        None => vstd::pervasive::unreached(),
                    };
                    sched.exec_task(task);
                    readers_count = readers_count - 1;
                    assert(r0.subrange(readers_count as int, r0.len() as int).reverse() =~= r0.subrange(
                        readers_count + 1,
                        r0.len() as int,
                    ).reverse().push(task));
                    assert(self.wait_queue_read@ =~= r0.subrange(0, readers_count as int));
                }
                assert(r0.subrange(0, r0.len() as int) =~= r0);
                assert(self.wait_queue_read@ =~= Seq::<Task>::empty());
                assert(self.wait_queue_write@ =~= old(self).wait_queue_write@);
            },
        }
    }
}

/// The status of a lock is exactly one of: free, held by one writer, or held by a positive
/// number of readers.
pub proof fn lemma_exclusive_status(s: RwLockState)
    requires
        s.wf(),
    ensures
        status_of(s.readers()) is WriteLocked <==> s.readers() == -1,
        status_of(s.readers()) is Unlocked <==> s.readers() == 0,
        status_of(s.readers()) is ReadLocked <==> s.readers() > 0,
{
}

/// A read-locked status counts the readers that hold the lock: whenever a positive number of
/// readers hold it, the status is `ReadLocked` with exactly that number.
pub proof fn lemma_read_status_counts_readers(s: RwLockState)
    requires
        s.wf(),
        s.readers() > 0,
    ensures
        status_of(s.readers()) matches LockStatus::ReadLocked(k) && k == s.readers(),
{
}

/// Each read lock taken adds one to the count that the status reports: after a successful try
/// to read, the status is `ReadLocked` with one more reader than held the lock before.
pub proof fn lemma_read_adds_one_to_status(s0: RwLockState, s1: RwLockState)
    requires
        s0.wf(),
        try_read_post(s0, s1, true),
    ensures
        s0.readers() >= 0,
        status_of(s1.readers()) matches LockStatus::ReadLocked(k) && k == s0.readers() + 1,
{
}

/// A writer excludes readers: once the write lock is taken, a try to read fails and the
/// writer keeps the lock.
pub proof fn lemma_writer_excludes_readers(
    s0: RwLockState,
    s1: RwLockState,
    s2: RwLockState,
    wrote: bool,
    read: bool,
)
    requires
        s0.wf(),
        try_write_post(s0, s1, wrote),
        wrote,
        try_read_post(s1, s2, read),
    ensures
        !read,
        s2.readers() == -1,
{
}

/// Readers exclude a writer: once a read lock is taken, a try to write fails and the readers
/// keep the lock.
pub proof fn lemma_readers_exclude_writer(
    s0: RwLockState,
    s1: RwLockState,
    s2: RwLockState,
    read: bool,
    wrote: bool,
)
    requires
        s0.wf(),
        try_read_post(s0, s1, read),
        read,
        try_write_post(s1, s2, wrote),
    ensures
        !wrote,
        s2.readers() == s1.readers() > 0,
{
}

/// Readers share the lock: on a lock that no writer holds, two tries to read both succeed
/// and both readers hold the lock.
pub proof fn lemma_readers_share(
    s0: RwLockState,
    s1: RwLockState,
    s2: RwLockState,
    r1: bool,
    r2: bool,
)
    requires
        s0.wf(),
        s0.readers() >= 0,
        try_read_post(s0, s1, r1),
        try_read_post(s1, s2, r2),
    ensures
        r1,
        r2,
        s2.readers() == s0.readers() + 2,
{
}

} // verus!
