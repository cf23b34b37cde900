//! [`ExecutorPool`]: the executors that ran a job of a test and are free for the next one.
//!
//! The free executors wait, by id, in a queue of the `crossbeam` crate. A job goes to the
//! executor that has been free longest; if none is free, the caller starts a new one. When a
//! job has finished, its handle ([`ExecutorPoolJoinHandle`]) gives the executor back.
use crossbeam::queue::SegQueue;
use vstd::prelude::*;

verus! {

/// The unbounded queue of `crossbeam`.
#[verifier::external_type_specification]
#[verifier::external_body]
#[verifier::reject_recursive_types(T)]
pub struct ExSegQueue<T>(SegQueue<T>);

/// The values in a queue, from head to tail.
pub uninterp spec fn seg_queue_contents(q: SegQueue<usize>) -> Seq<usize>;

/// Creates an empty queue.
///
/// Calls `SegQueue::new`; the contract claims that the queue holds nothing.
#[verifier::external_body]
fn seg_queue_new() -> (q: SegQueue<usize>)
    ensures
        seg_queue_contents(q) == Seq::<usize>::empty(),
{
    SegQueue::new()
}

/// Pushes `value` at the tail of `q`.
///
/// Calls `SegQueue::push`; the contract claims, as crossbeam documents, that `value` comes
/// after every value that was in the queue. The exclusive borrow rules out other threads.
#[verifier::external_body]
fn seg_queue_push(q: &mut SegQueue<usize>, value: usize)
    ensures
        seg_queue_contents(*final(q)) == seg_queue_contents(*old(q)).push(value),
{
    q.push(value)
}

/// Pops the value at the head of `q`, `None` if `q` is empty.
///
/// Calls `SegQueue::pop`; the contract claims, as crossbeam documents, that the head element
/// comes out and the rest stays in order. The exclusive borrow rules out other threads.
#[verifier::external_body]
fn seg_queue_pop(q: &mut SegQueue<usize>) -> (r: Option<usize>)
    ensures
        seg_queue_contents(*old(q)).len() == 0 ==> r is None && seg_queue_contents(*final(q))
            == seg_queue_contents(*old(q)),
        seg_queue_contents(*old(q)).len() > 0 ==> r == Some(seg_queue_contents(*old(q))[0])
            && seg_queue_contents(*final(q)) == seg_queue_contents(*old(q)).drop_first(),
{
    q.pop()
}

/// The handle of a job sent to an executor of an [`ExecutorPool`]: it names that executor,
/// which goes back to the pool when the job is joined.
pub struct ExecutorPoolJoinHandle {
    executor: usize,
}

impl ExecutorPoolJoinHandle {
    /// The id of the executor that runs the job.
    pub closed spec fn executor_view(&self) -> usize {
        self.executor
    }

    /// The id of the executor that runs the job.
    pub fn executor(&self) -> (id: usize)
        ensures
            id == self.executor_view(),
    {
        self.executor
    }

    /// Gives the executor back to `pool` once its job has finished: it becomes the last free
    /// executor.
    pub fn join(self, pool: &mut ExecutorPool)
        ensures
            join_post(old(pool).free_view(), final(pool).free_view(), self.executor_view()),
    {
        seg_queue_push(&mut pool.senders_to_executors, self.executor);
    }
}

/// The executors that are free for the next job of a test, by id.
pub struct ExecutorPool {
    senders_to_executors: SegQueue<usize>,
}

impl ExecutorPool {
    /// The ids of the free executors, free longest first.
    pub closed spec fn free_view(&self) -> Seq<usize> {
        seg_queue_contents(self.senders_to_executors)
    }

    /// Creates a pool without executors.
    pub fn new() -> (p: Self)
        ensures
            p.free_view() == Seq::<usize>::empty(),
    {
        ExecutorPool { senders_to_executors: seg_queue_new() }
    }

    /// Picks the executor for a new job: the one that has been free longest, or, if none is
    /// free, the one that `new_executor` starts.
    pub fn sched_future<F: FnOnce() -> usize>(&mut self, new_executor: F) -> (h: ExecutorPoolJoinHandle)
        requires
            old(self).free_view().len() == 0 ==> new_executor.requires(()),
        ensures
            old(self).free_view().len() > 0 ==> reuse_post(
                old(self).free_view(),
                final(self).free_view(),
                h.executor_view(),
            ),
            old(self).free_view().len() == 0 ==> new_executor.ensures((), h.executor_view())
                && final(self).free_view() == old(self).free_view(),
    {
        let executor = match seg_queue_pop(&mut self.senders_to_executors) {
            Some(id) => id,
            None => new_executor(),
        };
        ExecutorPoolJoinHandle { executor }
    }
}

/// The effect of joining a job of `executor` on the free executors `old`, leaving `new`.
pub open spec fn join_post(old: Seq<usize>, new: Seq<usize>, executor: usize) -> bool {
    new == old.push(executor)
}

/// The effect of scheduling a job on a pool whose free executors `old` are not empty: the job
/// goes to the first of them, which leaves the pool.
pub open spec fn reuse_post(old: Seq<usize>, new: Seq<usize>, executor: usize) -> bool {
    &&& executor == old[0]
    &&& new == old.drop_first()
}

/// Executors are reused in the order in which they became free: after a job of executor `e`
/// is joined, the next job goes to the executor that was free longest, and to `e` if no other
/// was free.
pub proof fn lemma_joined_executor_is_reused(
    p0: Seq<usize>,
    p1: Seq<usize>,
    p2: Seq<usize>,
    e: usize,
    next: usize,
)
    requires
        join_post(p0, p1, e),
        reuse_post(p1, p2, next),
    ensures
        p0.len() == 0 ==> next == e && p2.len() == 0,
        p0.len() > 0 ==> next == p0[0] && p2 == p0.drop_first().push(e),
{
    assert(p0.len() > 0 ==> p1.drop_first() =~= p0.drop_first().push(e));
}

} // verus!
