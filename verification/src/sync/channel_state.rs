//! The state of a channel and its transitions, shared by the local and the shared channel.
//!
//! A channel holds a buffer of at most `capacity` values, the senders that wait for room
//! (each with the value it sends) and the receivers that wait for a value. A sender that finds
//! a waiting receiver hands its value to that receiver directly; a receiver that takes a value
//! out of a full buffer lets the first waiting sender put its value into the buffer.
//! A parked task learns how its operation ended from the outcome that the channel records
//! for it when it is woken.
use crate::sync::channel_results::{RecvResult, SendResult, TryRecvResult, TrySendResult};
use crate::sync::deques_pool::Deques;
use crate::task::{fresh_id, has_task, is_first_index_of, take_by_task, tasks_of, Scheduler, Task};
use std::collections::VecDeque;
use vstd::prelude::*;

verus! {

/// The values that the parked senders of `senders` carry, in order.
pub open spec fn sender_values<T>(senders: Seq<(Task, T)>) -> Seq<T> {
    senders.map_values(|p: (Task, T)| p.1)
}

/// The outcomes of the senders of `senders` when the channel is closed.
pub open spec fn closed_send_outcomes<T>(senders: Seq<(Task, T)>) -> Seq<(Task, SendResult<T>)> {
    senders.map_values(|p: (Task, T)| (p.0, SendResult::Closed(p.1)))
}

/// The outcomes of the receivers of `receivers` when the channel is closed.
pub open spec fn closed_recv_outcomes<T>(receivers: Seq<Task>) -> Seq<(Task, RecvResult<T>)> {
    receivers.map_values(|t: Task| (t, RecvResult::<T>::Closed))
}

/// The effect of [`ChannelState::try_send`].
pub open spec fn try_send_post<T>(old: ChannelState<T>, new: ChannelState<T>, value: T, os: Scheduler, ns: Scheduler, r: TrySendResult<T>) -> bool {
    &&& new.id() == old.id()
    &&& new.capacity_view() == old.capacity_view()
    &&& new.closed_view() == old.closed_view()
    &&& new.senders_view() == old.senders_view()
    &&& new.send_outcomes_view() == old.send_outcomes_view()
    &&& old.closed_view() ==> r == TrySendResult::Closed(value) && new.same_queues(&old)
        && new.same_outcomes(&old) && ns.same_as(&os)
    &&& !old.closed_view() && old.receivers_view().len() > 0 ==> {
            &&& r is Sent
            &&& new.storage_view() == old.storage_view()
            &&& new.receivers_view() == old.receivers_view().drop_first()
            &&& new.recv_outcomes_view() == old.recv_outcomes_view().push(
                (old.receivers_view()[0], RecvResult::Received(value)),
            )
            &&& ns.executed_after(&os, seq![old.receivers_view()[0]])
        }
    &&& !old.closed_view() && old.receivers_view().len() == 0
            && old.storage_view().len() >= old.capacity_view() ==> r
            == TrySendResult::Full(value) && new.same_queues(&old)
            && new.same_outcomes(&old) && ns.same_as(&os)
    &&& !old.closed_view() && old.receivers_view().len() == 0
            && old.storage_view().len() < old.capacity_view() ==> {
            &&& r is Sent
            &&& new.storage_view() == old.storage_view().push(value)
            &&& new.receivers_view() == old.receivers_view()
            &&& new.same_outcomes(&old)
            &&& ns.same_as(&os)
        }
}

/// The effect of [`ChannelState::send_first_call`].
pub open spec fn send_first_post<T>(old: ChannelState<T>, new: ChannelState<T>, value: T, task: Task, os: Scheduler, ns: Scheduler, r: Option<SendResult<T>>) -> bool {
    &&& new.id() == old.id()
    &&& new.capacity_view() == old.capacity_view()
    &&& new.closed_view() == old.closed_view()
    &&& new.send_outcomes_view() == old.send_outcomes_view()
    &&& old.closed_view() ==> r == Some(SendResult::Closed(value)) && new.same_queues(&old) && new.same_outcomes(&old) && ns.same_as(&os)
    &&& !old.closed_view() && old.receivers_view().len() > 0 ==> {
            &&& r == Some(SendResult::<T>::Sent)
            &&& new.storage_view() == old.storage_view()
            &&& new.senders_view() == old.senders_view()
            &&& new.receivers_view() == old.receivers_view().drop_first()
            &&& new.recv_outcomes_view() == old.recv_outcomes_view().push(
                (old.receivers_view()[0], RecvResult::Received(value)),
            )
            &&& ns.executed_after(&os, seq![old.receivers_view()[0]])
        }
    &&& !old.closed_view() && old.receivers_view().len() == 0
            && old.storage_view().len() >= old.capacity_view() ==> {
            &&& r is None
            &&& new.storage_view() == old.storage_view()
            &&& new.senders_view() == old.senders_view().push((task, value))
            &&& new.receivers_view() == old.receivers_view()
            &&& new.same_outcomes(&old)
            &&& ns.same_as(&os)
        }
    &&& !old.closed_view() && old.receivers_view().len() == 0
            && old.storage_view().len() < old.capacity_view() ==> {
            &&& r == Some(SendResult::<T>::Sent)
            &&& new.storage_view() == old.storage_view().push(value)
            &&& new.senders_view() == old.senders_view()
            &&& new.receivers_view() == old.receivers_view()
            &&& new.same_outcomes(&old)
            &&& ns.same_as(&os)
        }
}

/// The effect of [`ChannelState::take_send_outcome`].
pub open spec fn take_send_outcome_post<T>(old: ChannelState<T>, new: ChannelState<T>, task: Task, r: Option<SendResult<T>>) -> bool {
    &&& new.same_queues(&old)
    &&& new.recv_outcomes_view() == old.recv_outcomes_view()
    &&& match r {
            Some(x) => exists|i: int|
                #![trigger old.send_outcomes_view()[i]]
                is_first_index_of(old.send_outcomes_view(), task, i) && x == old.send_outcomes_view()[i].1 && new.send_outcomes_view() == old.send_outcomes_view().remove(i),
            None => !has_task(old.send_outcomes_view(), task) && new.send_outcomes_view() == old.send_outcomes_view(),
        }
}

/// The effect of [`ChannelState::take_recv_outcome`].
pub open spec fn take_recv_outcome_post<T>(old: ChannelState<T>, new: ChannelState<T>, task: Task, r: Option<RecvResult<T>>) -> bool {
    &&& new.same_queues(&old)
    &&& new.send_outcomes_view() == old.send_outcomes_view()
    &&& match r {
            Some(x) => exists|i: int|
                #![trigger old.recv_outcomes_view()[i]]
                is_first_index_of(old.recv_outcomes_view(), task, i) && x == old.recv_outcomes_view()[i].1 && new.recv_outcomes_view() == old.recv_outcomes_view().remove(i),
            None => !has_task(old.recv_outcomes_view(), task) && new.recv_outcomes_view() == old.recv_outcomes_view(),
        }
}

/// The effect of [`ChannelState::try_recv`].
pub open spec fn try_recv_post<T>(old: ChannelState<T>, new: ChannelState<T>, os: Scheduler, ns: Scheduler, r: TryRecvResult<T>) -> bool {
    &&& new.id() == old.id()
    &&& new.capacity_view() == old.capacity_view()
    &&& new.closed_view() == old.closed_view()
    &&& new.receivers_view() == old.receivers_view()
    &&& new.recv_outcomes_view() == old.recv_outcomes_view()
    &&& old.closed_view() ==> r is Closed && new.same_queues(&old) && new.same_outcomes(&old) && ns.same_as(&os)
    &&& !old.closed_view() && old.queue_view().len() == 0 ==> r is Empty && new.same_queues(&old) && new.same_outcomes(&old) && ns.same_as(&os)
    &&& !old.closed_view() && old.queue_view().len() > 0 ==> {
            &&& r == TryRecvResult::Received(old.queue_view()[0])
            &&& new.queue_view() == old.queue_view().drop_first()
            &&& old.senders_view().len() > 0 ==> {
                &&& new.senders_view() == old.senders_view().drop_first()
                &&& new.send_outcomes_view() == old.send_outcomes_view().push(
                    (old.senders_view()[0].0, SendResult::Sent),
                )
                &&& ns.executed_after(&os,
                    seq![old.senders_view()[0].0],
                )
            }
            &&& old.senders_view().len() == 0 ==> {
                &&& new.senders_view() == old.senders_view()
                &&& new.send_outcomes_view() == old.send_outcomes_view()
                &&& ns.same_as(&os)
            }
        }
}

/// The effect of [`ChannelState::recv_first_call`].
pub open spec fn recv_first_post<T>(old: ChannelState<T>, new: ChannelState<T>, task: Task, os: Scheduler, ns: Scheduler, r: Option<RecvResult<T>>) -> bool {
    &&& new.id() == old.id()
    &&& new.capacity_view() == old.capacity_view()
    &&& new.closed_view() == old.closed_view()
    &&& new.recv_outcomes_view() == old.recv_outcomes_view()
    &&& old.closed_view() ==> r == Some(RecvResult::<T>::Closed) && new.same_queues(&old) && new.same_outcomes(&old) && ns.same_as(&os)
    &&& !old.closed_view() && old.queue_view().len() == 0 ==> {
            &&& r is None
            &&& new.storage_view() == old.storage_view()
            &&& new.senders_view() == old.senders_view()
            &&& new.receivers_view() == old.receivers_view().push(task)
            &&& new.same_outcomes(&old)
            &&& ns.same_as(&os)
        }
    &&& !old.closed_view() && old.queue_view().len() > 0 ==> {
            &&& r == Some(RecvResult::Received(old.queue_view()[0]))
            &&& new.queue_view() == old.queue_view().drop_first()
            &&& new.receivers_view() == old.receivers_view()
            &&& old.senders_view().len() > 0 ==> {
                &&& new.senders_view() == old.senders_view().drop_first()
                &&& new.send_outcomes_view() == old.send_outcomes_view().push(
                    (old.senders_view()[0].0, SendResult::Sent),
                )
                &&& ns.executed_after(&os,
                    seq![old.senders_view()[0].0],
                )
            }
            &&& old.senders_view().len() == 0 ==> {
                &&& new.senders_view() == old.senders_view()
                &&& new.send_outcomes_view() == old.send_outcomes_view()
                &&& ns.same_as(&os)
            }
        }
}

/// The effect of [`ChannelState::close`], which wakes the parked tasks the way `spawn` says.
pub open spec fn close_post<T>(old: ChannelState<T>, new: ChannelState<T>, os: Scheduler, ns: Scheduler, spawn: bool) -> bool {
    &&& new.id() == old.id()
    &&& new.closed_view()
    &&& new.storage_view() == old.storage_view()
    &&& new.capacity_view() == old.capacity_view()
    &&& new.senders_view() == Seq::<(Task, T)>::empty()
    &&& new.receivers_view() == Seq::<Task>::empty()
    &&& new.send_outcomes_view() == old.send_outcomes_view()
            + closed_send_outcomes(old.senders_view())
    &&& new.recv_outcomes_view() == old.recv_outcomes_view()
            + closed_recv_outcomes::<T>(old.receivers_view())
    &&& ns.woken_after(&os, tasks_of(old.senders_view()) + old.receivers_view(), spawn)
}

/// `s` is a channel just made with the capacity `capacity`: open, empty, without waiters or
/// outcomes.
pub open spec fn fresh_channel<T>(s: ChannelState<T>, capacity: usize) -> bool {
    &&& s.wf()
    &&& s.storage_view() == Seq::<T>::empty()
    &&& s.capacity_view() == capacity
    &&& !s.closed_view()
    &&& s.senders_view() == Seq::<(Task, T)>::empty()
    &&& s.receivers_view() == Seq::<Task>::empty()
    &&& s.send_outcomes_view() == Seq::<(Task, SendResult<T>)>::empty()
    &&& s.recv_outcomes_view() == Seq::<(Task, RecvResult<T>)>::empty()
}

/// The state of a channel.
pub struct ChannelState<T> {
    storage: VecDeque<T>,
    is_closed: bool,
    capacity: usize,
    senders: VecDeque<(Task, T)>,
    receivers: VecDeque<Task>,
    send_outcomes: Vec<(Task, SendResult<T>)>,
    recv_outcomes: Vec<(Task, RecvResult<T>)>,
    id: Ghost<int>,
}

impl<T> ChannelState<T> {
    /// The identity of the channel, which its futures and handles record.
    pub closed spec fn id(&self) -> int {
        self.id@
    }

    /// The buffered values, oldest first.
    pub closed spec fn storage_view(&self) -> Seq<T> {
        self.storage@
    }

    /// How many values the buffer holds at most.
    pub closed spec fn capacity_view(&self) -> usize {
        self.capacity
    }

    /// Whether the channel was closed.
    pub closed spec fn closed_view(&self) -> bool {
        self.is_closed
    }

    /// The parked senders with their values, first parked first.
    pub closed spec fn senders_view(&self) -> Seq<(Task, T)> {
        self.senders@
    }

    /// The parked receivers, first parked first.
    pub closed spec fn receivers_view(&self) -> Seq<Task> {
        self.receivers@
    }

    /// The outcomes of woken senders that have not yet been polled again.
    pub closed spec fn send_outcomes_view(&self) -> Seq<(Task, SendResult<T>)> {
        self.send_outcomes@
    }

    /// The outcomes of woken receivers that have not yet been polled again.
    pub closed spec fn recv_outcomes_view(&self) -> Seq<(Task, RecvResult<T>)> {
        self.recv_outcomes@
    }

    /// The values that the channel will hand out, in order: the buffer, then the values of
    /// the parked senders.
    pub open spec fn queue_view(&self) -> Seq<T> {
        self.storage_view() + sender_values(self.senders_view())
    }

    /// The invariant of a channel: the buffer never exceeds the capacity, receivers wait only
    /// on an empty channel, senders only on a full one, and a closed channel has no waiters.
    pub open spec fn wf(&self) -> bool {
        &&& self.storage_view().len() <= self.capacity_view()
        &&& self.receivers_view().len() > 0 ==> self.storage_view().len() == 0
            && self.senders_view().len() == 0
        &&& self.senders_view().len() > 0 ==> self.storage_view().len() == self.capacity_view()
        &&& self.closed_view() ==> self.senders_view().len() == 0 && self.receivers_view().len()
            == 0
    }

    /// `self` and `old` hold the same buffer, waiters, capacity and closed flag.
    pub open spec fn same_queues(&self, old: &ChannelState<T>) -> bool {
        &&& self.id() == old.id()
        &&& self.storage_view() == old.storage_view()
        &&& self.capacity_view() == old.capacity_view()
        &&& self.closed_view() == old.closed_view()
        &&& self.senders_view() == old.senders_view()
        &&& self.receivers_view() == old.receivers_view()
    }

    /// `self` and `old` hold the same outcomes for woken tasks.
    pub open spec fn same_outcomes(&self, old: &ChannelState<T>) -> bool {
        &&& self.send_outcomes_view() == old.send_outcomes_view()
        &&& self.recv_outcomes_view() == old.recv_outcomes_view()
    }

    /// Creates an open, empty channel whose buffer holds at most `capacity` values. The buffer
    /// grows as values come in: no room is reserved in advance, so that no capacity can make
    /// the creation fail.
    pub fn bounded(capacity: usize) -> (s: Self)
        ensures
            s.wf(),
            s.storage_view() == Seq::<T>::empty(),
            s.capacity_view() == capacity,
            !s.closed_view(),
            s.senders_view() == Seq::<(Task, T)>::empty(),
            s.receivers_view() == Seq::<Task>::empty(),
            s.send_outcomes_view() == Seq::<(Task, SendResult<T>)>::empty(),
            s.recv_outcomes_view() == Seq::<(Task, RecvResult<T>)>::empty(),
    {
        ChannelState {
            storage: VecDeque::new(),
            is_closed: false,
            capacity,
            senders: VecDeque::new(),
            receivers: VecDeque::new(),
            send_outcomes: Vec::new(),
            recv_outcomes: Vec::new(),
            id: fresh_id(),
        }
    }

    /// Creates an open, empty channel without a bound: its capacity is `usize::MAX`, and no
    /// room is reserved in advance.
    pub fn unbounded() -> (s: Self)
        ensures
            s.wf(),
            s.storage_view() == Seq::<T>::empty(),
            s.capacity_view() == usize::MAX,
            !s.closed_view(),
            s.senders_view() == Seq::<(Task, T)>::empty(),
            s.receivers_view() == Seq::<Task>::empty(),
            s.send_outcomes_view() == Seq::<(Task, SendResult<T>)>::empty(),
            s.recv_outcomes_view() == Seq::<(Task, RecvResult<T>)>::empty(),
    {
        ChannelState {
            storage: VecDeque::new(),
            is_closed: false,
            capacity: usize::MAX,
            senders: VecDeque::new(),
            receivers: VecDeque::new(),
            send_outcomes: Vec::new(),
            recv_outcomes: Vec::new(),
            id: fresh_id(),
        }
    }

    /// Creates an open, empty channel whose buffer holds at most `capacity` values, and whose
    /// waiters are kept in the lists of `deques`, emptied first.
    pub fn with_deques(capacity: usize, deques: Deques<T>) -> (s: Self)
        ensures
            s.wf(),
            s.storage_view() == Seq::<T>::empty(),
            s.capacity_view() == capacity,
            !s.closed_view(),
            s.senders_view() == Seq::<(Task, T)>::empty(),
            s.receivers_view() == Seq::<Task>::empty(),
            s.send_outcomes_view() == Seq::<(Task, SendResult<T>)>::empty(),
            s.recv_outcomes_view() == Seq::<(Task, RecvResult<T>)>::empty(),
    {
        let Deques { mut senders, mut receivers } = deques;
        senders.clear();
        receivers.clear();
        ChannelState {
            storage: VecDeque::new(),
            is_closed: false,
            capacity,
            senders,
            receivers,
            send_outcomes: Vec::new(),
            recv_outcomes: Vec::new(),
            id: fresh_id(),
        }
    }

    /// Gives up the channel and hands back the lists that held its waiters.
    pub fn into_deques(self) -> (d: Deques<T>)
        ensures
            d.senders@ == self.senders_view(),
            d.receivers@ == self.receivers_view(),
    {
        let ChannelState { senders, receivers, .. } = self;
        Deques { senders, receivers }
    }

    /// The number of buffered values.
    pub fn len(&self) -> (n: usize)
        ensures
            n == self.storage_view().len(),
    {
        self.storage.len()
    }

    /// How many values the buffer holds at most.
    pub fn capacity(&self) -> (c: usize)
        ensures
            c == self.capacity_view(),
    {
        self.capacity
    }

    /// Whether the channel was closed.
    pub fn is_closed(&self) -> (b: bool)
        ensures
            b == self.closed_view(),
    {
        self.is_closed
    }

    /// Hands `value` to the first parked receiver and wakes it.
    fn hand_to_receiver(&mut self, value: T, sched: &mut Scheduler)
        requires
            old(self).wf(),
            !old(self).closed_view(),
            old(self).receivers_view().len() > 0,
        ensures
            final(self).id() == old(self).id(),
            final(self).wf(),
            final(self).storage_view() == old(self).storage_view(),
            final(self).capacity_view() == old(self).capacity_view(),
            final(self).closed_view() == old(self).closed_view(),
            final(self).senders_view() == old(self).senders_view(),
            final(self).receivers_view() == old(self).receivers_view().drop_first(),
            final(self).send_outcomes_view() == old(self).send_outcomes_view(),
            final(self).recv_outcomes_view() == old(self).recv_outcomes_view().push(
                (old(self).receivers_view()[0], RecvResult::Received(value)),
            ),
            final(sched).executed_after(old(sched), seq![old(self).receivers_view()[0]]),
    {
        let task = match self.receivers.pop_front() {
            Some(t) => t,
            None => vstd::pervasive::unreached(),
        };
        self.recv_outcomes.push((task, RecvResult::Received(value)));
        sched.exec_task(task);
        assert(self.receivers@ =~= old(self).receivers@.drop_first());
    }

    /// Sends `value` without waiting.
    ///
    /// On a closed channel the value comes back in [`TrySendResult::Closed`]. Else, if a
    /// receiver is parked, the first one gets the value and is woken. Else the value goes to the
    /// end of the buffer if there is room, and comes back in [`TrySendResult::Full`] if not.
    pub fn try_send(&mut self, value: T, sched: &mut Scheduler) -> (r: TrySendResult<T>)
        requires
            old(self).wf(),
        ensures
            final(self).wf(),
            try_send_post(*old(self), *final(self), value, *old(sched), *final(sched), r),

    {
        if self.is_closed {
            return TrySendResult::Closed(value);
        }
        if self.receivers.len() > 0 {
            self.hand_to_receiver(value, sched);
            return TrySendResult::Sent;
        }
        if self.storage.len() >= self.capacity {
            return TrySendResult::Full(value);
        }
        self.storage.push_back(value);
        TrySendResult::Sent
    }

    /// The first poll of a send: as [`try_send`](ChannelState::try_send), but on a full channel
    /// the sender `task` is parked with its value, and `None` is returned.
    pub fn send_first_call(&mut self, value: T, task: Task, sched: &mut Scheduler) -> (r: Option<
        SendResult<T>,
    >)
        requires
            old(self).wf(),
        ensures
            final(self).wf(),
            send_first_post(*old(self), *final(self), value, task, *old(sched), *final(sched), r),

    {
        if self.is_closed {
            return Some(SendResult::Closed(value));
        }
        if self.receivers.len() > 0 {
            self.hand_to_receiver(value, sched);
            return Some(SendResult::Sent);
        }
        if self.storage.len() >= self.capacity {
            self.senders.push_back((task, value));
            return None;
        }
        self.storage.push_back(value);
        Some(SendResult::Sent)
    }

    /// Takes the outcome recorded for the woken sender `task`, if there is one.
    pub fn take_send_outcome(&mut self, task: Task) -> (r: Option<SendResult<T>>)
        requires
            old(self).wf(),
        ensures
            final(self).wf(),
            take_send_outcome_post(*old(self), *final(self), task, r),

    {
        let r = take_by_task(&mut self.send_outcomes, task);
        proof {
            if r is Some {
                let i = choose|i: int|
                    #![trigger old(self).send_outcomes@[i]]
                    is_first_index_of(old(self).send_outcomes@, task, i) && r == Some(
                        old(self).send_outcomes@[i].1,
                    ) && self.send_outcomes@ == old(self).send_outcomes@.remove(i);
                assert(old(self).send_outcomes_view()[i] == old(self).send_outcomes@[i]);
            }
        }
        r
    }

    /// Takes the outcome recorded for the woken receiver `task`, if there is one.
    pub fn take_recv_outcome(&mut self, task: Task) -> (r: Option<RecvResult<T>>)
        requires
            old(self).wf(),
        ensures
            final(self).wf(),
            take_recv_outcome_post(*old(self), *final(self), task, r),

    {
        let r = take_by_task(&mut self.recv_outcomes, task);
        proof {
            if r is Some {
                let i = choose|i: int|
                    #![trigger old(self).recv_outcomes@[i]]
                    is_first_index_of(old(self).recv_outcomes@, task, i) && r == Some(
                        old(self).recv_outcomes@[i].1,
                    ) && self.recv_outcomes@ == old(self).recv_outcomes@.remove(i);
                assert(old(self).recv_outcomes_view()[i] == old(self).recv_outcomes@[i]);
            }
        }
        r
    }

    /// Takes the first value of the queue of a channel that is open and not empty: the first
    /// buffered value if there is one, else the value of the first parked sender. A sender
    /// whose value leaves the queue, or moves from its place into the buffer, is woken with
    /// the outcome [`SendResult::Sent`].
    fn take_first(&mut self, sched: &mut Scheduler) -> (v: T)
        requires
            old(self).wf(),
            !old(self).closed_view(),
            old(self).queue_view().len() > 0,
        ensures
            final(self).id() == old(self).id(),
            final(self).wf(),
            v == old(self).queue_view()[0],
            final(self).queue_view() == old(self).queue_view().drop_first(),
            final(self).capacity_view() == old(self).capacity_view(),
            final(self).closed_view() == old(self).closed_view(),
            final(self).receivers_view() == old(self).receivers_view(),
            final(self).recv_outcomes_view() == old(self).recv_outcomes_view(),
            old(self).senders_view().len() > 0 ==> {
                &&& final(self).senders_view() == old(self).senders_view().drop_first()
                &&& final(self).send_outcomes_view() == old(self).send_outcomes_view().push(
                    (old(self).senders_view()[0].0, SendResult::Sent),
                )
                &&& final(sched).executed_after(old(sched), seq![old(self).senders_view()[0].0])
            },
            old(self).senders_view().len() == 0 ==> {
                &&& final(self).senders_view() == old(self).senders_view()
                &&& final(self).send_outcomes_view() == old(self).send_outcomes_view()
                &&& final(sched).same_as(old(sched))
            },
            old(self).storage_view().len() > 0 ==> final(self).storage_view().len() + (if old(self).senders_view().len() > 0 {
                0int
            } else {
                1int
            }) == old(self).storage_view().len(),
    {
        let ghost s0 = self.storage@;
        let ghost p0 = self.senders@;
        assert(sender_values(p0).len() == p0.len());
        if self.storage.len() == 0 {
            let (task, value) = match self.senders.pop_front() {
                Some(p) => p,
                None => vstd::pervasive::unreached(),
            };
            self.send_outcomes.push((task, SendResult::Sent));
            sched.exec_task(task);
            assert(self.senders@ =~= p0.drop_first());
            assert(s0 =~= Seq::<T>::empty());
            assert(sender_values(p0) =~= seq![value] + sender_values(p0.drop_first()));
            assert(self.queue_view() =~= old(self).queue_view().drop_first());
            value
        } else {
            let value = match self.storage.pop_front() {
                Some(v) => v,
                None => vstd::pervasive::unreached(),
            };
            assert(self.storage@ =~= s0.drop_first());
            if self.senders.len() > 0 {
                let (task, moved) = match self.senders.pop_front() {
                    Some(p) => p,
                    None => vstd::pervasive::unreached(),
                };
                self.storage.push_back(moved);
                self.send_outcomes.push((task, SendResult::Sent));
                sched.exec_task(task);
                assert(self.senders@ =~= p0.drop_first());
                assert(sender_values(p0) =~= seq![moved] + sender_values(p0.drop_first()));
                assert(self.queue_view() =~= old(self).queue_view().drop_first());
            } else {
                assert(sender_values(p0) =~= Seq::<T>::empty());
                assert(self.queue_view() =~= old(self).queue_view().drop_first());
            }
            value
        }
    }

    /// Receives a value without waiting.
    ///
    /// On a closed channel the result is [`TryRecvResult::Closed`], whatever the buffer holds.
    /// Else the first value of the queue (see [`queue_view`](ChannelState::queue_view)) is
    /// received, and [`TryRecvResult::Empty`] is returned if the queue is empty.
    pub fn try_recv(&mut self, sched: &mut Scheduler) -> (r: TryRecvResult<T>)
        requires
            old(self).wf(),
        ensures
            final(self).wf(),
            try_recv_post(*old(self), *final(self), *old(sched), *final(sched), r),

    {
        if self.is_closed {
            return TryRecvResult::Closed;
        }
        if self.storage.len() == 0 && self.senders.len() == 0 {
            assert(self.queue_view() =~= Seq::<T>::empty());
            return TryRecvResult::Empty;
        }
        assert(sender_values(self.senders@).len() == self.senders@.len());
        let v = self.take_first(sched);
        TryRecvResult::Received(v)
    }

    /// The first poll of a receive by `task`: as [`try_recv`](ChannelState::try_recv), but on
    /// an empty channel the receiver is parked, and `None` is returned.
    pub fn recv_first_call(&mut self, task: Task, sched: &mut Scheduler) -> (r: Option<
        RecvResult<T>,
    >)
        requires
            old(self).wf(),
        ensures
            final(self).wf(),
            recv_first_post(*old(self), *final(self), task, *old(sched), *final(sched), r),

    {
        if self.is_closed {
            return Some(RecvResult::Closed);
        }
        if self.storage.len() == 0 && self.senders.len() == 0 {
            assert(sender_values(self.senders@) =~= Seq::<T>::empty());
            assert(self.queue_view() =~= Seq::<T>::empty());
            self.receivers.push_back(task);
            return None;
        }
        assert(sender_values(self.senders@).len() == self.senders@.len());
        let v = self.take_first(sched);
        Some(RecvResult::Received(v))
    }

    /// Closes the channel. Every parked sender is woken with its value back
    /// ([`SendResult::Closed`]), then every parked receiver with [`RecvResult::Closed`],
    /// each in the order in which they were parked. The tasks are put into the run queue if
    /// `spawn` holds, and run at once if not.
    pub fn close(&mut self, sched: &mut Scheduler, spawn: bool)
        requires
            old(self).wf(),
        ensures
            final(self).wf(),
            close_post(*old(self), *final(self), *old(sched), *final(sched), spawn),

    {
        let ghost p0 = self.senders@;
        let ghost r0 = self.receivers@;
        let ghost so0 = self.send_outcomes@;
        let ghost ro0 = self.recv_outcomes@;
        let ghost e0 = sched.woken_view(spawn);
        let ghost sp0 = sched.woken_view(!spawn);
        self.is_closed = true;
        while self.senders.len() > 0
            invariant
                self.is_closed,
                self.id == old(self).id,
                self.storage@ == old(self).storage@,
                self.capacity == old(self).capacity,
                self.receivers@ == r0,
                self.recv_outcomes@ == ro0,
                p0.len() >= self.senders@.len(),
                self.senders@ == p0.subrange(p0.len() - self.senders@.len(), p0.len() as int),
                self.send_outcomes@ == so0 + closed_send_outcomes(
                    p0.subrange(0, p0.len() - self.senders@.len()),
                ),
                sched.woken_view(spawn) == e0 + tasks_of(
                    p0.subrange(0, p0.len() - self.senders@.len()),
                ),
                sched.woken_view(!spawn) == sp0,
            decreases self.senders@.len(),
        {
            let ghost k = p0.len() - self.senders@.len();
            let (task, value) = match self.senders.pop_front() {
                Some(p) => p,
                None => vstd::pervasive::unreached(),
            };
            self.send_outcomes.push((task, SendResult::Closed(value)));
            sched.wake(task, spawn);
            assert(p0.subrange(0, k + 1) =~= p0.subrange(0, k).push(p0[k]));
            assert(closed_send_outcomes(p0.subrange(0, k + 1)) =~= closed_send_outcomes(
                p0.subrange(0, k),
            ).push((task, SendResult::Closed(value))));
            assert(tasks_of(p0.subrange(0, k + 1)) =~= tasks_of(p0.subrange(0, k)).push(task));
            assert(self.senders@ =~= p0.subrange(k + 1, p0.len() as int));
        }
        assert(p0.subrange(0, p0.len() as int) =~= p0);
        let ghost e1 = sched.woken_view(spawn);
        while self.receivers.len() > 0
            invariant
                self.is_closed,
                self.id == old(self).id,
                self.storage@ == old(self).storage@,
                self.capacity == old(self).capacity,
                self.senders@.len() == 0,
                self.send_outcomes@ == so0 + closed_send_outcomes(p0),
                r0.len() >= self.receivers@.len(),
                self.receivers@ == r0.subrange(r0.len() - self.receivers@.len(), r0.len() as int),
                self.recv_outcomes@ == ro0 + closed_recv_outcomes::<T>(
                    r0.subrange(0, r0.len() - self.receivers@.len()),
                ),
                sched.woken_view(spawn) == e1 + r0.subrange(0, r0.len() - self.receivers@.len()),
                sched.woken_view(!spawn) == sp0,
            decreases self.receivers@.len(),
        {
            let ghost k = r0.len() - self.receivers@.len();
            let task = match self.receivers.pop_front() {
                Some(t) => t,
                None => vstd::pervasive::unreached(),
            };
            self.recv_outcomes.push((task, RecvResult::Closed));
            sched.wake(task, spawn);
            assert(r0.subrange(0, k + 1) =~= r0.subrange(0, k).push(r0[k]));
            assert(closed_recv_outcomes::<T>(r0.subrange(0, k + 1)) =~= closed_recv_outcomes::<T>(
                r0.subrange(0, k),
            ).push((task, RecvResult::<T>::Closed)));
            assert(self.receivers@ =~= r0.subrange(k + 1, r0.len() as int));
        }
        assert(r0.subrange(0, r0.len() as int) =~= r0);
        assert(self.senders@ =~= Seq::<(Task, T)>::empty());
        assert(self.receivers@ =~= Seq::<Task>::empty());
    }
}

/// Values come out of a channel in the order in which they went in: when no receiver waits
/// on an open channel, a value that a send puts in comes out after every value that was
/// queued before it, and first if the queue was empty.
pub proof fn lemma_send_then_recv_fifo<T>(
    s0: ChannelState<T>,
    s1: ChannelState<T>,
    s2: ChannelState<T>,
    value: T,
    a: Scheduler,
    b: Scheduler,
    c: Scheduler,
    sent: TrySendResult<T>,
    received: TryRecvResult<T>,
)
    requires
        s0.wf(),
        !s0.closed_view(),
        s0.receivers_view().len() == 0,
        try_send_post(s0, s1, value, a, b, sent),
        sent is Sent,
        try_recv_post(s1, s2, b, c, received),
    ensures
        s0.queue_view().len() == 0 ==> received == TryRecvResult::Received(value),
        s0.queue_view().len() > 0 ==> received == TryRecvResult::Received(s0.queue_view()[0])
            && s2.queue_view() == s0.queue_view().drop_first().push(value),
{
    assert(s0.senders_view().len() == 0);
    assert(s1.senders_view() == s0.senders_view());
    assert(sender_values(s0.senders_view()) =~= Seq::<T>::empty());
    assert(s0.queue_view() =~= s0.storage_view());
    assert(s1.queue_view() =~= s0.queue_view().push(value));
}

/// A closed channel stays closed and refuses everything: a send gives its value back and a
/// receive reports [`TryRecvResult::Closed`], whatever the buffer holds.
pub proof fn lemma_closed_refuses<T>(
    s0: ChannelState<T>,
    s1: ChannelState<T>,
    s2: ChannelState<T>,
    s3: ChannelState<T>,
    value: T,
    a: Scheduler,
    b: Scheduler,
    c: Scheduler,
    d: Scheduler,
    sent: TrySendResult<T>,
    received: TryRecvResult<T>,
    spawn: bool,
)
    requires
        s0.wf(),
        close_post(s0, s1, a, b, spawn),
        try_send_post(s1, s2, value, b, c, sent),
        try_recv_post(s2, s3, c, d, received),
    ensures
        sent == TrySendResult::Closed(value),
        received is Closed,
        s3.closed_view(),
        s3.storage_view() == s0.storage_view(),
{
}

/// Closing a channel wakes every parked task exactly once, senders first, and leaves
/// every woken sender its value back.
pub proof fn lemma_close_wakes_all<T>(
    s0: ChannelState<T>,
    s1: ChannelState<T>,
    a: Scheduler,
    b: Scheduler,
    spawn: bool,
)
    requires
        s0.wf(),
        close_post(s0, s1, a, b, spawn),
    ensures
        b.woken_view(spawn).len() == a.woken_view(spawn).len() + s0.senders_view().len()
            + s0.receivers_view().len(),
        b.woken_view(!spawn) == a.woken_view(!spawn),
        forall|i: int|
            0 <= i < s0.senders_view().len() ==> s1.send_outcomes_view()[s0.send_outcomes_view().len()
                + i] == (s0.senders_view()[i].0, SendResult::Closed(#[trigger] s0.senders_view()[i].1))
                && b.woken_view(spawn)[a.woken_view(spawn).len() + i] == s0.senders_view()[i].0,
        forall|i: int|
            0 <= i < s0.receivers_view().len() ==> s1.recv_outcomes_view()[s0.recv_outcomes_view().len()
                + i] == (#[trigger] s0.receivers_view()[i], RecvResult::<T>::Closed)
                && b.woken_view(spawn)[a.woken_view(spawn).len() + s0.senders_view().len() + i]
                == s0.receivers_view()[i],
{
}

/// A channel without a buffer is a rendezvous: on an open channel of capacity zero, a send
/// that does not wait succeeds only by handing its value to a parked receiver, and reports
/// the channel full when no receiver waits.
pub proof fn lemma_zero_capacity_rendezvous<T>(
    s0: ChannelState<T>,
    s1: ChannelState<T>,
    value: T,
    a: Scheduler,
    b: Scheduler,
    sent: TrySendResult<T>,
)
    requires
        s0.wf(),
        !s0.closed_view(),
        s0.capacity_view() == 0,
        try_send_post(s0, s1, value, a, b, sent),
    ensures
        sent is Sent <==> s0.receivers_view().len() > 0,
        sent is Sent ==> s1.recv_outcomes_view().last() == (
            s0.receivers_view()[0],
            RecvResult::Received(value),
        ),
        !(sent is Sent) ==> sent == TrySendResult::Full(value),
        s1.storage_view().len() == 0,
{
}

/// The sends of [`lemma_sends_then_recvs_fifo`]: `n` tries to send that all succeeded, from
/// `states[0]` to `states[n]`.
pub open spec fn all_sent<T>(
    states: Seq<ChannelState<T>>,
    scheds: Seq<Scheduler>,
    values: Seq<T>,
    sent: Seq<TrySendResult<T>>,
) -> bool {
    forall|i: int|
        #![trigger sent[i]]
        0 <= i < values.len() ==> try_send_post(
            states[i],
            states[i + 1],
            values[i],
            scheds[i],
            scheds[i + 1],
            sent[i],
        ) && sent[i] is Sent
}

/// The receives of [`lemma_sends_then_recvs_fifo`]: `n` tries to receive, from `states[n]` to
/// `states[2 * n]`.
pub open spec fn all_received<T>(
    states: Seq<ChannelState<T>>,
    scheds: Seq<Scheduler>,
    n: int,
    received: Seq<TryRecvResult<T>>,
) -> bool {
    forall|i: int|
        #![trigger received[i]]
        0 <= i < n ==> try_recv_post(
            states[n + i],
            states[n + i + 1],
            scheds[n + i],
            scheds[n + i + 1],
            received[i],
        )
}

proof fn lemma_sends_append<T>(
    states: Seq<ChannelState<T>>,
    scheds: Seq<Scheduler>,
    values: Seq<T>,
    sent: Seq<TrySendResult<T>>,
    k: int,
)
    requires
        0 <= k <= values.len(),
        states.len() == 2 * values.len() + 1,
        scheds.len() == states.len(),
        sent.len() == values.len(),
        forall|i: int| 0 <= i < states.len() ==> #[trigger] states[i].wf(),
        !states[0].closed_view(),
        states[0].receivers_view().len() == 0,
        all_sent(states, scheds, values, sent),
    ensures
        states[k].queue_view() == states[0].queue_view() + values.take(k),
        !states[k].closed_view(),
        states[k].receivers_view().len() == 0,
    decreases k,
{
    if k > 0 {
        lemma_sends_append(states, scheds, values, sent, k - 1);
        let a = states[k - 1];
        let b = states[k];
        assert(try_send_post(a, b, values[k - 1], scheds[k - 1], scheds[k], sent[k - 1]));
        assert(a.wf());
        assert(a.senders_view().len() == 0);
        assert(sender_values(a.senders_view()) =~= Seq::<T>::empty());
        assert(sender_values(b.senders_view()) =~= Seq::<T>::empty());
        assert(values.take(k) =~= values.take(k - 1).push(values[k - 1]));
        assert(b.queue_view() =~= a.queue_view().push(values[k - 1]));
    } else {
        assert(values.take(0) =~= Seq::<T>::empty());
        assert(states[0].queue_view() + values.take(0) =~= states[0].queue_view());
    }
}

proof fn lemma_recvs_take_in_order<T>(
    states: Seq<ChannelState<T>>,
    scheds: Seq<Scheduler>,
    values: Seq<T>,
    received: Seq<TryRecvResult<T>>,
    q: Seq<T>,
    k: int,
)
    requires
        0 <= k <= values.len(),
        states.len() == 2 * values.len() + 1,
        scheds.len() == states.len(),
        received.len() == values.len(),
        q.len() >= values.len(),
        states[values.len() as int].queue_view() == q,
        !states[values.len() as int].closed_view(),
        all_received(states, scheds, values.len() as int, received),
    ensures
        states[values.len() + k].queue_view() == q.skip(k),
        !states[values.len() + k].closed_view(),
        forall|i: int| 0 <= i < k ==> received[i] == TryRecvResult::Received(q[i]),
    decreases k,
{
    let n = values.len() as int;
    if k > 0 {
        lemma_recvs_take_in_order(states, scheds, values, received, q, k - 1);
        assert(try_recv_post(states[n + k - 1], states[n + k], scheds[n + k - 1], scheds[n + k], received[k - 1]));
        assert(q.skip(k - 1).len() > 0);
        assert(q.skip(k - 1)[0] == q[k - 1]);
        assert(q.skip(k - 1).drop_first() =~= q.skip(k));
    } else {
        assert(q.skip(0) =~= q);
    }
}

/// Values come out of a channel in the order in which they went in, each once: on an open
/// channel where no receiver waits, after `n` sends that all succeed, `n` receives give the
/// values that were queued before, then the sent values, in order.
pub proof fn lemma_sends_then_recvs_fifo<T>(
    states: Seq<ChannelState<T>>,
    scheds: Seq<Scheduler>,
    values: Seq<T>,
    sent: Seq<TrySendResult<T>>,
    received: Seq<TryRecvResult<T>>,
)
    requires
        states.len() == 2 * values.len() + 1,
        scheds.len() == states.len(),
        sent.len() == values.len(),
        received.len() == values.len(),
        forall|i: int| 0 <= i < states.len() ==> #[trigger] states[i].wf(),
        !states[0].closed_view(),
        states[0].receivers_view().len() == 0,
        all_sent(states, scheds, values, sent),
        all_received(states, scheds, values.len() as int, received),
    ensures
        forall|i: int|
            0 <= i < values.len() ==> received[i] == TryRecvResult::Received(
                (states[0].queue_view() + values)[i],
            ),
        states[0].queue_view().len() == 0 ==> forall|i: int|
            0 <= i < values.len() ==> received[i] == TryRecvResult::Received(values[i]),
{
    let n = values.len() as int;
    lemma_sends_append(states, scheds, values, sent, n);
    assert(values.take(n) =~= values);
    let q = states[0].queue_view() + values;
    lemma_recvs_take_in_order(states, scheds, values, received, q, n);
    assert forall|i: int| 0 <= i < n && states[0].queue_view().len() == 0 implies received[i]
        == TryRecvResult::Received(values[i]) by {
        assert(q[i] == values[i]);
    }
}

/// One step of the tasks that use a channel: the first poll of a send of a value or of a
/// receive, or a later poll that takes the outcome recorded for a woken sender or receiver.
pub enum ChannelStep<T> {
    /// The first poll of the send of the value by the task.
    Send(Task, T),
    /// The first poll of a receive by the task.
    Recv(Task),
    /// A later poll of a send: the task takes its outcome.
    TakeSendOutcome(Task),
    /// A later poll of a receive: the task takes its outcome.
    TakeRecvOutcome(Task),
}

/// The effect of the step `step` from `s0` to `s1`, with the scheduler going from `os` to
/// `ns`; `send_r` and `recv_r` are what a send or a receive step returned (`None` when the
/// future is pending).
pub open spec fn step_post<T>(
    s0: ChannelState<T>,
    s1: ChannelState<T>,
    os: Scheduler,
    ns: Scheduler,
    step: ChannelStep<T>,
    send_r: Option<SendResult<T>>,
    recv_r: Option<RecvResult<T>>,
) -> bool {
    match step {
        ChannelStep::Send(task, v) => send_first_post(s0, s1, v, task, os, ns, send_r),
        ChannelStep::Recv(task) => recv_first_post(s0, s1, task, os, ns, recv_r),
        ChannelStep::TakeSendOutcome(task) => take_send_outcome_post(s0, s1, task, send_r),
        ChannelStep::TakeRecvOutcome(task) => take_recv_outcome_post(s0, s1, task, recv_r),
    }
}

/// The value that `step` sends, if it is a send.
pub open spec fn step_sent<T>(step: ChannelStep<T>) -> Seq<T> {
    match step {
        ChannelStep::Send(_, v) => seq![v],
        _ => Seq::empty(),
    }
}

/// The value that a receiving task gets in `step`, which returned `recv_r`.
pub open spec fn step_received<T>(step: ChannelStep<T>, recv_r: Option<RecvResult<T>>) -> Seq<T> {
    match step {
        ChannelStep::Recv(_) | ChannelStep::TakeRecvOutcome(_) => match recv_r {
            Some(RecvResult::Received(v)) => seq![v],
            _ => Seq::empty(),
        },
        _ => Seq::empty(),
    }
}

/// The values sent by the first `k` steps, in order.
pub open spec fn sent_by<T>(steps: Seq<ChannelStep<T>>, k: int) -> Seq<T>
    decreases k,
{
    if k <= 0 {
        Seq::empty()
    } else {
        sent_by(steps, k - 1) + step_sent(steps[k - 1])
    }
}

/// The values received in the first `k` steps, in order.
pub open spec fn received_by<T>(
    steps: Seq<ChannelStep<T>>,
    recv_rs: Seq<Option<RecvResult<T>>>,
    k: int,
) -> Seq<T>
    decreases k,
{
    if k <= 0 {
        Seq::empty()
    } else {
        received_by(steps, recv_rs, k - 1) + step_received(steps[k - 1], recv_rs[k - 1])
    }
}

/// The values handed to woken receivers that they have not taken yet.
pub open spec fn pending_values<T>(outcomes: Seq<(Task, RecvResult<T>)>) -> Seq<T> {
    outcomes.map_values(|o: (Task, RecvResult<T>)| o.1->Received_0)
}

/// The setting of [`lemma_channel_order`]: the steps run one after the other from
/// `states[0]`, on a channel that is open, and one receiver at a time: a woken receiver
/// takes its outcome before a receive starts.
pub open spec fn channel_run<T>(
    states: Seq<ChannelState<T>>,
    scheds: Seq<Scheduler>,
    steps: Seq<ChannelStep<T>>,
    send_rs: Seq<Option<SendResult<T>>>,
    recv_rs: Seq<Option<RecvResult<T>>>,
) -> bool {
    &&& states.len() == steps.len() + 1
    &&& scheds.len() == states.len()
    &&& send_rs.len() == steps.len()
    &&& recv_rs.len() == steps.len()
    &&& forall|i: int| 0 <= i < states.len() ==> #[trigger] states[i].wf()
    &&& !states[0].closed_view()
    &&& states[0].recv_outcomes_view().len() == 0
    &&& forall|i: int| 0 <= i < states.len() ==> #[trigger] states[i].recv_outcomes_view().len() <= 1
    &&& forall|i: int|
        #![trigger steps[i]]
        0 <= i < steps.len() ==> step_post(
            states[i],
            states[i + 1],
            scheds[i],
            scheds[i + 1],
            steps[i],
            send_rs[i],
            recv_rs[i],
        ) && (steps[i] is Recv ==> states[i].recv_outcomes_view().len() == 0)
}

proof fn lemma_channel_order_upto<T>(
    states: Seq<ChannelState<T>>,
    scheds: Seq<Scheduler>,
    steps: Seq<ChannelStep<T>>,
    send_rs: Seq<Option<SendResult<T>>>,
    recv_rs: Seq<Option<RecvResult<T>>>,
    k: int,
)
    requires
        channel_run(states, scheds, steps, send_rs, recv_rs),
        0 <= k <= steps.len(),
    ensures
        !states[k].closed_view(),
        forall|j: int|
            0 <= j < states[k].recv_outcomes_view().len() ==> (
            #[trigger] states[k].recv_outcomes_view()[j]).1 is Received,
        received_by(steps, recv_rs, k) + pending_values(states[k].recv_outcomes_view())
            + states[k].queue_view() == states[0].queue_view() + sent_by(steps, k),
    decreases k,
{
    if k == 0 {
        assert(pending_values(states[0].recv_outcomes_view()) =~= Seq::<T>::empty());
        assert(received_by(steps, recv_rs, 0) + pending_values(states[0].recv_outcomes_view())
            + states[0].queue_view() =~= states[0].queue_view() + sent_by(steps, 0));
    } else {
        lemma_channel_order_upto(states, scheds, steps, send_rs, recv_rs, k - 1);
        let i = k - 1;
        let a = states[i];
        let b = states[k];
        assert(a.wf());
        assert(b.wf());
        assert(a.recv_outcomes_view().len() <= 1);
        assert(b.recv_outcomes_view().len() <= 1);
        assert(step_post(a, states[i + 1], scheds[i], scheds[i + 1], steps[i], send_rs[i], recv_rs[i]));
        let r0 = received_by(steps, recv_rs, i);
        let p0 = pending_values(a.recv_outcomes_view());
        let q0 = a.queue_view();
        let total = states[0].queue_view() + sent_by(steps, i);
        assert(r0 + p0 + q0 == total);
        assert(sender_values(a.senders_view()).len() == a.senders_view().len());
        assert(sender_values(b.senders_view()).len() == b.senders_view().len());
        match steps[i] {
            ChannelStep::Send(task, v) => {
                assert(step_received(steps[i], recv_rs[i]) =~= Seq::<T>::empty());
                if a.receivers_view().len() > 0 {
                    assert(a.senders_view().len() == 0);
                    assert(q0 =~= Seq::<T>::empty());
                    assert(b.senders_view().len() == 0);
                    assert(b.queue_view() =~= Seq::<T>::empty());
                    assert(pending_values(b.recv_outcomes_view()) =~= p0.push(v));
                } else if a.storage_view().len() >= a.capacity_view() {
                    assert(sender_values(b.senders_view()) =~= sender_values(a.senders_view()).push(v));
                    assert(b.queue_view() =~= q0.push(v));
                    assert(pending_values(b.recv_outcomes_view()) =~= p0);
                } else {
                    assert(a.senders_view().len() == 0);
                    assert(sender_values(a.senders_view()) =~= Seq::<T>::empty());
                    assert(b.queue_view() =~= q0.push(v));
                    assert(pending_values(b.recv_outcomes_view()) =~= p0);
                }
                assert(received_by(steps, recv_rs, k) + pending_values(b.recv_outcomes_view())
                    + b.queue_view() =~= total + seq![v]);
            },
            ChannelStep::Recv(task) => {
                assert(a.recv_outcomes_view().len() == 0);
                assert(p0 =~= Seq::<T>::empty());
                assert(b.recv_outcomes_view() == a.recv_outcomes_view());
                assert(pending_values(b.recv_outcomes_view()) =~= Seq::<T>::empty());
                if q0.len() > 0 {
                    assert(received_by(steps, recv_rs, k) =~= r0.push(q0[0]));
                    assert(received_by(steps, recv_rs, k) + pending_values(b.recv_outcomes_view())
                        + b.queue_view() =~= r0 + p0 + q0);
                } else {
                    assert(received_by(steps, recv_rs, k) =~= r0);
                    assert(b.queue_view() =~= q0);
                    assert(received_by(steps, recv_rs, k) + pending_values(b.recv_outcomes_view())
                        + b.queue_view() =~= r0 + p0 + q0);
                }
            },
            ChannelStep::TakeSendOutcome(task) => {
                assert(received_by(steps, recv_rs, k) =~= r0);
                assert(b.queue_view() =~= q0);
                assert(received_by(steps, recv_rs, k) + pending_values(b.recv_outcomes_view())
                    + b.queue_view() =~= r0 + p0 + q0);
            },
            ChannelStep::TakeRecvOutcome(task) => {
                assert(b.queue_view() =~= q0);
                match recv_rs[i] {
                    Some(x) => {
                        let j = choose|j: int|
                            #![trigger a.recv_outcomes_view()[j]]
                            is_first_index_of(a.recv_outcomes_view(), task, j) && x
                                == a.recv_outcomes_view()[j].1 && b.recv_outcomes_view()
                                == a.recv_outcomes_view().remove(j);
                        assert(j == 0);
                        assert(a.recv_outcomes_view()[0].1 is Received);
                        assert(p0 =~= seq![a.recv_outcomes_view()[0].1->Received_0]);
                        assert(b.recv_outcomes_view() =~= Seq::<(Task, RecvResult<T>)>::empty());
                        assert(pending_values(b.recv_outcomes_view()) =~= Seq::<T>::empty());
                        assert(received_by(steps, recv_rs, k) =~= r0 + p0);
                    },
                    None => {
                        assert(received_by(steps, recv_rs, k) =~= r0);
                        assert(pending_values(b.recv_outcomes_view()) =~= p0);
                    },
                }
                assert(received_by(steps, recv_rs, k) + pending_values(b.recv_outcomes_view())
                    + b.queue_view() =~= r0 + p0 + q0);
            },
        }
        assert(sent_by(steps, k) == sent_by(steps, i) + step_sent(steps[i]));
    }
}

/// Values come out of a channel in the order in which they went in, each once, through the
/// send and receive futures: on an open channel, used by one receiver at a time, the values
/// that the receives give, in order, are the values that were queued before and then the
/// values sent, in order, with none left out or given twice; what has not been received yet
/// is handed to a woken receiver or still queued, in the same order.
pub proof fn lemma_channel_order<T>(
    states: Seq<ChannelState<T>>,
    scheds: Seq<Scheduler>,
    steps: Seq<ChannelStep<T>>,
    send_rs: Seq<Option<SendResult<T>>>,
    recv_rs: Seq<Option<RecvResult<T>>>,
)
    requires
        channel_run(states, scheds, steps, send_rs, recv_rs),
    ensures
        received_by(steps, recv_rs, steps.len() as int) + pending_values(
            states[steps.len() as int].recv_outcomes_view(),
        ) + states[steps.len() as int].queue_view() == states[0].queue_view() + sent_by(
            steps,
            steps.len() as int,
        ),
        forall|j: int|
            0 <= j < received_by(steps, recv_rs, steps.len() as int).len() ==> #[trigger] received_by(
                steps,
                recv_rs,
                steps.len() as int,
            )[j] == (states[0].queue_view() + sent_by(steps, steps.len() as int))[j],
{
    let m = steps.len() as int;
    lemma_channel_order_upto(states, scheds, steps, send_rs, recv_rs, m);
    let r = received_by(steps, recv_rs, m);
    let rest = pending_values(states[m].recv_outcomes_view()) + states[m].queue_view();
    assert(r + pending_values(states[m].recv_outcomes_view()) + states[m].queue_view() =~= r + rest);
    assert forall|j: int| 0 <= j < r.len() implies #[trigger] r[j] == (states[0].queue_view()
        + sent_by(steps, m))[j] by {
        assert((r + rest)[j] == r[j]);
    }
}

/// A closed channel refuses the futures too: the first poll of a receive reports
/// [`RecvResult::Closed`] and the first poll of a send gives its value back, whatever the
/// buffer holds, and neither parks its task.
pub proof fn lemma_closed_refuses_futures<T>(
    s0: ChannelState<T>,
    s1: ChannelState<T>,
    s2: ChannelState<T>,
    s3: ChannelState<T>,
    value: T,
    sender: Task,
    receiver: Task,
    a: Scheduler,
    b: Scheduler,
    c: Scheduler,
    d: Scheduler,
    sent: Option<SendResult<T>>,
    received: Option<RecvResult<T>>,
    spawn: bool,
)
    requires
        s0.wf(),
        close_post(s0, s1, a, b, spawn),
        recv_first_post(s1, s2, receiver, b, c, received),
        send_first_post(s2, s3, value, sender, c, d, sent),
    ensures
        received == Some(RecvResult::<T>::Closed),
        sent == Some(SendResult::Closed(value)),
        s3.receivers_view().len() == 0,
        s3.senders_view().len() == 0,
{
}

} // verus!
