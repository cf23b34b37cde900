//! The channel between tasks of any thread: [`Channel`], its handles [`Sender`] and
//! [`Receiver`], and the futures [`WaitSend`] and [`WaitRecv`].
//!
//! The state of the channel sits behind a [`NaiveMutex`]. An operation that finds the mutex
//! locked does not wait on it: a non-blocking operation reports `Locked`, and a future puts its
//! task back into the run queue and tries again on its next poll.
use crate::sync::channel_results::{
    Poll, RecvInResult, RecvResult, SendResult, TryRecvInResult, TryRecvResult, TrySendResult,
};
use crate::sync::channel_state::{
    close_post, recv_first_post, send_first_post, take_recv_outcome_post, take_send_outcome_post,
    ChannelState,
};
use crate::sync::channel_traits::{
    poll_in_result, poll_in_slot, recv_in_result, recv_in_slot, AsyncChannel, AsyncReceiver, AsyncSender,
};
use crate::sync::local_channel::{poll_output, RecvCallState, SendCallState};
use crate::sync::deques_pool::{lists_after_get, put_post, ChannelInnerVecDequePool, Deques};
use crate::sync::naive_mutex::NaiveMutex;
use crate::task::{Scheduler, Task};
use vstd::prelude::*;

verus! {

/// A channel between tasks of any thread.
///
/// A bounded channel buffers at most `capacity` values; an unbounded one has the capacity
/// `usize::MAX`. Values are received in the order in which they were sent.
pub struct Channel<T> {
    inner: NaiveMutex<ChannelState<T>>,
}

impl<T> Channel<T> {
    /// The state of the channel.
    pub closed spec fn state(&self) -> ChannelState<T> {
        self.inner.value_view()
    }

    /// Whether the mutex that guards the state is held by some operation.
    pub closed spec fn locked(&self) -> bool {
        self.inner.locked_view()
    }

    /// The invariant of the channel.
    pub open spec fn wf(&self) -> bool {
        self.state().wf()
    }

    /// Creates an empty, open, unlocked channel whose buffer holds at most `capacity` values.
    pub fn bounded(capacity: usize) -> (c: Self)
        ensures
            c.wf(),
            !c.locked(),
            c.state().storage_view() == Seq::<T>::empty(),
            c.state().capacity_view() == capacity,
            !c.state().closed_view(),
            c.state().senders_view() == Seq::<(Task, T)>::empty(),
            c.state().receivers_view() == Seq::<Task>::empty(),
            c.state().send_outcomes_view() == Seq::<(Task, SendResult<T>)>::empty(),
            c.state().recv_outcomes_view() == Seq::<(Task, RecvResult<T>)>::empty(),
    {
        Channel { inner: NaiveMutex::new(ChannelState::bounded(capacity)) }
    }

    /// Creates an empty, open, unlocked channel without a bound: its capacity is `usize::MAX`.
    pub fn unbounded() -> (c: Self)
        ensures
            c.wf(),
            !c.locked(),
            c.state().storage_view() == Seq::<T>::empty(),
            c.state().capacity_view() == usize::MAX,
            !c.state().closed_view(),
            c.state().senders_view() == Seq::<(Task, T)>::empty(),
            c.state().receivers_view() == Seq::<Task>::empty(),
            c.state().send_outcomes_view() == Seq::<(Task, SendResult<T>)>::empty(),
            c.state().recv_outcomes_view() == Seq::<(Task, RecvResult<T>)>::empty(),
    {
        Channel { inner: NaiveMutex::new(ChannelState::unbounded()) }
    }

    /// Creates an empty, open channel whose buffer holds at most `capacity` values, and whose
    /// wait lists are taken from `pool` (see [`ChannelInnerVecDequePool::get`]).
    pub fn bounded_in(capacity: usize, pool: &mut ChannelInnerVecDequePool<T>) -> (c: Self)
        ensures
            c.wf(),
            !c.locked(),
            c.state().storage_view() == Seq::<T>::empty(),
            c.state().capacity_view() == capacity,
            !c.state().closed_view(),
            c.state().senders_view() == Seq::<(Task, T)>::empty(),
            c.state().receivers_view() == Seq::<Task>::empty(),
            c.state().send_outcomes_view() == Seq::<(Task, SendResult<T>)>::empty(),
            c.state().recv_outcomes_view() == Seq::<(Task, RecvResult<T>)>::empty(),
            final(pool).lists() == lists_after_get(old(pool).lists()),
    {
        let deques = pool.get();
        Channel { inner: NaiveMutex::new(ChannelState::with_deques(capacity, deques)) }
    }

    /// Creates an empty, open channel without a bound, whose wait lists are taken from `pool`.
    pub fn unbounded_in(pool: &mut ChannelInnerVecDequePool<T>) -> (c: Self)
        ensures
            c.wf(),
            !c.locked(),
            c.state().storage_view() == Seq::<T>::empty(),
            c.state().capacity_view() == usize::MAX,
            !c.state().closed_view(),
            c.state().senders_view() == Seq::<(Task, T)>::empty(),
            c.state().receivers_view() == Seq::<Task>::empty(),
            c.state().send_outcomes_view() == Seq::<(Task, SendResult<T>)>::empty(),
            c.state().recv_outcomes_view() == Seq::<(Task, RecvResult<T>)>::empty(),
            final(pool).lists() == lists_after_get(old(pool).lists()),
    {
        Self::bounded_in(usize::MAX, pool)
    }

    /// Gives up the channel and keeps its wait lists in `pool` for the next channel.
    pub fn release_deques(self, pool: &mut ChannelInnerVecDequePool<T>)
        ensures
            exists|d: Deques<T>|
                put_post(old(pool).lists(), final(pool).lists(), d) && d.senders@
                    == self.state().senders_view() && d.receivers@ == self.state().receivers_view(),
    {
        let Channel { inner } = self;
        let state = inner.into_inner();
        let deques = state.into_deques();
        pool.put(deques);
    }

    /// Returns a sending and a receiving handle of the channel.
    pub fn split(&self) -> (r: (Sender, Receiver))
        ensures
            r.0.channel_id_view() == self.state().id(),
            r.1.channel_id_view() == self.state().id(),
    {
        let ghost id = self.state().id();
        (Sender { channel_id: Ghost(id) }, Receiver { channel_id: Ghost(id) })
    }

    /// Creates a future that sends `value` into the channel.
    pub fn send(&self, value: T) -> (f: WaitSend<T>)
        ensures
            f.call_state_view() is FirstCall,
            f.value_view() == Some(value),
            f.channel_id_view() == self.state().id(),
    {
        WaitSend {
            call_state: SendCallState::FirstCall,
            value: Some(value),
            channel_id: Ghost(self.state().id()),
        }
    }

    /// Creates a future that receives a value from the channel.
    pub fn recv(&self) -> (f: WaitRecv)
        ensures
            f.call_state_view() is FirstCall,
            f.channel_id_view() == self.state().id(),
    {
        WaitRecv { call_state: RecvCallState::FirstCall, channel_id: Ghost(self.state().id()) }
    }

    /// One poll of the close future of `task`: if the state is locked, `task` goes back into
    /// the run queue and the result is [`Poll::Pending`]; else the channel is closed (see
    /// [`ChannelState::close`]) and the parked tasks are put into the run queue.
    pub fn close(&mut self, task: Task, sched: &mut Scheduler) -> (r: Poll<()>)
        requires
            old(self).wf(),
        ensures
            final(self).wf(),
            final(self).locked() == old(self).locked(),
            old(self).locked() ==> r is Pending && final(self).state() == old(self).state() && final(sched).spawned_after(old(sched), seq![task]),
            !old(self).locked() ==> r is Ready && close_post(
                old(self).state(),
                final(self).state(),
                *old(sched),
                *final(sched),
                true,
            ),
    {
        match self.inner.try_lock() {
            Some(guard) => {
                self.inner.get_mut().close(sched, true);
                guard.unlock(&mut self.inner);
                Poll::Ready(())
            },
            None => {
                sched.spawn_task(task);
                Poll::Pending
            },
        }
    }
}

impl<T> AsyncSender<T> for Channel<T> {
    open spec fn sender_state(&self) -> ChannelState<T> {
        self.state()
    }

    open spec fn sender_locked(&self) -> bool {
        self.locked()
    }

    /// A shared channel puts the tasks that closing wakes into the run queue.
    open spec fn sender_close_spawns(&self) -> bool {
        true
    }

    fn try_send(&mut self, value: T, sched: &mut Scheduler) -> (r: TrySendResult<T>) {
        match self.inner.try_lock() {
            Some(guard) => {
                let r = self.inner.get_mut().try_send(value, sched);
                guard.unlock(&mut self.inner);
                r
            },
            None => TrySendResult::Locked(value),
        }
    }

    fn sender_close(&mut self, sched: &mut Scheduler) {
        let guard = match self.inner.try_lock() {
            Some(g) => g,
            None => vstd::pervasive::unreached(),
        };
        self.inner.get_mut().close(sched, true);
        guard.unlock(&mut self.inner);
    }
}

impl<T> AsyncReceiver<T> for Channel<T> {
    open spec fn receiver_state(&self) -> ChannelState<T> {
        self.state()
    }

    open spec fn receiver_locked(&self) -> bool {
        self.locked()
    }

    /// A shared channel puts the tasks that closing wakes into the run queue.
    open spec fn receiver_close_spawns(&self) -> bool {
        true
    }

    fn try_recv(&mut self, sched: &mut Scheduler) -> (r: TryRecvResult<T>) {
        match self.inner.try_lock() {
            Some(guard) => {
                let r = self.inner.get_mut().try_recv(sched);
                guard.unlock(&mut self.inner);
                r
            },
            None => TryRecvResult::Locked,
        }
    }

    fn try_recv_in(&mut self, slot: &mut T, sched: &mut Scheduler) -> (r: TryRecvInResult) {
        let res = self.try_recv(sched);
        let ghost g = res;
        let r = match res {
            TryRecvResult::Received(v) => {
                *slot = v;
                TryRecvInResult::Received
            },
            TryRecvResult::Empty => TryRecvInResult::Empty,
            TryRecvResult::Locked => TryRecvInResult::Locked,
            TryRecvResult::Closed => TryRecvInResult::Closed,
        };
        assert(r == recv_in_result(g) && recv_in_slot(g, *old(slot), *slot));
        r
    }

    fn receiver_close(&mut self, sched: &mut Scheduler) {
        let guard = match self.inner.try_lock() {
            Some(g) => g,
            None => vstd::pervasive::unreached(),
        };
        self.inner.get_mut().close(sched, true);
        guard.unlock(&mut self.inner);
    }
}

/// A future that sends a value into a [`Channel`].
pub struct WaitSend<T> {
    call_state: SendCallState,
    value: Option<T>,
    channel_id: Ghost<int>,
}

impl<T> WaitSend<T> {
    /// The stage of the future.
    pub closed spec fn call_state_view(&self) -> SendCallState {
        self.call_state
    }

    /// The value that the future still holds.
    pub closed spec fn value_view(&self) -> Option<T> {
        self.value
    }

    /// The identity of the channel that the future sends into.
    pub closed spec fn channel_id_view(&self) -> int {
        self.channel_id@
    }

    /// Whether the future may be polled: it has not finished, and holds its value until its
    /// first poll.
    pub open spec fn pollable(&self) -> bool {
        &&& !(self.call_state_view() is Finished)
        &&& self.call_state_view() is FirstCall ==> self.value_view() is Some
    }

    /// Polls the future on behalf of `task`.
    ///
    /// On the first poll, if the channel is locked, `task` goes back into the run queue and the
    /// result is [`Poll::Pending`]; else this is [`ChannelState::send_first_call`]. On a later
    /// poll the outcome recorded for `task` is taken.
    pub fn poll(&mut self, channel: &mut Channel<T>, task: Task, sched: &mut Scheduler) -> (r:
        Poll<SendResult<T>>)
        requires
            old(channel).wf(),
            old(self).pollable(),
            old(self).channel_id_view() == old(channel).state().id(),
        ensures
            final(channel).wf(),
            final(self).channel_id_view() == old(self).channel_id_view(),
            final(channel).state().id() == old(channel).state().id(),
            final(self).pollable() || r is Ready,
            final(channel).locked() == old(channel).locked(),
            old(self).call_state_view() is FirstCall && old(channel).locked() ==> {
                &&& r is Pending
                &&& *final(self) == *old(self)
                &&& final(channel).state() == old(channel).state()
                &&& final(sched).spawned_after(old(sched), seq![task])
            },
            old(self).call_state_view() is FirstCall && !old(channel).locked() ==> send_first_post(
                old(channel).state(),
                final(channel).state(),
                old(self).value_view().unwrap(),
                task,
                *old(sched),
                *final(sched),
                poll_output(r),
            ),
            old(self).call_state_view() is Parked ==> take_send_outcome_post(
                old(channel).state(),
                final(channel).state(),
                task,
                poll_output(r),
            ) && final(sched).same_as(old(sched)),
            r is Ready ==> final(self).call_state_view() is Finished,
            r is Pending && !(old(self).call_state_view() is FirstCall && old(channel).locked())
                ==> final(self).call_state_view() is Parked,
    {
        match self.call_state {
            SendCallState::FirstCall => {
                match channel.inner.try_lock() {
                    Some(guard) => {
                        let value = match self.value.take() {
                            Some(v) => v,
                            None => vstd::pervasive::unreached(),
                        };
                        let res = channel.inner.get_mut().send_first_call(value, task, sched);
                        guard.unlock(&mut channel.inner);
                        match res {
                            Some(res) => {
                                self.call_state = SendCallState::Finished;
                                Poll::Ready(res)
                            },
                            None => {
                                self.call_state = SendCallState::Parked;
                                Poll::Pending
                            },
                        }
                    },
                    None => {
                        sched.spawn_task(task);
                        Poll::Pending
                    },
                }
            },
            SendCallState::Parked => match channel.inner.get_mut().take_send_outcome(task) {
                Some(res) => {
                    self.call_state = SendCallState::Finished;
                    Poll::Ready(res)
                },
                None => Poll::Pending,
            },
            SendCallState::Finished => vstd::pervasive::unreached(),
        }
    }
}

/// A future that receives a value from a [`Channel`].
pub struct WaitRecv {
    call_state: RecvCallState,
    channel_id: Ghost<int>,
}

impl WaitRecv {
    /// The stage of the future.
    pub closed spec fn call_state_view(&self) -> RecvCallState {
        self.call_state
    }

    /// The identity of the channel that the future receives from.
    pub closed spec fn channel_id_view(&self) -> int {
        self.channel_id@
    }

    /// Polls the future on behalf of `task` as [`poll`](WaitRecv::poll) does, and writes a
    /// received value into `slot`, which keeps what it held otherwise.
    pub fn poll_in<T>(&mut self, channel: &mut Channel<T>, slot: &mut T, task: Task, sched: &mut Scheduler) -> (r: Poll<RecvInResult>)
        requires
            old(channel).wf(),
            !(old(self).call_state_view() is Finished),
            old(self).channel_id_view() == old(channel).state().id(),
        ensures
            final(channel).wf(),
            final(self).channel_id_view() == old(self).channel_id_view(),
            final(channel).state().id() == old(channel).state().id(),
            final(channel).locked() == old(channel).locked(),
            exists|res: Poll<RecvResult<T>>|
                {
                    &&& r == poll_in_result(res)
                    &&& poll_in_slot(res, *old(slot), *final(slot))
                    &&& old(self).call_state_view() is FirstCall && old(channel).locked() ==> res is Pending
                        && *final(self) == *old(self) && final(channel).state() == old(channel).state()
                        && final(sched).spawned_after(old(sched), seq![task])
                    &&& old(self).call_state_view() is FirstCall && !old(channel).locked() ==> recv_first_post(
                        old(channel).state(),
                        final(channel).state(),
                        task,
                        *old(sched),
                        *final(sched),
                        poll_output(res),
                    )
                    &&& old(self).call_state_view() is Parked ==> take_recv_outcome_post(
                        old(channel).state(),
                        final(channel).state(),
                        task,
                        poll_output(res),
                    ) && final(sched).same_as(old(sched))
                },
            r is Ready ==> final(self).call_state_view() is Finished,
            r is Pending && !(old(self).call_state_view() is FirstCall && old(channel).locked())
                ==> final(self).call_state_view() is Parked,
    {
        let res = self.poll(channel, task, sched);
        let ghost g = res;
        let r = match res {
            Poll::Ready(RecvResult::Received(v)) => {
                *slot = v;
                Poll::Ready(RecvInResult::Received)
            },
            Poll::Ready(RecvResult::Closed) => Poll::Ready(RecvInResult::Closed),
            Poll::Pending => Poll::Pending,
        };
        assert(r == poll_in_result(g) && poll_in_slot(g, *old(slot), *slot));
        r
    }

    /// Polls the future on behalf of `task`.
    ///
    /// On the first poll, if the channel is locked, `task` goes back into the run queue and the
    /// result is [`Poll::Pending`]; else this is [`ChannelState::recv_first_call`]. On a later
    /// poll the outcome recorded for `task` is taken.
    pub fn poll<T>(&mut self, channel: &mut Channel<T>, task: Task, sched: &mut Scheduler) -> (r:
        Poll<RecvResult<T>>)
        requires
            old(channel).wf(),
            !(old(self).call_state_view() is Finished),
            old(self).channel_id_view() == old(channel).state().id(),
        ensures
            final(channel).wf(),
            final(self).channel_id_view() == old(self).channel_id_view(),
            final(channel).state().id() == old(channel).state().id(),
            final(channel).locked() == old(channel).locked(),
            old(self).call_state_view() is FirstCall && old(channel).locked() ==> {
                &&& r is Pending
                &&& *final(self) == *old(self)
                &&& final(channel).state() == old(channel).state()
                &&& final(sched).spawned_after(old(sched), seq![task])
            },
            old(self).call_state_view() is FirstCall && !old(channel).locked() ==> recv_first_post(
                old(channel).state(),
                final(channel).state(),
                task,
                *old(sched),
                *final(sched),
                poll_output(r),
            ),
            old(self).call_state_view() is Parked ==> take_recv_outcome_post(
                old(channel).state(),
                final(channel).state(),
                task,
                poll_output(r),
            ) && final(sched).same_as(old(sched)),
            r is Ready ==> final(self).call_state_view() is Finished,
            r is Pending && !(old(self).call_state_view() is FirstCall && old(channel).locked())
                ==> final(self).call_state_view() is Parked,
    {
        match self.call_state {
            RecvCallState::FirstCall => {
                match channel.inner.try_lock() {
                    Some(guard) => {
                        let res = channel.inner.get_mut().recv_first_call(task, sched);
                        guard.unlock(&mut channel.inner);
                        match res {
                            Some(res) => {
                                self.call_state = RecvCallState::Finished;
                                Poll::Ready(res)
                            },
                            None => {
                                self.call_state = RecvCallState::Parked;
                                Poll::Pending
                            },
                        }
                    },
                    None => {
                        sched.spawn_task(task);
                        Poll::Pending
                    },
                }
            },
            RecvCallState::Parked => match channel.inner.get_mut().take_recv_outcome(task) {
                Some(res) => {
                    self.call_state = RecvCallState::Finished;
                    Poll::Ready(res)
                },
                None => Poll::Pending,
            },
            RecvCallState::Finished => vstd::pervasive::unreached(),
        }
    }
}

/// The sending handle of a [`Channel`]; its operations act on the channel it is given.
pub struct Sender {
    channel_id: Ghost<int>,
}

impl Clone for Sender {
    /// Another handle of the same channel.
    fn clone(&self) -> (h: Self)
        ensures
            h.channel_id_view() == self.channel_id_view(),
    {
        Sender { channel_id: Ghost(self.channel_id@) }
    }
}

/// The receiving handle of a [`Channel`]; its operations act on the channel it is given.
pub struct Receiver {
    channel_id: Ghost<int>,
}

impl Clone for Receiver {
    /// Another handle of the same channel.
    fn clone(&self) -> (h: Self)
        ensures
            h.channel_id_view() == self.channel_id_view(),
    {
        Receiver { channel_id: Ghost(self.channel_id@) }
    }
}

impl Sender {
    /// The identity of the channel that the handle belongs to.
    pub closed spec fn channel_id_view(&self) -> int {
        self.channel_id@
    }

    /// Creates a future that sends `value` into `channel`.
    pub fn send<T>(&self, channel: &Channel<T>, value: T) -> (f: WaitSend<T>)
        requires
            self.channel_id_view() == channel.state().id(),
        ensures
            f.call_state_view() is FirstCall,
            f.value_view() == Some(value),
            f.channel_id_view() == channel.state().id(),
    {
        channel.send(value)
    }
}

impl Receiver {
    /// The identity of the channel that the handle belongs to.
    pub closed spec fn channel_id_view(&self) -> int {
        self.channel_id@
    }

    /// Creates a future that receives a value from `channel`.
    pub fn recv<T>(&self, channel: &Channel<T>) -> (f: WaitRecv)
        requires
            self.channel_id_view() == channel.state().id(),
        ensures
            f.call_state_view() is FirstCall,
            f.channel_id_view() == channel.state().id(),
    {
        channel.recv()
    }
}

impl<T> AsyncChannel<T> for Channel<T> {
    type Sender = Sender;

    type Receiver = Receiver;

    fn bounded(capacity: usize) -> (c: Self) {
        Channel::bounded(capacity)
    }

    fn unbounded() -> (c: Self) {
        Channel::unbounded()
    }

    fn split(&self) -> (Sender, Receiver) {
        Channel::split(self)
    }
}

} // verus!
