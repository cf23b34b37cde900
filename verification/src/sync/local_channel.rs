//! The channel between the tasks of one thread: [`LocalChannel`], its handles
//! [`LocalSender`] and [`LocalReceiver`], and the futures [`WaitLocalSend`] and
//! [`WaitLocalRecv`].
use crate::sync::channel_results::{
    Poll, RecvInResult, RecvResult, SendResult, TryRecvInResult, TryRecvResult, TrySendResult,
};
use crate::sync::channel_state::{
    close_post, recv_first_post, send_first_post, take_recv_outcome_post, take_send_outcome_post,
    try_recv_post, try_send_post, ChannelState,
};
use crate::sync::channel_traits::{
    poll_in_result, poll_in_slot, recv_in_result, recv_in_slot, AsyncChannel, AsyncReceiver, AsyncSender,
};
use crate::task::{Scheduler, Task};
use vstd::prelude::*;

verus! {

/// The option that a poll result stands for: `Some` output when ready, `None` when pending.
pub open spec fn poll_output<X>(p: Poll<X>) -> Option<X> {
    match p {
        Poll::Ready(x) => Some(x),
        Poll::Pending => None,
    }
}

/// The stage of a send future.
pub enum SendCallState {
    /// The future was not polled yet.
    FirstCall,
    /// The task is parked; a poll takes the outcome that the channel recorded for it.
    Parked,
    /// The future has returned its output.
    Finished,
}

/// The stage of a receive future.
pub enum RecvCallState {
    /// The future was not polled yet.
    FirstCall,
    /// The task is parked; a poll takes the outcome that the channel recorded for it.
    Parked,
    /// The future has returned its output.
    Finished,
}

/// A future that sends a value into a [`LocalChannel`].
///
/// Its first poll sends the value at once if a receiver waits or the buffer has room, and else
/// parks the task with the value. A later poll returns the outcome recorded by the channel.
pub struct WaitLocalSend<T> {
    call_state: SendCallState,
    value: Option<T>,
    channel_id: Ghost<int>,
}

impl<T> WaitLocalSend<T> {
    /// The stage of the future.
    pub closed spec fn call_state_view(&self) -> SendCallState {
        self.call_state
    }

    /// The value that the future still holds.
    pub closed spec fn value_view(&self) -> Option<T> {
        self.value
    }

    /// The identity of the channel that the future sends into.
    pub closed spec fn channel_id_view(&self) -> int {
        self.channel_id@
    }

    /// Whether the future may be polled: it has not finished, and holds its value until its
    /// first poll.
    pub open spec fn pollable(&self) -> bool {
        &&& !(self.call_state_view() is Finished)
        &&& self.call_state_view() is FirstCall ==> self.value_view() is Some
    }

    /// Creates a future that sends `value` into `channel`.
    pub fn new(value: T, channel: &LocalChannel<T>) -> (f: Self)
        ensures
            f.call_state_view() is FirstCall,
            f.value_view() == Some(value),
            f.channel_id_view() == channel.state().id(),
    {
        WaitLocalSend {
            call_state: SendCallState::FirstCall,
            value: Some(value),
            channel_id: Ghost(channel.state().id()),
        }
    }

    /// Polls the future on behalf of `task`.
    ///
    /// On the first poll this is [`ChannelState::send_first_call`] with the value; when the
    /// task gets parked the result is [`Poll::Pending`]. On a later poll the outcome recorded
    /// for `task` is taken ([`ChannelState::take_send_outcome`]); if there is none yet, the
    /// result is [`Poll::Pending`].
    pub fn poll(&mut self, channel: &mut LocalChannel<T>, task: Task, sched: &mut Scheduler) -> (r:
        Poll<SendResult<T>>)
        requires
            old(channel).wf(),
            old(self).pollable(),
            old(self).channel_id_view() == old(channel).state().id(),
        ensures
            final(channel).wf(),
            final(self).channel_id_view() == old(self).channel_id_view(),
            final(channel).state().id() == old(channel).state().id(),
            old(self).call_state_view() is FirstCall ==> send_first_post(
                old(channel).state(),
                final(channel).state(),
                old(self).value_view().unwrap(),
                task,
                *old(sched),
                *final(sched),
                poll_output(r),
            ),
            old(self).call_state_view() is Parked ==> take_send_outcome_post(
                old(channel).state(),
                final(channel).state(),
                task,
                poll_output(r),
            ) && final(sched).same_as(old(sched)),
            r is Pending ==> final(self).call_state_view() is Parked,
            r is Ready ==> final(self).call_state_view() is Finished,
    {
        match self.call_state {
            SendCallState::FirstCall => {
                let value = match self.value.take() {
                    Some(v) => v,
                    None => vstd::pervasive::unreached(),
                };
                match channel.inner.send_first_call(value, task, sched) {
                    Some(res) => {
                        self.call_state = SendCallState::Finished;
                        Poll::Ready(res)
                    },
                    None => {
                        self.call_state = SendCallState::Parked;
                        Poll::Pending
                    },
                }
            },
            SendCallState::Parked => match channel.inner.take_send_outcome(task) {
                Some(res) => {
                    self.call_state = SendCallState::Finished;
                    Poll::Ready(res)
                },
                None => Poll::Pending,
            },
            SendCallState::Finished => vstd::pervasive::unreached(),
        }
    }
}

/// A future that receives a value from a [`LocalChannel`].
///
/// Its first poll receives at once if the channel holds a value, and else parks the task.
/// A later poll returns the outcome recorded by the channel.
pub struct WaitLocalRecv {
    call_state: RecvCallState,
    channel_id: Ghost<int>,
}

impl WaitLocalRecv {
    /// The stage of the future.
    pub closed spec fn call_state_view(&self) -> RecvCallState {
        self.call_state
    }

    /// The identity of the channel that the future receives from.
    pub closed spec fn channel_id_view(&self) -> int {
        self.channel_id@
    }

    /// Creates a future that receives a value from `channel`.
    pub fn new<T>(channel: &LocalChannel<T>) -> (f: Self)
        ensures
            f.call_state_view() is FirstCall,
            f.channel_id_view() == channel.state().id(),
    {
        WaitLocalRecv { call_state: RecvCallState::FirstCall, channel_id: Ghost(channel.state().id()) }
    }

    /// Polls the future on behalf of `task`.
    ///
    /// On the first poll this is [`ChannelState::recv_first_call`]; when the task gets parked
    /// the result is [`Poll::Pending`]. On a later poll the outcome recorded for `task` is taken
    /// ([`ChannelState::take_recv_outcome`]); if there is none yet, the result is
    /// [`Poll::Pending`].
    pub fn poll<T>(&mut self, channel: &mut LocalChannel<T>, task: Task, sched: &mut Scheduler) -> (r:
        Poll<RecvResult<T>>)
        requires
            old(channel).wf(),
            !(old(self).call_state_view() is Finished),
            old(self).channel_id_view() == old(channel).state().id(),
        ensures
            final(channel).wf(),
            final(self).channel_id_view() == old(self).channel_id_view(),
            final(channel).state().id() == old(channel).state().id(),
            old(self).call_state_view() is FirstCall ==> recv_first_post(
                old(channel).state(),
                final(channel).state(),
                task,
                *old(sched),
                *final(sched),
                poll_output(r),
            ),
            old(self).call_state_view() is Parked ==> take_recv_outcome_post(
                old(channel).state(),
                final(channel).state(),
                task,
                poll_output(r),
            ) && final(sched).same_as(old(sched)),
            r is Pending ==> final(self).call_state_view() is Parked,
            r is Ready ==> final(self).call_state_view() is Finished,
    {
        match self.call_state {
            RecvCallState::FirstCall => match channel.inner.recv_first_call(task, sched) {
                Some(res) => {
                    self.call_state = RecvCallState::Finished;
                    Poll::Ready(res)
                },
                None => {
                    self.call_state = RecvCallState::Parked;
                    Poll::Pending
                },
            },
            RecvCallState::Parked => match channel.inner.take_recv_outcome(task) {
                Some(res) => {
                    self.call_state = RecvCallState::Finished;
                    Poll::Ready(res)
                },
                None => Poll::Pending,
            },
            RecvCallState::Finished => vstd::pervasive::unreached(),
        }
    }

    /// Polls the future on behalf of `task` as [`poll`](WaitLocalRecv::poll) does, and writes
    /// a received value into `slot`, which keeps what it held otherwise.
    pub fn poll_in<T>(&mut self, channel: &mut LocalChannel<T>, slot: &mut T, task: Task, sched: &mut Scheduler) -> (r: Poll<RecvInResult>)
        requires
            old(channel).wf(),
            !(old(self).call_state_view() is Finished),
            old(self).channel_id_view() == old(channel).state().id(),
        ensures
            final(channel).wf(),
            final(self).channel_id_view() == old(self).channel_id_view(),
            final(channel).state().id() == old(channel).state().id(),
            exists|res: Poll<RecvResult<T>>|
                {
                    &&& r == poll_in_result(res)
                    &&& poll_in_slot(res, *old(slot), *final(slot))
                    &&& old(self).call_state_view() is FirstCall ==> recv_first_post(
                        old(channel).state(),
                        final(channel).state(),
                        task,
                        *old(sched),
                        *final(sched),
                        poll_output(res),
                    )
                    &&& old(self).call_state_view() is Parked ==> take_recv_outcome_post(
                        old(channel).state(),
                        final(channel).state(),
                        task,
                        poll_output(res),
                    ) && final(sched).same_as(old(sched))
                },
            r is Pending ==> final(self).call_state_view() is Parked,
            r is Ready ==> final(self).call_state_view() is Finished,
    {
        let res = self.poll(channel, task, sched);
        let ghost g = res;
        let r = match res {
            Poll::Ready(RecvResult::Received(v)) => {
                *slot = v;
                Poll::Ready(RecvInResult::Received)
            },
            Poll::Ready(RecvResult::Closed) => Poll::Ready(RecvInResult::Closed),
            Poll::Pending => Poll::Pending,
        };
        assert(r == poll_in_result(g) && poll_in_slot(g, *old(slot), *slot));
        r
    }
}

/// The sending handle of a [`LocalChannel`]; its operations act on the channel it is given.
pub struct LocalSender {
    channel_id: Ghost<int>,
}

impl Clone for LocalSender {
    /// Another handle of the same channel.
    fn clone(&self) -> (h: Self)
        ensures
            h.channel_id_view() == self.channel_id_view(),
    {
        LocalSender { channel_id: Ghost(self.channel_id@) }
    }
}

/// The receiving handle of a [`LocalChannel`]; its operations act on the channel it is given.
pub struct LocalReceiver {
    channel_id: Ghost<int>,
}

impl Clone for LocalReceiver {
    /// Another handle of the same channel.
    fn clone(&self) -> (h: Self)
        ensures
            h.channel_id_view() == self.channel_id_view(),
    {
        LocalReceiver { channel_id: Ghost(self.channel_id@) }
    }
}

impl LocalSender {
    /// The identity of the channel that the handle belongs to.
    pub closed spec fn channel_id_view(&self) -> int {
        self.channel_id@
    }

    /// Creates a sending handle of `channel`.
    fn new<T>(channel: &LocalChannel<T>) -> (h: Self)
        ensures
            h.channel_id_view() == channel.state().id(),
    {
        LocalSender { channel_id: Ghost(channel.state().id()) }
    }

    /// Creates a future that sends `value` into `channel`.
    pub fn send<T>(&self, channel: &LocalChannel<T>, value: T) -> (f: WaitLocalSend<T>)
        requires
            self.channel_id_view() == channel.state().id(),
        ensures
            f.call_state_view() is FirstCall,
            f.value_view() == Some(value),
            f.channel_id_view() == channel.state().id(),
    {
        WaitLocalSend::new(value, channel)
    }

    /// Sends `value` into `channel` without waiting (see [`ChannelState::try_send`]).
    pub fn try_send<T>(&self, channel: &mut LocalChannel<T>, value: T, sched: &mut Scheduler) -> (r:
        TrySendResult<T>)
        requires
            self.channel_id_view() == old(channel).state().id(),
            old(channel).wf(),
        ensures
            final(channel).state().id() == old(channel).state().id(),
            final(channel).wf(),
            try_send_post(old(channel).state(), final(channel).state(), value, *old(sched), *final(sched), r),
    {
        channel.try_send(value, sched)
    }

    /// Closes `channel` (see [`ChannelState::close`]).
    pub fn sender_close<T>(&self, channel: &mut LocalChannel<T>, sched: &mut Scheduler)
        requires
            self.channel_id_view() == old(channel).state().id(),
            old(channel).wf(),
        ensures
            final(channel).state().id() == old(channel).state().id(),
            final(channel).wf(),
            close_post(old(channel).state(), final(channel).state(), *old(sched), *final(sched), false),
    {
        channel.close(sched)
    }
}

impl LocalReceiver {
    /// The identity of the channel that the handle belongs to.
    pub closed spec fn channel_id_view(&self) -> int {
        self.channel_id@
    }

    /// Creates a receiving handle of `channel`.
    fn new<T>(channel: &LocalChannel<T>) -> (h: Self)
        ensures
            h.channel_id_view() == channel.state().id(),
    {
        LocalReceiver { channel_id: Ghost(channel.state().id()) }
    }

    /// Creates a future that receives a value from `channel`.
    pub fn recv<T>(&self, channel: &LocalChannel<T>) -> (f: WaitLocalRecv)
        requires
            self.channel_id_view() == channel.state().id(),
        ensures
            f.call_state_view() is FirstCall,
            f.channel_id_view() == channel.state().id(),
    {
        WaitLocalRecv::new(channel)
    }

    /// Receives a value from `channel` without waiting (see [`ChannelState::try_recv`]).
    pub fn try_recv<T>(&self, channel: &mut LocalChannel<T>, sched: &mut Scheduler) -> (r:
        TryRecvResult<T>)
        requires
            self.channel_id_view() == old(channel).state().id(),
            old(channel).wf(),
        ensures
            final(channel).state().id() == old(channel).state().id(),
            final(channel).wf(),
            try_recv_post(old(channel).state(), final(channel).state(), *old(sched), *final(sched), r),
    {
        channel.try_recv(sched)
    }

    /// Closes `channel` (see [`ChannelState::close`]).
    pub fn receiver_close<T>(&self, channel: &mut LocalChannel<T>, sched: &mut Scheduler)
        requires
            self.channel_id_view() == old(channel).state().id(),
            old(channel).wf(),
        ensures
            final(channel).state().id() == old(channel).state().id(),
            final(channel).wf(),
            close_post(old(channel).state(), final(channel).state(), *old(sched), *final(sched), false),
    {
        channel.close(sched)
    }
}

/// A channel between the tasks of one thread.
///
/// A bounded channel buffers at most `capacity` values; an unbounded one has the capacity
/// `usize::MAX`. Values are received in the order in which they were sent.
pub struct LocalChannel<T> {
    inner: ChannelState<T>,
}

impl<T> LocalChannel<T> {
    /// The state of the channel.
    pub closed spec fn state(&self) -> ChannelState<T> {
        self.inner
    }

    /// The invariant of the channel.
    pub open spec fn wf(&self) -> bool {
        self.state().wf()
    }

    /// Creates an empty, open channel whose buffer holds at most `capacity` values.
    pub fn bounded(capacity: usize) -> (c: Self)
        ensures
            c.wf(),
            c.state().storage_view() == Seq::<T>::empty(),
            c.state().capacity_view() == capacity,
            !c.state().closed_view(),
            c.state().senders_view() == Seq::<(Task, T)>::empty(),
            c.state().receivers_view() == Seq::<Task>::empty(),
            c.state().send_outcomes_view() == Seq::<(Task, SendResult<T>)>::empty(),
            c.state().recv_outcomes_view() == Seq::<(Task, RecvResult<T>)>::empty(),
    {
        LocalChannel { inner: ChannelState::bounded(capacity) }
    }

    /// Creates an empty, open channel without a bound: its capacity is `usize::MAX`.
    pub fn unbounded() -> (c: Self)
        ensures
            c.wf(),
            c.state().storage_view() == Seq::<T>::empty(),
            c.state().capacity_view() == usize::MAX,
            !c.state().closed_view(),
            c.state().senders_view() == Seq::<(Task, T)>::empty(),
            c.state().receivers_view() == Seq::<Task>::empty(),
            c.state().send_outcomes_view() == Seq::<(Task, SendResult<T>)>::empty(),
            c.state().recv_outcomes_view() == Seq::<(Task, RecvResult<T>)>::empty(),
    {
        LocalChannel { inner: ChannelState::unbounded() }
    }

    /// Returns a sending and a receiving handle of the channel.
    pub fn split(&self) -> (r: (LocalSender, LocalReceiver))
        ensures
            r.0.channel_id_view() == self.state().id(),
            r.1.channel_id_view() == self.state().id(),
    {
        (LocalSender::new(self), LocalReceiver::new(self))
    }

    /// Creates a future that sends `value` into the channel.
    pub fn send(&self, value: T) -> (f: WaitLocalSend<T>)
        ensures
            f.call_state_view() is FirstCall,
            f.value_view() == Some(value),
            f.channel_id_view() == self.state().id(),
    {
        WaitLocalSend::new(value, self)
    }

    /// Creates a future that receives a value from the channel.
    pub fn recv(&self) -> (f: WaitLocalRecv)
        ensures
            f.call_state_view() is FirstCall,
            f.channel_id_view() == self.state().id(),
    {
        WaitLocalRecv::new(self)
    }

    /// Closes the channel (see [`ChannelState::close`]).
    pub fn close(&mut self, sched: &mut Scheduler)
        requires
            old(self).wf(),
        ensures
            final(self).wf(),
            close_post(old(self).state(), final(self).state(), *old(sched), *final(sched), false),
    {
        self.inner.close(sched, false)
    }
}

impl<T> AsyncSender<T> for LocalChannel<T> {
    open spec fn sender_state(&self) -> ChannelState<T> {
        self.state()
    }

    /// A local channel is never locked.
    open spec fn sender_locked(&self) -> bool {
        false
    }

    /// A local channel runs the tasks that closing wakes at once.
    open spec fn sender_close_spawns(&self) -> bool {
        false
    }

    fn try_send(&mut self, value: T, sched: &mut Scheduler) -> (r: TrySendResult<T>) {
        self.inner.try_send(value, sched)
    }

    fn sender_close(&mut self, sched: &mut Scheduler) {
        self.inner.close(sched, false)
    }
}

impl<T> AsyncReceiver<T> for LocalChannel<T> {
    open spec fn receiver_state(&self) -> ChannelState<T> {
        self.state()
    }

    /// A local channel is never locked.
    open spec fn receiver_locked(&self) -> bool {
        false
    }

    /// A local channel runs the tasks that closing wakes at once.
    open spec fn receiver_close_spawns(&self) -> bool {
        false
    }

    fn try_recv(&mut self, sched: &mut Scheduler) -> (r: TryRecvResult<T>) {
        self.inner.try_recv(sched)
    }

    fn try_recv_in(&mut self, slot: &mut T, sched: &mut Scheduler) -> (r: TryRecvInResult) {
        let res = self.inner.try_recv(sched);
        let ghost g = res;
        let r = match res {
            TryRecvResult::Received(v) => {
                *slot = v;
                TryRecvInResult::Received
            },
            TryRecvResult::Empty => TryRecvInResult::Empty,
            TryRecvResult::Locked => TryRecvInResult::Locked,
            TryRecvResult::Closed => TryRecvInResult::Closed,
        };
        assert(r == recv_in_result(g) && recv_in_slot(g, *old(slot), *slot));
        r
    }

    fn receiver_close(&mut self, sched: &mut Scheduler) {
        self.inner.close(sched, false)
    }
}

impl<T> AsyncChannel<T> for LocalChannel<T> {
    type Sender = LocalSender;

    type Receiver = LocalReceiver;

    fn bounded(capacity: usize) -> (c: Self) {
        LocalChannel::bounded(capacity)
    }

    fn unbounded() -> (c: Self) {
        LocalChannel::unbounded()
    }

    fn split(&self) -> (LocalSender, LocalReceiver) {
        LocalChannel::split(self)
    }
}

} // verus!
