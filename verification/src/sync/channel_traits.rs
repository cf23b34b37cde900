//! The interface that every channel offers to its senders and receivers.
use crate::sync::channel_results::{
    Poll, RecvInResult, RecvResult, TryRecvInResult, TryRecvResult, TrySendResult,
};
use crate::sync::channel_state::{
    close_post, fresh_channel, try_recv_post, try_send_post, ChannelState,
};
use crate::task::Scheduler;
use vstd::prelude::*;

verus! {

/// How a receive into a slot leaves the slot: a received value is written into it, anything
/// else leaves it as it was.
pub open spec fn recv_in_slot<T>(r: TryRecvResult<T>, old_slot: T, new_slot: T) -> bool {
    match r {
        TryRecvResult::Received(v) => new_slot == v,
        _ => new_slot == old_slot,
    }
}

/// The result of a receive into a slot, given the result of the receive.
pub open spec fn recv_in_result<T>(r: TryRecvResult<T>) -> TryRecvInResult {
    match r {
        TryRecvResult::Received(_) => TryRecvInResult::Received,
        TryRecvResult::Empty => TryRecvInResult::Empty,
        TryRecvResult::Locked => TryRecvInResult::Locked,
        TryRecvResult::Closed => TryRecvInResult::Closed,
    }
}

/// What a receive into a slot reports when the receive future polled `r`.
pub open spec fn poll_in_result<T>(r: Poll<RecvResult<T>>) -> Poll<RecvInResult> {
    match r {
        Poll::Ready(RecvResult::Received(_)) => Poll::Ready(RecvInResult::Received),
        Poll::Ready(RecvResult::Closed) => Poll::Ready(RecvInResult::Closed),
        Poll::Pending => Poll::Pending,
    }
}

/// The slot of a receive into a slot whose future polled `r`: it holds the received value, or
/// what it held before if nothing was received.
pub open spec fn poll_in_slot<T>(r: Poll<RecvResult<T>>, old_slot: T, new_slot: T) -> bool {
    match r {
        Poll::Ready(RecvResult::Received(v)) => new_slot == v,
        _ => new_slot == old_slot,
    }
}

/// The sending side of a channel.
pub trait AsyncSender<T> {
    /// The state of the channel behind this sender.
    spec fn sender_state(&self) -> ChannelState<T>;

    /// Whether the channel is locked by another operation at the moment.
    spec fn sender_locked(&self) -> bool;

    /// Whether closing puts the parked tasks into the run queue rather than running them.
    spec fn sender_close_spawns(&self) -> bool;

    /// Tries to send a value without waiting: [`TrySendResult::Locked`] if the channel is
    /// locked, else as [`ChannelState::try_send`].
    fn try_send(&mut self, value: T, sched: &mut Scheduler) -> (r: TrySendResult<T>)
        requires
            old(self).sender_state().wf(),
        ensures
            final(self).sender_state().wf(),
            final(self).sender_locked() == old(self).sender_locked(),
            old(self).sender_locked() ==> r == TrySendResult::Locked(value) && final(self).sender_state() == old(self).sender_state() && final(sched).same_as(old(sched)),
            !old(self).sender_locked() ==> try_send_post(
                old(self).sender_state(),
                final(self).sender_state(),
                value,
                *old(sched),
                *final(sched),
                r,
            ),
    ;

    /// Closes the channel (see [`ChannelState::close`]); the channel must not be locked.
    fn sender_close(&mut self, sched: &mut Scheduler)
        requires
            old(self).sender_state().wf(),
            !old(self).sender_locked(),
        ensures
            final(self).sender_state().wf(),
            !final(self).sender_locked(),
            close_post(
                old(self).sender_state(),
                final(self).sender_state(),
                *old(sched),
                *final(sched),
                old(self).sender_close_spawns(),
            ),
    ;
}

/// The receiving side of a channel.
pub trait AsyncReceiver<T> {
    /// The state of the channel behind this receiver.
    spec fn receiver_state(&self) -> ChannelState<T>;

    /// Whether the channel is locked by another operation at the moment.
    spec fn receiver_locked(&self) -> bool;

    /// Whether closing puts the parked tasks into the run queue rather than running them.
    spec fn receiver_close_spawns(&self) -> bool;

    /// Tries to receive a value without waiting: [`TryRecvResult::Locked`] if the channel is
    /// locked, else as [`ChannelState::try_recv`].
    fn try_recv(&mut self, sched: &mut Scheduler) -> (r: TryRecvResult<T>)
        requires
            old(self).receiver_state().wf(),
        ensures
            final(self).receiver_state().wf(),
            final(self).receiver_locked() == old(self).receiver_locked(),
            old(self).receiver_locked() ==> r is Locked && final(self).receiver_state() == old(self).receiver_state() && final(sched).same_as(old(sched)),
            !old(self).receiver_locked() ==> try_recv_post(
                old(self).receiver_state(),
                final(self).receiver_state(),
                *old(sched),
                *final(sched),
                r,
            ),
    ;

    /// Tries to receive a value into `slot` without waiting; the received value replaces what
    /// the slot held.
    fn try_recv_in(&mut self, slot: &mut T, sched: &mut Scheduler) -> (r: TryRecvInResult)
        requires
            old(self).receiver_state().wf(),
        ensures
            final(self).receiver_state().wf(),
            final(self).receiver_locked() == old(self).receiver_locked(),
            exists|res: TryRecvResult<T>|
                {
                    &&& r == recv_in_result(res)
                    &&& recv_in_slot(res, *old(slot), *final(slot))
                    &&& old(self).receiver_locked() ==> res is Locked && final(self).receiver_state() == old(self).receiver_state() && final(sched).same_as(
                        old(sched),
                    )
                    &&& !old(self).receiver_locked() ==> try_recv_post(
                        old(self).receiver_state(),
                        final(self).receiver_state(),
                        *old(sched),
                        *final(sched),
                        res,
                    )
                },
    ;

    /// Closes the channel (see [`ChannelState::close`]); the channel must not be locked.
    fn receiver_close(&mut self, sched: &mut Scheduler)
        requires
            old(self).receiver_state().wf(),
            !old(self).receiver_locked(),
        ensures
            final(self).receiver_state().wf(),
            !final(self).receiver_locked(),
            close_post(
                old(self).receiver_state(),
                final(self).receiver_state(),
                *old(sched),
                *final(sched),
                old(self).receiver_close_spawns(),
            ),
    ;
}

/// A channel: both ends, and how to make one.
pub trait AsyncChannel<T>: AsyncSender<T> + AsyncReceiver<T> + Sized {
    /// The sending handle.
    type Sender;

    /// The receiving handle.
    type Receiver;

    /// Creates an empty, open channel whose buffer holds at most `capacity` values.
    fn bounded(capacity: usize) -> (c: Self)
        ensures
            fresh_channel(c.sender_state(), capacity),
            c.receiver_state() == c.sender_state(),
            !c.sender_locked(),
            !c.receiver_locked(),
    ;

    /// Creates an empty, open channel without a bound: its capacity is `usize::MAX`.
    fn unbounded() -> (c: Self)
        ensures
            fresh_channel(c.sender_state(), usize::MAX),
            c.receiver_state() == c.sender_state(),
            !c.sender_locked(),
            !c.receiver_locked(),
    ;

    /// A sending and a receiving handle of the channel.
    fn split(&self) -> (Self::Sender, Self::Receiver);
}

} // verus!
