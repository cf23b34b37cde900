//! The results of the operations of a channel, and the result of polling a future.
use vstd::prelude::*;

verus! {

/// The result of polling one of the futures of this crate.
pub enum Poll<T> {
    /// The operation has finished with this output.
    Ready(T),
    /// The task was parked; the operation finishes on a later poll.
    Pending,
}

/// The result of an asynchronous send operation.
pub enum SendResult<T> {
    /// The value was successfully sent into the channel.
    Sent,
    /// The channel was closed before the value could be sent; the value comes back.
    Closed(T),
}

impl<T> SendResult<T> {
    /// Checks that the value was sent. Panics on [`Closed`](SendResult::Closed),
    /// so the result must be [`Sent`](SendResult::Sent).
    pub fn unwrap(self)
        requires
            self is Sent,
    {
    }
}

/// The result of a non-blocking send attempt.
pub enum TrySendResult<T> {
    /// The value was successfully sent.
    Sent,
    /// The channel is full. Contains the value that could not be sent.
    Full(T),
    /// The channel is locked. Contains the value that could not be sent.
    Locked(T),
    /// The channel is closed. Contains the value that could not be sent.
    Closed(T),
}

impl<T> TrySendResult<T> {
    /// Checks that the value was sent. Panics unless the result is
    /// [`Sent`](TrySendResult::Sent).
    pub fn unwrap(self)
        requires
            self is Sent,
    {
    }
}

/// The result of an asynchronous receive into a slot.
pub enum RecvInResult {
    /// A value was received into the slot.
    Received,
    /// The channel is closed, and no more values can be received.
    Closed,
}

impl RecvInResult {
    /// Checks that a value was received. Panics on [`Closed`](RecvInResult::Closed).
    pub fn unwrap(self)
        requires
            self is Received,
    {
    }
}

/// The result of a non-blocking receive into a slot.
pub enum TryRecvInResult {
    /// A value was received into the slot.
    Received,
    /// The channel is empty; no values are currently available.
    Empty,
    /// The channel is locked, indicating temporary unavailability.
    Locked,
    /// The channel is closed, and no more values can be received.
    Closed,
}

impl TryRecvInResult {
    /// Checks that a value was received. Panics unless the result is
    /// [`Received`](TryRecvInResult::Received).
    pub fn unwrap(self)
        requires
            self is Received,
    {
    }
}

/// The result of an asynchronous receive.
pub enum RecvResult<T> {
    /// A value was received from the channel.
    Received(T),
    /// The channel is closed, and no more values can be received.
    Closed,
}

impl<T> RecvResult<T> {
    /// Returns the received value. Panics on [`Closed`](RecvResult::Closed).
    pub fn unwrap(self) -> (value: T)
        requires
            self is Received,
        ensures
            self == RecvResult::Received(value),
    {
        match self {
            RecvResult::Received(v) => v,
            RecvResult::Closed => vstd::pervasive::unreached(),
        }
    }
}

/// The result of a non-blocking receive.
pub enum TryRecvResult<T> {
    /// A value was received from the channel.
    Received(T),
    /// The channel is empty; no values are currently available.
    Empty,
    /// The channel is locked, indicating temporary unavailability.
    Locked,
    /// The channel is closed, and no more values can be received.
    Closed,
}

impl<T> TryRecvResult<T> {
    /// Returns the received value. Panics unless the result is
    /// [`Received`](TryRecvResult::Received).
    pub fn unwrap(self) -> (value: T)
        requires
            self is Received,
        ensures
            self == TryRecvResult::Received(value),
    {
        match self {
            TryRecvResult::Received(v) => v,
            _ => vstd::pervasive::unreached(),
        }
    }
}

} // verus!
