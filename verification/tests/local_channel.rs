use orengine_sync::sync::channel_results::{
    Poll, RecvInResult, RecvResult, SendResult, TryRecvInResult, TryRecvResult, TrySendResult,
};
use orengine_sync::sync::channel_traits::{AsyncReceiver, AsyncSender};
use orengine_sync::sync::local_channel::{LocalChannel, WaitLocalRecv};
use orengine_sync::task::{Scheduler, Task};

const SENDER: Task = Task { id: 1 };
const RECEIVER: Task = Task { id: 2 };

/// Polls a fresh receive future of `ch` and expects it to park the receiver.
fn park_receiver(ch: &mut LocalChannel<usize>, sched: &mut Scheduler) -> WaitLocalRecv {
    let mut f = ch.recv();
    assert!(matches!(f.poll(ch, RECEIVER, sched), Poll::Pending));
    f
}

/// Sends `value` and expects the send to finish at once.
fn send_now(ch: &mut LocalChannel<usize>, value: usize, sched: &mut Scheduler) {
    let mut f = ch.send(value);
    match f.poll(ch, SENDER, sched) {
        Poll::Ready(r) => r.unwrap(),
        Poll::Pending => panic!("the send was expected to finish at once"),
    }
}

/// Receives and expects a value at once.
fn recv_now(ch: &mut LocalChannel<usize>, sched: &mut Scheduler) -> usize {
    let mut f = ch.recv();
    match f.poll(ch, RECEIVER, sched) {
        Poll::Ready(r) => r.unwrap(),
        Poll::Pending => panic!("the receive was expected to finish at once"),
    }
}

#[test]
fn test_zero_capacity() {
    let mut sched = Scheduler::new();
    let mut ch: LocalChannel<usize> = LocalChannel::bounded(0);

    let mut waiting = park_receiver(&mut ch, &mut sched);
    send_now(&mut ch, 1, &mut sched);
    assert_eq!(sched.executed().as_slice(), &[RECEIVER]);
    let res = match waiting.poll(&mut ch, RECEIVER, &mut sched) {
        Poll::Ready(r) => r.unwrap(),
        Poll::Pending => panic!("closed"),
    };
    assert_eq!(res, 1);

    let mut waiting = park_receiver(&mut ch, &mut sched);
    send_now(&mut ch, 2, &mut sched);
    ch.close(&mut sched);
    let res = match waiting.poll(&mut ch, RECEIVER, &mut sched) {
        Poll::Ready(r) => r.unwrap(),
        Poll::Pending => panic!("closed"),
    };
    assert_eq!(res, 2);

    let mut f = ch.send(2);
    match f.poll(&mut ch, SENDER, &mut sched) {
        Poll::Ready(SendResult::Closed(v)) => assert_eq!(v, 2),
        _ => panic!("should be closed"),
    }
}

#[test]
fn test_unbounded() {
    let mut sched = Scheduler::new();
    let mut ch: LocalChannel<usize> = LocalChannel::unbounded();

    for i in 1..100 {
        let mut waiting = park_receiver(&mut ch, &mut sched);
        send_now(&mut ch, i, &mut sched);
        match waiting.poll(&mut ch, RECEIVER, &mut sched) {
            Poll::Ready(r) => assert_eq!(r.unwrap(), i),
            Poll::Pending => panic!("closed"),
        }
    }
    let mut waiting = park_receiver(&mut ch, &mut sched);
    ch.close(&mut sched);
    match waiting.poll(&mut ch, RECEIVER, &mut sched) {
        Poll::Ready(RecvResult::Closed) => {},
        _ => panic!("should be closed"),
    }
}

const N: usize = 125;

/// Send N and receive N: nobody waits.
#[test]
fn test_local_channel_case1() {
    let mut sched = Scheduler::new();
    let mut ch: LocalChannel<usize> = LocalChannel::bounded(N);
    for i in 0..N {
        send_now(&mut ch, i, &mut sched);
    }
    for i in 0..N {
        assert_eq!(recv_now(&mut ch, &mut sched), i);
    }
    let mut waiting = park_receiver(&mut ch, &mut sched);
    ch.close(&mut sched);
    match waiting.poll(&mut ch, RECEIVER, &mut sched) {
        Poll::Ready(RecvResult::Closed) => {},
        _ => panic!("should be closed"),
    }
    assert!(sched.executed().iter().all(|t| *t == RECEIVER));
}

/// Send N and receive N + 1: the last receive waits for the last send.
#[test]
fn test_local_channel_case2() {
    let mut sched = Scheduler::new();
    let mut ch: LocalChannel<usize> = LocalChannel::bounded(N);
    for i in 0..N {
        send_now(&mut ch, i, &mut sched);
    }
    for i in 0..N {
        assert_eq!(recv_now(&mut ch, &mut sched), i);
    }
    let mut waiting = park_receiver(&mut ch, &mut sched);
    send_now(&mut ch, N, &mut sched);
    match waiting.poll(&mut ch, RECEIVER, &mut sched) {
        Poll::Ready(r) => assert_eq!(r.unwrap(), N),
        Poll::Pending => panic!("closed"),
    }
    ch.close(&mut sched);
}

/// Send N + 1 and receive N + 1: the last send waits for room.
#[test]
fn test_local_channel_case3() {
    let mut sched = Scheduler::new();
    let mut ch: LocalChannel<usize> = LocalChannel::bounded(N);
    for i in 0..N {
        send_now(&mut ch, i, &mut sched);
    }
    let mut waiting = ch.send(N);
    assert!(matches!(waiting.poll(&mut ch, SENDER, &mut sched), Poll::Pending));
    for i in 0..N {
        assert_eq!(recv_now(&mut ch, &mut sched), i);
        if i == 0 {
            assert_eq!(sched.executed().as_slice(), &[SENDER]);
            assert!(matches!(
                waiting.poll(&mut ch, SENDER, &mut sched),
                Poll::Ready(SendResult::Sent)
            ));
        }
    }
    assert_eq!(recv_now(&mut ch, &mut sched), N);
}

/// Both sides wait in turn: a full buffer parks the sender, an empty one the receiver.
#[test]
fn test_local_channel_case4() {
    let mut sched = Scheduler::new();
    let mut ch: LocalChannel<usize> = LocalChannel::bounded(N);
    let mut waiting = park_receiver(&mut ch, &mut sched);
    send_now(&mut ch, 0, &mut sched);
    match waiting.poll(&mut ch, RECEIVER, &mut sched) {
        Poll::Ready(r) => assert_eq!(r.unwrap(), 0),
        Poll::Pending => panic!("closed"),
    }
    for i in 1..=N {
        send_now(&mut ch, i, &mut sched);
    }
    let mut blocked = ch.send(N + 1);
    assert!(matches!(blocked.poll(&mut ch, SENDER, &mut sched), Poll::Pending));
    for i in 1..=N + 1 {
        assert_eq!(recv_now(&mut ch, &mut sched), i);
        if i == 1 {
            assert!(matches!(
                blocked.poll(&mut ch, SENDER, &mut sched),
                Poll::Ready(SendResult::Sent)
            ));
        }
    }
}

#[test]
fn test_local_channel_split() {
    let mut sched = Scheduler::new();
    let mut ch: LocalChannel<usize> = LocalChannel::bounded(N);
    let (tx, rx) = ch.split();
    for i in 0..=N * 3 {
        if i >= N && (i - N) <= N * 2 {
            let mut r = rx.recv(&ch);
            match r.poll(&mut ch, RECEIVER, &mut sched) {
                Poll::Ready(v) => assert_eq!(v.unwrap(), i - N),
                Poll::Pending => panic!("a value is buffered"),
            }
        }
        let mut s = tx.send(&ch, i);
        assert!(matches!(s.poll(&mut ch, SENDER, &mut sched), Poll::Ready(SendResult::Sent)));
    }
}

/// `try_recv_in` writes a received value into the slot and leaves the slot alone otherwise;
/// a send on a closed channel gives the value back.
#[test]
fn test_drop_channel() {
    let mut sched = Scheduler::new();
    let mut channel: LocalChannel<usize> = LocalChannel::bounded(1);

    send_now(&mut channel, 1, &mut sched);
    let mut prev_elem = 2usize;
    let mut f = channel.recv();
    assert!(matches!(
        f.poll_in(&mut channel, &mut prev_elem, RECEIVER, &mut sched),
        Poll::Ready(RecvInResult::Received)
    ));
    assert_eq!(prev_elem, 1);

    send_now(&mut channel, 3, &mut sched);
    channel.try_recv_in(&mut prev_elem, &mut sched).unwrap();
    assert_eq!(prev_elem, 3);

    assert!(matches!(channel.try_recv_in(&mut prev_elem, &mut sched), TryRecvInResult::Empty));
    assert_eq!(prev_elem, 3);

    let mut parked = channel.recv();
    assert!(matches!(
        parked.poll_in(&mut channel, &mut prev_elem, RECEIVER, &mut sched),
        Poll::Pending
    ));
    channel.close(&mut sched);
    assert!(matches!(
        parked.poll_in(&mut channel, &mut prev_elem, RECEIVER, &mut sched),
        Poll::Ready(RecvInResult::Closed)
    ));
    assert_eq!(prev_elem, 3);
    let mut f = channel.send(5);
    match f.poll(&mut channel, SENDER, &mut sched) {
        Poll::Ready(SendResult::Closed(elem)) => assert_eq!(elem, 5),
        _ => panic!("closed"),
    }
}

#[test]
fn test_drop_channel_split() {
    let mut sched = Scheduler::new();
    let mut channel: LocalChannel<usize> = LocalChannel::bounded(1);
    let (sender, receiver) = channel.split();
    let sender = sender.clone();
    let receiver = receiver.clone();

    assert!(matches!(sender.try_send(&mut channel, 1, &mut sched), TrySendResult::Sent));
    assert!(matches!(
        sender.try_send(&mut channel, 9, &mut sched),
        TrySendResult::Full(9)
    ));
    assert!(matches!(receiver.try_recv(&mut channel, &mut sched), TryRecvResult::Received(1)));
    assert!(matches!(receiver.try_recv(&mut channel, &mut sched), TryRecvResult::Empty));

    sender.sender_close(&mut channel, &mut sched);
    assert!(matches!(
        sender.try_send(&mut channel, 5, &mut sched),
        TrySendResult::Closed(5)
    ));
    assert!(matches!(receiver.try_recv(&mut channel, &mut sched), TryRecvResult::Closed));
}

/// A closed channel refuses receives even while values are buffered.
#[test]
fn closed_channel_refuses_buffered_values() {
    let mut sched = Scheduler::new();
    let mut ch: LocalChannel<usize> = LocalChannel::bounded(4);
    assert!(matches!(AsyncSender::try_send(&mut ch, 7, &mut sched), TrySendResult::Sent));
    AsyncReceiver::receiver_close(&mut ch, &mut sched);
    assert!(matches!(AsyncReceiver::try_recv(&mut ch, &mut sched), TryRecvResult::Closed));
    let mut f = ch.recv();
    assert!(matches!(f.poll(&mut ch, RECEIVER, &mut sched), Poll::Ready(RecvResult::Closed)));
}

/// Closing wakes every parked sender with its value back, in the order in which they parked.
#[test]
fn close_wakes_parked_senders_in_order() {
    let mut sched = Scheduler::new();
    let mut ch: LocalChannel<usize> = LocalChannel::bounded(0);
    let mut first = ch.send(10);
    let mut second = ch.send(20);
    assert!(matches!(first.poll(&mut ch, Task::new(5), &mut sched), Poll::Pending));
    assert!(matches!(second.poll(&mut ch, Task::new(6), &mut sched), Poll::Pending));
    ch.close(&mut sched);
    assert_eq!(sched.executed().as_slice(), &[Task::new(5), Task::new(6)]);
    assert!(matches!(
        second.poll(&mut ch, Task::new(6), &mut sched),
        Poll::Ready(SendResult::Closed(20))
    ));
    assert!(matches!(
        first.poll(&mut ch, Task::new(5), &mut sched),
        Poll::Ready(SendResult::Closed(10))
    ));
}

/// A receiver on a channel without a buffer takes the value of the first parked sender, and
/// that sender is woken with `Sent`.
#[test]
fn receiver_takes_value_of_parked_sender() {
    let mut sched = Scheduler::new();
    let mut ch: LocalChannel<usize> = LocalChannel::bounded(0);
    let mut s1 = ch.send(1);
    let mut s2 = ch.send(2);
    assert!(matches!(s1.poll(&mut ch, Task::new(5), &mut sched), Poll::Pending));
    assert!(matches!(s2.poll(&mut ch, Task::new(6), &mut sched), Poll::Pending));
    assert_eq!(recv_now(&mut ch, &mut sched), 1);
    assert_eq!(sched.executed().as_slice(), &[Task::new(5)]);
    assert!(matches!(s1.poll(&mut ch, Task::new(5), &mut sched), Poll::Ready(SendResult::Sent)));
    assert!(matches!(s2.poll(&mut ch, Task::new(6), &mut sched), Poll::Pending));
    assert_eq!(recv_now(&mut ch, &mut sched), 2);
}
