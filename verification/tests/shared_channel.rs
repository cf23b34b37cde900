use orengine_sync::sync::channel_results::{Poll, RecvResult, SendResult, TryRecvResult, TrySendResult};
use orengine_sync::sync::channel_traits::{AsyncReceiver, AsyncSender};
use orengine_sync::sync::shared_channel::Channel;
use orengine_sync::task::{Scheduler, Task};

#[test]
fn shared_unbounded_channel_is_fifo() {
    let mut sched = Scheduler::new();
    let mut ch: Channel<u32> = Channel::unbounded();
    let (tx, rx) = ch.split();
    for i in 0..50u32 {
        let mut f = tx.send(&ch, i);
        assert!(matches!(f.poll(&mut ch, Task::new(1), &mut sched), Poll::Ready(SendResult::Sent)));
    }
    for i in 0..50u32 {
        let mut f = rx.recv(&ch);
        match f.poll(&mut ch, Task::new(2), &mut sched) {
            Poll::Ready(r) => assert_eq!(r.unwrap(), i),
            Poll::Pending => panic!("a value is buffered"),
        }
    }
    assert!(matches!(ch.try_recv(&mut sched), TryRecvResult::Empty));
    assert!(sched.executed().is_empty());
}

#[test]
fn shared_bounded_channel_parks_and_closes() {
    let mut sched = Scheduler::new();
    let mut ch: Channel<u32> = Channel::bounded(1);
    assert!(matches!(ch.try_send(1, &mut sched), TrySendResult::Sent));
    assert!(matches!(ch.try_send(2, &mut sched), TrySendResult::Full(2)));
    let mut blocked = ch.send(3);
    assert!(matches!(blocked.poll(&mut ch, Task::new(7), &mut sched), Poll::Pending));
    assert!(matches!(ch.try_recv(&mut sched), TryRecvResult::Received(1)));
    assert_eq!(sched.executed().as_slice(), &[Task::new(7)]);
    assert!(matches!(blocked.poll(&mut ch, Task::new(7), &mut sched), Poll::Ready(SendResult::Sent)));

    let mut waiting = ch.recv();
    let mut slot = 0u32;
    assert!(matches!(
        waiting.poll_in(&mut ch, &mut slot, Task::new(8), &mut sched),
        Poll::Ready(orengine_sync::sync::channel_results::RecvInResult::Received)
    ));
    assert_eq!(slot, 3);
    let mut parked = ch.recv();
    assert!(matches!(parked.poll(&mut ch, Task::new(9), &mut sched), Poll::Pending));
    assert!(matches!(ch.close(Task::new(10), &mut sched), Poll::Ready(())));
    assert_eq!(sched.executed().as_slice(), &[Task::new(7)]);
    assert_eq!(sched.spawned().as_slice(), &[Task::new(9)]);
    assert!(matches!(parked.poll(&mut ch, Task::new(9), &mut sched), Poll::Ready(RecvResult::Closed)));
    assert!(matches!(ch.try_send(4, &mut sched), TrySendResult::Closed(4)));
    assert!(matches!(
        ch.try_recv_in(&mut slot, &mut sched),
        orengine_sync::sync::channel_results::TryRecvInResult::Closed
    ));
    assert_eq!(slot, 3);
}

#[test]
fn shared_channel_close_through_handles() {
    let mut sched = Scheduler::new();
    let mut ch: Channel<u32> = Channel::bounded(0);
    AsyncSender::sender_close(&mut ch, &mut sched);
    assert!(matches!(AsyncSender::try_send(&mut ch, 1, &mut sched), TrySendResult::Closed(1)));
    AsyncReceiver::receiver_close(&mut ch, &mut sched);
    assert!(matches!(AsyncReceiver::try_recv(&mut ch, &mut sched), TryRecvResult::Closed));
}
