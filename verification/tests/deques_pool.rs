use orengine_sync::sync::deques_pool::{ChannelInnerVecDequePool, Deques};
use orengine_sync::sync::channel_results::{TryRecvResult, TrySendResult};
use orengine_sync::sync::channel_traits::{AsyncReceiver, AsyncSender};
use orengine_sync::sync::shared_channel::Channel;
use orengine_sync::task::{Scheduler, Task};

#[test]
fn deques_pool_gives_back_what_was_put_last() {
    let mut pool: ChannelInnerVecDequePool<u64> = ChannelInnerVecDequePool::new();
    let fresh = pool.get();
    assert!(fresh.senders.is_empty() && fresh.receivers.is_empty());

    let mut first = Deques::new();
    first.receivers.push_back(Task::new(1));
    let mut second = Deques::new();
    second.senders.push_back((Task::new(2), 20u64));
    pool.put(first);
    pool.put(second);

    let got = pool.get();
    assert_eq!(got.senders.front(), Some(&(Task::new(2), 20u64)));
    let got = pool.get();
    assert_eq!(got.receivers.front(), Some(&Task::new(1)));
    let got = pool.get();
    assert!(got.senders.is_empty() && got.receivers.is_empty());
}

#[test]
fn deques_pool_new_deques_are_empty() {
    let d: Deques<String> = Deques::new();
    assert!(d.senders.is_empty());
    assert!(d.receivers.is_empty());
}

#[test]
fn shared_channel_takes_and_returns_deques() {
    let mut sched = Scheduler::new();
    let mut pool: ChannelInnerVecDequePool<u32> = ChannelInnerVecDequePool::new();
    let mut kept = Deques::new();
    kept.receivers.push_back(Task::new(9));
    pool.put(kept);

    let mut ch = Channel::bounded_in(1, &mut pool);
    assert!(matches!(ch.try_send(5, &mut sched), TrySendResult::Sent));
    assert!(sched.executed().is_empty());
    assert!(matches!(ch.try_recv(&mut sched), TryRecvResult::Received(5)));
    ch.release_deques(&mut pool);

    let back = pool.get();
    assert!(back.receivers.is_empty() && back.senders.is_empty());

    let mut unbounded = Channel::unbounded_in(&mut pool);
    for i in 0..10u32 {
        assert!(matches!(unbounded.try_send(i, &mut sched), TrySendResult::Sent));
    }
}
