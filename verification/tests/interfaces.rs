use orengine_sync::sync::channel_results::{Poll, TryRecvResult, TrySendResult};
use orengine_sync::sync::channel_traits::AsyncChannel;
use orengine_sync::sync::cond_var::{AsyncCondVar, CondVar, LocalCondVar};
use orengine_sync::sync::local_channel::LocalChannel;
use orengine_sync::sync::local_mutex::LocalMutex;
use orengine_sync::sync::local_rw_lock::LocalRWLock;
use orengine_sync::sync::local_rw_mutex::LocalRWMutex;
use orengine_sync::sync::mutex_traits::{AsyncMutex, AsyncSubscribableMutex};
use orengine_sync::sync::naive_mutex::NaiveMutex;
use orengine_sync::sync::naive_rw_lock::RWLock;
use orengine_sync::sync::rw_lock_state::LockStatus;
use orengine_sync::sync::rw_lock_traits::AsyncRWLock;
use orengine_sync::sync::shared_channel::Channel;
use orengine_sync::sync::smart_mutex::Mutex;
use orengine_sync::sync::wait_group::{AsyncWaitGroup, LocalWaitGroup, WaitGroup};
use orengine_sync::task::{Scheduler, Task};

fn exercise_mutex<M: AsyncMutex<u32>>(mut m: M) {
    let mut sched = Scheduler::new();
    assert!(!m.is_locked());
    let g = m.try_lock();
    assert!(g.is_some());
    assert!(m.try_lock().is_none());
    *m.get_mut() = 4;
    let _again = m.get_locked();
    AsyncMutex::unlock(&mut m, &mut sched);
    assert!(!m.is_locked());
    assert_eq!(*m.get_mut(), 4);
    assert!(sched.executed().is_empty() && sched.spawned().is_empty());
}

#[test]
fn every_mutex_meets_the_mutex_interface() {
    exercise_mutex(LocalMutex::new(0u32));
    exercise_mutex(Mutex::new(0u32));
    exercise_mutex(NaiveMutex::new(0u32));
}

fn subscribe_and_hand_over<M: AsyncSubscribableMutex<u32>>(mut m: M) -> Vec<Task> {
    let mut sched = Scheduler::new();
    let _g = m.try_lock().unwrap();
    m.low_level_subscribe(Task::new(1));
    AsyncMutex::unlock(&mut m, &mut sched);
    assert!(m.is_locked());
    sched.executed().clone()
}

#[test]
fn subscribed_tasks_get_the_lock() {
    assert_eq!(subscribe_and_hand_over(LocalMutex::new(0u32)), vec![Task::new(1)]);
    assert_eq!(subscribe_and_hand_over(Mutex::new(0u32)), vec![Task::new(1)]);
}

fn exercise_rw_lock<L: AsyncRWLock<u32>>(mut l: L) {
    assert_eq!(l.get_lock_status(), LockStatus::Unlocked);
    assert!(l.try_read().is_some());
    assert!(l.try_read().is_some());
    assert_eq!(l.get_lock_status(), LockStatus::ReadLocked(2));
    assert!(l.try_write().is_none());
    let _r = l.get_read_locked();
    *l.get_mut() = 9;
    assert_eq!(*l.get_mut(), 9);
}

#[test]
fn every_rw_lock_meets_the_rw_lock_interface() {
    exercise_rw_lock(LocalRWLock::new(0u32));
    exercise_rw_lock(LocalRWMutex::new(0u32));
    exercise_rw_lock(RWLock::new(0u32));
    let mut l = RWLock::new(0u32);
    assert!(AsyncRWLock::try_write(&mut l).is_some());
    assert_eq!(AsyncRWLock::get_lock_status(&l), LockStatus::WriteLocked);
    assert!(AsyncRWLock::try_read(&mut l).is_none());
    let _w = AsyncRWLock::get_write_locked(&l);
}

fn notify_on_empty<C: AsyncCondVar>(mut c: C) {
    let mut sched = Scheduler::new();
    c.notify_one(&mut sched);
    c.notify_all(&mut sched);
    assert!(sched.executed().is_empty() && sched.spawned().is_empty());
}

#[test]
fn notifying_nobody_wakes_nobody() {
    notify_on_empty(LocalCondVar::new());
    notify_on_empty(CondVar::new());
}

fn fifo_through<C: AsyncChannel<u32>>() {
    let mut sched = Scheduler::new();
    let mut ch = C::bounded(3);
    let _handles = ch.split();
    for v in [5u32, 6, 7] {
        assert!(matches!(ch.try_send(v, &mut sched), TrySendResult::Sent));
    }
    assert!(matches!(ch.try_send(8, &mut sched), TrySendResult::Full(8)));
    for v in [5u32, 6, 7] {
        assert!(matches!(ch.try_recv(&mut sched), TryRecvResult::Received(x) if x == v));
    }
    let mut unbounded = C::unbounded();
    for v in 0..1000u32 {
        assert!(matches!(unbounded.try_send(v, &mut sched), TrySendResult::Sent));
    }
    for v in 0..1000u32 {
        assert!(matches!(unbounded.try_recv(&mut sched), TryRecvResult::Received(x) if x == v));
    }
}

#[test]
fn every_channel_is_first_in_first_out() {
    fifo_through::<LocalChannel<u32>>();
    fifo_through::<Channel<u32>>();
}

#[test]
fn inc_acts_as_add_one() {
    let mut sched = Scheduler::new();
    let mut local = LocalWaitGroup::new();
    local.inc();
    let mut w = local.wait();
    assert!(matches!(w.poll(&mut local, Task::new(1)), Poll::Pending));
    local.inc();
    assert_eq!(local.count(), 2);
    assert_eq!(local.done(&mut sched), 1);
    assert!(sched.executed().is_empty());
    assert_eq!(local.done(&mut sched), 0);
    assert_eq!(sched.executed().as_slice(), &[Task::new(1)]);

    let mut shared = WaitGroup::new();
    shared.inc();
    let mut w = shared.wait();
    assert!(matches!(w.poll(&mut shared, Task::new(2), &mut sched), Poll::Pending));
    shared.inc();
    assert_eq!(shared.done(&mut sched), 2);
    assert_eq!(shared.done(&mut sched), 1);
    assert_eq!(shared.count(), 0);
    assert_eq!(sched.spawned().as_slice(), &[Task::new(2)]);
}
