use orengine_sync::sync::channel_results::{
    Poll, RecvInResult, RecvResult, SendResult, TryRecvInResult, TryRecvResult, TrySendResult,
};
use orengine_sync::sync::lazy_lock::{LazyLock, LazyLockState};
use orengine_sync::sync::local_rw_lock::{LocalRWLock, LockStart};
use orengine_sync::sync::naive_rw_lock::RWLock;
use orengine_sync::sync::once::{AsyncOnce, CallOnceResult, LocalOnce, Once, OnceState};
use orengine_sync::sync::pool::LocalPool;
use orengine_sync::sync::rw_lock_state::LockStatus;
use orengine_sync::sync::scope::{local_scope, shared_scope};
use orengine_sync::sync::wait_group::{AsyncWaitGroup, LocalWaitGroup, WaitGroup};
use orengine_sync::sync_task_queue::SyncTaskList;
use orengine_sync::task::{Scheduler, Task};
use orengine_sync::test::executor_thread_spawner::ExecutorThreadSpawner;
use std::collections::VecDeque;

#[test]
fn local_wait_group_wakes_waiters_when_count_reaches_zero() {
    let mut sched = Scheduler::new();
    let mut wg = LocalWaitGroup::new();
    wg.add(2);
    assert_eq!(wg.count(), 2);
    let mut w1 = wg.wait();
    let mut w2 = wg.wait();
    assert!(matches!(w1.poll(&mut wg, Task::new(1)), Poll::Pending));
    assert!(matches!(w2.poll(&mut wg, Task::new(2)), Poll::Pending));
    assert_eq!(wg.done(&mut sched), 1);
    assert!(sched.executed().is_empty());
    assert_eq!(wg.done(&mut sched), 0);
    assert_eq!(sched.executed().as_slice(), &[Task::new(1), Task::new(2)]);
    assert!(matches!(w1.poll(&mut wg, Task::new(1)), Poll::Ready(())));
}

#[test]
fn local_wait_group_inc_and_ready_wait() {
    let mut wg = LocalWaitGroup::new();
    let mut w = wg.wait();
    assert!(matches!(w.poll(&mut wg, Task::new(1)), Poll::Ready(())));
    wg.inc();
    wg.inc();
    assert_eq!(wg.count(), 2);
}

#[test]
fn shared_wait_group_done_returns_the_previous_counter() {
    let mut sched = Scheduler::new();
    let mut wg = WaitGroup::new();
    wg.add(10);
    let mut waits = Vec::new();
    for id in 1..=2u64 {
        let mut w = wg.wait();
        assert!(matches!(w.poll(&mut wg, Task::new(id), &mut sched), Poll::Pending));
        waits.push(w);
    }
    for expected in (2..=10usize).rev() {
        assert_eq!(wg.done(&mut sched), expected);
    }
    assert!(sched.spawned().is_empty());
    assert_eq!(wg.done(&mut sched), 1);
    assert_eq!(wg.count(), 0);
    assert_eq!(wg.count(), 0);
    assert_eq!(sched.spawned().as_slice(), &[Task::new(1), Task::new(2)]);
    for (i, w) in waits.iter_mut().enumerate() {
        assert!(matches!(w.poll(&mut wg, Task::new(i as u64 + 1), &mut sched), Poll::Ready(())));
    }
}

#[test]
fn shared_wait_group_wait_on_zero_reschedules_the_task() {
    let mut sched = Scheduler::new();
    let mut wg = WaitGroup::new();
    let mut w = wg.wait();
    assert!(matches!(w.poll(&mut wg, Task::new(3), &mut sched), Poll::Pending));
    assert_eq!(sched.spawned().as_slice(), &[Task::new(3)]);
    assert!(matches!(w.poll(&mut wg, Task::new(3), &mut sched), Poll::Ready(())));
}

#[test]
fn local_scope_waits_for_its_tasks() {
    let mut sched = Scheduler::new();
    let mut scope = local_scope();
    let mut h1 = scope.exec(Task::new(1), &mut sched);
    let mut h2 = scope.spawn(Task::new(2), &mut sched);
    assert_eq!(sched.executed().as_slice(), &[Task::new(1)]);
    assert_eq!(sched.spawned().as_slice(), &[Task::new(2)]);
    assert!(matches!(scope.wait(Task::new(9)), Poll::Pending));
    assert!(matches!(h1.poll(&mut scope, Poll::Pending, &mut sched), Poll::Pending));
    assert!(matches!(h1.poll(&mut scope, Poll::Ready(()), &mut sched), Poll::Ready(())));
    assert_eq!(sched.executed().len(), 1);
    assert!(matches!(h2.poll(&mut scope, Poll::Ready(()), &mut sched), Poll::Ready(())));
    assert_eq!(sched.executed().as_slice(), &[Task::new(1), Task::new(9)]);
    assert!(matches!(scope.wait(Task::new(9)), Poll::Ready(())));
}

#[test]
fn shared_scope_waits_for_its_tasks() {
    let mut sched = Scheduler::new();
    let mut scope = shared_scope();
    let mut h = scope.spawn(Task::new(1), &mut sched);
    let mut wait = scope.wait();
    assert!(matches!(scope.poll_wait(&mut wait, Task::new(9), &mut sched), Poll::Pending));
    assert!(matches!(h.poll(&mut scope, Poll::Ready(()), &mut sched), Poll::Ready(())));
    assert_eq!(sched.spawned().as_slice(), &[Task::new(1), Task::new(9)]);
    assert!(matches!(scope.poll_wait(&mut wait, Task::new(9), &mut sched), Poll::Ready(())));
}

#[test]
fn local_once_runs_only_once() {
    let mut once = LocalOnce::new();
    assert!(!once.is_called());
    assert_eq!(once.state(), OnceState::NotCalled);
    let mut runs = 0;
    assert_eq!(once.call_once_sync(|| runs += 1), CallOnceResult::Called);
    assert_eq!(once.call_once_sync(|| runs += 1), CallOnceResult::WasAlreadyCompleted);
    assert_eq!(runs, 1);
    assert!(once.is_called());
    assert_eq!(once.call_once(), CallOnceResult::WasAlreadyCompleted);
}

#[test]
fn shared_once_runs_only_once() {
    let mut once = Once::new();
    assert!(!once.is_completed());
    assert!(!once.was_called());
    assert_eq!(once.call_once(), CallOnceResult::Called);
    assert!(once.was_called());
    assert_eq!(once.state(), OnceState::Called);
    let mut runs = 0;
    assert_eq!(once.call_once_sync(|| runs += 1), CallOnceResult::WasAlreadyCompleted);
    assert_eq!(runs, 0);
    assert!(once.is_completed());
}

#[test]
fn once_state_numbers() {
    assert_eq!(OnceState::not_called(), 0);
    assert_eq!(OnceState::called(), 1);
    assert_eq!(OnceState::from_isize(0), OnceState::NotCalled);
    assert_eq!(OnceState::from_isize(1), OnceState::Called);
    assert_eq!(OnceState::Called.into_isize(), 1);
    assert_eq!(OnceState::NotCalled.into_isize(), 0);
}

#[test]
fn lazy_lock_computes_once() {
    let mut lazy = LazyLock::new(|| 40 + 2);
    assert!(lazy.get().is_none());
    assert_eq!(*lazy.deref(), 42);
    assert_eq!(lazy.get(), Some(&42));
    assert_eq!(*lazy.deref(), 42);
    assert_eq!(LazyLock::into_inner(lazy).ok(), Some(42));
}

#[test]
fn lazy_lock_into_inner_before_use_gives_the_function_back() {
    let lazy = LazyLock::new(|| 7u8);
    match LazyLock::into_inner(lazy) {
        Ok(_) => panic!("the value was never computed"),
        Err(f) => assert_eq!(f(), 7),
    }
}

#[test]
fn lazy_lock_state_numbers() {
    assert_eq!(LazyLockState::not_called(), 0);
    assert_eq!(LazyLockState::in_progress(), 1);
    assert_eq!(LazyLockState::ready(), 2);
    assert_eq!(LazyLockState::from_isize(1), LazyLockState::InProgress);
    assert_eq!(LazyLockState::from_isize(2), LazyLockState::Ready);
    assert_eq!(LazyLockState::Ready.into_isize(), 2);
    assert_eq!(LazyLockState::NotCalled.into_isize(), 0);
}

#[test]
fn local_pool_reuses_released_values() {
    let mut pool = LocalPool::new(|| vec![0u8; 4]);
    let a = pool.acquire();
    let b = pool.acquire();
    a.deref_mut(&mut pool)[0] = 9;
    assert_eq!(b.deref(&pool)[0], 0);
    a.release(&mut pool);
    let c = pool.acquire();
    assert_eq!(c.deref(&pool)[0], 9);
    b.release(&mut pool);
    c.release(&mut pool);
    let d = pool.acquire();
    assert_eq!(d.deref(&pool)[0], 9);
}

#[test]
fn local_rw_lock_status_and_handover() {
    let mut sched = Scheduler::new();
    let mut lock = LocalRWLock::new(1u32);
    assert_eq!(lock.get_lock_status(), LockStatus::Unlocked);
    let r1 = lock.try_read().unwrap();
    let r2 = match lock.read() {
        LockStart::Locked(g) => g,
        LockStart::Wait(_) => panic!("readers share the lock"),
    };
    assert_eq!(lock.get_lock_status(), LockStatus::ReadLocked(2));
    assert!(lock.try_write().is_none());
    let mut writer = match lock.write() {
        LockStart::Locked(_) => panic!("readers hold the lock"),
        LockStart::Wait(w) => w,
    };
    assert!(matches!(writer.poll(&mut lock, Task::new(5)), Poll::Pending));
    r1.unlock(&mut lock, &mut sched);
    assert!(sched.executed().is_empty());
    r2.unlock(&mut lock, &mut sched);
    assert_eq!(sched.executed().as_slice(), &[Task::new(5)]);
    assert_eq!(lock.get_lock_status(), LockStatus::WriteLocked);
    let w = match writer.poll(&mut lock, Task::new(5)) {
        Poll::Ready(g) => g,
        Poll::Pending => panic!("the lock was handed over"),
    };
    *w.deref_mut(&mut lock) = 2;
    let mut reader = match lock.read() {
        LockStart::Locked(_) => panic!("a writer holds the lock"),
        LockStart::Wait(r) => r,
    };
    assert!(matches!(reader.poll(&mut lock, Task::new(6)), Poll::Pending));
    w.unlock(&mut lock, &mut sched);
    assert_eq!(lock.get_lock_status(), LockStatus::ReadLocked(1));
    let r = match reader.poll(&mut lock, Task::new(6)) {
        Poll::Ready(g) => g,
        Poll::Pending => panic!("the readers were woken"),
    };
    assert_eq!(*r.deref(&lock), 2);
    r.unlock(&mut lock, &mut sched);
    assert_eq!(lock.get_lock_status(), LockStatus::Unlocked);
}

#[test]
fn naive_rw_lock_readers_or_one_writer() {
    let mut lock = RWLock::new(String::from("a"));
    let r = lock.try_read().unwrap();
    assert!(matches!(lock.read(), Poll::Ready(_)));
    assert_eq!(lock.get_lock_status(), LockStatus::ReadLocked(2));
    assert!(matches!(lock.write(), Poll::Pending));
    assert_eq!(r.deref(&lock).as_str(), "a");
    r.unlock(&mut lock);
    lock.read_unlock();
    let w = lock.try_write().unwrap();
    assert!(lock.try_read().is_none());
    w.deref_mut(&mut lock).push('b');
    w.unlock(&mut lock);
    assert_eq!(lock.get_lock_status(), LockStatus::Unlocked);
    assert_eq!(lock.get_mut().as_str(), "ab");
}

#[test]
fn sync_task_list_is_first_in_first_out() {
    let mut list = SyncTaskList::new();
    assert!(list.is_empty());
    list.push(Task::new(1));
    list.push(Task::new(2));
    list.push(Task::new(3));
    assert_eq!(list.len(), 3);
    list.shrink_to(1);
    assert_eq!(list.len(), 3);
    assert_eq!(list.pop(), Some(Task::new(1)));
    let mut tasks = vec![Task::new(0)];
    list.pop_all_in(&mut tasks);
    assert_eq!(tasks, vec![Task::new(0), Task::new(2), Task::new(3)]);
    assert!(list.is_empty());
    assert_eq!(list.pop(), None);
    list.push(Task::new(4));
    let mut deque: VecDeque<Task> = VecDeque::new();
    deque.push_back(Task::new(5));
    list.pop_all_in_deque(&mut deque);
    assert_eq!(deque, VecDeque::from(vec![Task::new(5), Task::new(4)]));
    assert_eq!(list.len(), 0);
}

#[test]
fn results_unwrap() {
    SendResult::<u8>::Sent.unwrap();
    TrySendResult::<u8>::Sent.unwrap();
    RecvInResult::Received.unwrap();
    TryRecvInResult::Received.unwrap();
    assert_eq!(RecvResult::Received(3u8).unwrap(), 3);
    assert_eq!(TryRecvResult::Received(4u8).unwrap(), 4);
}

#[test]
fn executor_thread_spawner_records_and_stops() {
    let mut spawner = ExecutorThreadSpawner::default();
    assert!(!spawner.is_work_sharing_enabled());
    spawner.spawn_executor_and_block_on_local(3);
    spawner.spawn_executor_and_block_on_global(1);
    spawner.spawn_executor_and_spawn_local(4);
    spawner.spawn_executor_and_spawn_global(1);
    assert_eq!(spawner.ids_of_executors(), &[3, 1, 4, 1]);
    assert_eq!(spawner.stop_spawned_executors(), vec![3, 1, 4, 1]);
    assert!(spawner.ids_of_executors().is_empty());
    assert!(spawner.stop_spawned_executors().is_empty());
}

#[test]
fn executor_thread_spawner_with_work_sharing() {
    let spawner = ExecutorThreadSpawner::with_config(true, false);
    assert!(spawner.is_work_sharing_enabled());
    assert!(spawner.ids_of_executors().is_empty());
}

#[test]
fn local_pool_reuses_a_written_slot_and_creates_only_when_empty() {
    let mut pool = LocalPool::new(|| 5u32);
    let g = pool.acquire();
    *g.deref_mut(&mut pool) = 7;
    g.release(&mut pool);
    let g = pool.acquire();
    assert_eq!(*g.deref(&pool), 7);
    let h = pool.acquire();
    assert_eq!(*h.deref(&pool), 5);
    assert_eq!(*g.deref(&pool), 7);
}

#[test]
fn shared_wait_group_inc_then_done_gives_one() {
    let mut sched = Scheduler::new();
    let mut wg = WaitGroup::new();
    wg.inc();
    assert_eq!(wg.done(&mut sched), 1);
    assert_eq!(wg.count(), 0);
}
