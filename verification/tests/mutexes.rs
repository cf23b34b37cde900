use orengine_sync::sync::channel_results::Poll;
use orengine_sync::sync::cond_var::{CondVar, LocalCondVar};
use orengine_sync::sync::local_mutex::{LocalMutex, LocalMutexGuard};
use orengine_sync::sync::local_rw_lock::LockStart;
use orengine_sync::sync::naive_mutex::NaiveMutex;
use orengine_sync::sync::smart_mutex::{Mutex, MutexGuard};
use orengine_sync::task::{Scheduler, Task};

/// A task holds the mutex and writes `true`; the task that waited for the lock reads it.
#[test]
fn test_mutex() {
    let mut sched = Scheduler::new();
    let mut mutex = LocalMutex::new(false);

    let holder = match mutex.lock() {
        LockStart::Locked(g) => g,
        LockStart::Wait(_) => panic!("the mutex was free"),
    };
    let mut waiting = match mutex.lock() {
        LockStart::Locked(_) => panic!("the mutex is held"),
        LockStart::Wait(w) => w,
    };
    assert!(matches!(waiting.poll(&mut mutex, Task::new(2)), Poll::Pending));

    *holder.deref_mut(&mut mutex) = true;
    holder.unlock(&mut mutex, &mut sched);
    assert_eq!(sched.executed().as_slice(), &[Task::new(2)]);
    assert!(mutex.is_locked());

    let value = match waiting.poll(&mut mutex, Task::new(2)) {
        Poll::Ready(g) => g,
        Poll::Pending => panic!("the lock was handed over"),
    };
    assert_eq!(*value.deref(&mutex), true);
    value.unlock(&mut mutex, &mut sched);
    assert!(!mutex.is_locked());
}

#[test]
fn test_try_mutex() {
    let mut sched = Scheduler::new();
    let mut mutex = LocalMutex::new(false);
    let holder = mutex.try_lock().expect("the mutex was free");
    assert!(mutex.try_lock().is_none());
    *holder.deref_mut(&mut mutex) = true;
    holder.unlock(&mut mutex, &mut sched);
    let value = mutex.try_lock();
    assert_eq!(*(value.expect("not waited")).deref(&mutex), true);
}

/// The lock goes to the waiter that came last.
#[test]
fn local_mutex_hands_over_to_the_last_waiter() {
    let mut sched = Scheduler::new();
    let mut mutex = LocalMutex::new(0u32);
    let holder: LocalMutexGuard = mutex.try_lock().unwrap();
    mutex.low_level_subscribe(Task::new(7));
    mutex.low_level_subscribe(Task::new(8));
    holder.unlock(&mut mutex, &mut sched);
    assert_eq!(sched.executed().as_slice(), &[Task::new(8)]);
    assert!(mutex.is_locked());
    let next = mutex.get_locked();
    let mutex = next.into_local_mutex(&mut mutex, &mut sched);
    assert_eq!(sched.executed().as_slice(), &[Task::new(8), Task::new(7)]);
    assert!(mutex.is_locked());
    *mutex.get_mut() = 5;
    let last = mutex.get_locked();
    last.unlock(&mut *mutex, &mut sched);
    assert!(!mutex.is_locked());
    assert_eq!(*mutex.get_mut(), 5);
}

#[test]
fn test_naive_mutex() {
    let mut mutex = NaiveMutex::new(false);
    let guard = match mutex.lock() {
        Poll::Ready(g) => g,
        Poll::Pending => panic!("the mutex was free"),
    };
    assert!(matches!(mutex.lock(), Poll::Pending));
    *mutex.get_mut() = true;
    guard.unlock(&mut mutex);
    let value = match mutex.lock() {
        Poll::Ready(g) => g,
        Poll::Pending => panic!("the mutex was released"),
    };
    assert_eq!(*mutex.get(&value), true);
    value.unlock(&mut mutex);
    assert!(!mutex.is_locked());
}

#[test]
fn test_try_naive_mutex() {
    let mut mutex = NaiveMutex::new(false);
    let holder = mutex.try_lock().expect("the mutex was free");
    assert!(mutex.try_lock().is_none());
    *mutex.get_mut() = true;
    holder.unlock(&mut mutex);
    match mutex.try_lock() {
        Some(v) => assert_eq!(*mutex.get(&v), true, "not waited"),
        None => panic!("can't acquire lock"),
    }
}

#[test]
fn stress_test_naive_mutex() {
    const PAR: usize = 50;
    const TRIES: usize = 100;
    let mut mutex = NaiveMutex::new(0usize);
    for _ in 0..PAR * TRIES {
        let guard = loop {
            if let Poll::Ready(g) = mutex.lock() {
                break g;
            }
        };
        *mutex.get_mut() += 1;
        guard.unlock(&mut mutex);
    }
    assert_eq!(*mutex.get_mut(), PAR * TRIES);
}

/// A waiter announces itself by raising the counter; unlocking hands the lock to the first
/// waiter of the queue, and unlocking without waiters frees the mutex.
#[test]
fn smart_mutex_hands_over_in_fifo_order() {
    let mut sched = Scheduler::new();
    let mut mutex = Mutex::new(1u8);
    let holder: MutexGuard = mutex.try_lock().expect("the mutex was free");
    assert!(mutex.try_lock_with_spinning().is_none());

    let mut w1 = mutex.lock();
    let mut w2 = mutex.lock();
    assert!(matches!(w1.poll(&mut mutex, Task::new(1)), Poll::Pending));
    assert!(matches!(w2.poll(&mut mutex, Task::new(2)), Poll::Pending));
    mutex.push_waiter(Task::new(1));
    mutex.push_waiter(Task::new(2));

    *holder.deref_mut(&mut mutex) = 2;
    holder.unlock(&mut mutex, &mut sched);
    assert_eq!(sched.executed().as_slice(), &[Task::new(1)]);
    let g1 = match w1.poll(&mut mutex, Task::new(1)) {
        Poll::Ready(g) => g,
        Poll::Pending => panic!("the lock was handed over"),
    };
    assert_eq!(*g1.deref(&mutex), 2);
    g1.unlock(&mut mutex, &mut sched);
    assert_eq!(sched.executed().as_slice(), &[Task::new(1), Task::new(2)]);
    let g2 = match w2.poll(&mut mutex, Task::new(2)) {
        Poll::Ready(g) => g,
        Poll::Pending => panic!("the lock was handed over"),
    };
    g2.unlock(&mut mutex, &mut sched);
    assert!(!mutex.is_locked());
    assert!(mutex.try_lock().is_some());
}

/// An unlock that finds a waiter announced but not yet queued owes it the lock and hands it
/// over on a retry once the waiter is queued.
#[test]
fn smart_mutex_unlock_retry() {
    let mut sched = Scheduler::new();
    let mut mutex = Mutex::new(());
    let holder = mutex.try_lock().unwrap();
    let mut w = mutex.lock();
    assert!(matches!(w.poll(&mut mutex, Task::new(3)), Poll::Pending));
    holder.unlock(&mut mutex, &mut sched);
    assert!(sched.executed().is_empty());
    assert!(!mutex.unlock_retry(&mut sched));
    mutex.push_waiter(Task::new(3));
    assert!(mutex.unlock_retry(&mut sched));
    assert_eq!(sched.executed().as_slice(), &[Task::new(3)]);
    assert!(mutex.is_locked());
}

/// A task that waits on the condition variable releases the lock; `notify_one` wakes the
/// waiter that came last, which takes the free lock at once.
#[test]
fn test_one_with_drop_guard() {
    let mut sched = Scheduler::new();
    let mut mutex = LocalMutex::new(false);
    let mut cond_var = LocalCondVar::new();

    let guard = mutex.try_lock().unwrap();
    let mut wait = cond_var.wait(guard, &mut mutex, &mut sched);
    assert!(!mutex.is_locked());
    assert!(matches!(wait.poll(&mut cond_var, &mut mutex, Task::new(1)), Poll::Pending));

    let notifier = mutex.try_lock().unwrap();
    *notifier.deref_mut(&mut mutex) = true;
    notifier.unlock(&mut mutex, &mut sched);
    cond_var.notify_one(&mut sched);
    assert_eq!(sched.executed().as_slice(), &[Task::new(1)]);

    let started = match wait.poll(&mut cond_var, &mut mutex, Task::new(1)) {
        Poll::Ready(g) => g,
        Poll::Pending => panic!("the mutex is free"),
    };
    assert_eq!(*started.deref(&mutex), true);
    started.unlock(&mut mutex, &mut sched);
}

/// `notify_all` wakes every waiter, the last one first; a woken waiter that finds the mutex
/// held waits for it and gets it from the unlocker.
#[test]
fn test_all_with_drop_guard() {
    let mut sched = Scheduler::new();
    let mut mutex = LocalMutex::new(false);
    let mut cond_var = LocalCondVar::new();
    let mut waits = Vec::new();
    for id in 1..=3u64 {
        let guard = mutex.try_lock().unwrap();
        let mut wait = cond_var.wait(guard, &mut mutex, &mut sched);
        assert!(matches!(wait.poll(&mut cond_var, &mut mutex, Task::new(id)), Poll::Pending));
        waits.push(wait);
    }
    cond_var.notify_all(&mut sched);
    assert_eq!(sched.executed().as_slice(), &[Task::new(3), Task::new(2), Task::new(1)]);

    let g3 = match waits[2].poll(&mut cond_var, &mut mutex, Task::new(3)) {
        Poll::Ready(g) => g,
        Poll::Pending => panic!("the mutex is free"),
    };
    assert!(matches!(waits[1].poll(&mut cond_var, &mut mutex, Task::new(2)), Poll::Pending));
    *g3.deref_mut(&mut mutex) = true;
    g3.unlock(&mut mutex, &mut sched);
    assert_eq!(sched.executed().last(), Some(&Task::new(2)));
    let g2 = match waits[1].poll(&mut cond_var, &mut mutex, Task::new(2)) {
        Poll::Ready(g) => g,
        Poll::Pending => panic!("the lock was handed over"),
    };
    assert_eq!(*g2.deref(&mutex), true);
    g2.unlock(&mut mutex, &mut sched);
    let g1 = match waits[0].poll(&mut cond_var, &mut mutex, Task::new(1)) {
        Poll::Ready(g) => g,
        Poll::Pending => panic!("the mutex is free"),
    };
    g1.unlock(&mut mutex, &mut sched);
    assert!(!mutex.is_locked());
}

/// The shared condition variable wakes its waiters in the order in which they came.
#[test]
fn test_one_without_drop_guard() {
    let mut sched = Scheduler::new();
    let mut mutex = Mutex::new(0u32);
    let mut cond_var = CondVar::new();
    let guard = mutex.try_lock().unwrap();
    let mut wait = cond_var.wait(guard, &mut mutex, &mut sched);
    assert!(!mutex.is_locked());
    assert!(matches!(wait.poll(&mut cond_var, &mut mutex, Task::new(4)), Poll::Pending));
    cond_var.notify_one(&mut sched);
    assert_eq!(sched.spawned().as_slice(), &[Task::new(4)]);
    let g = match wait.poll(&mut cond_var, &mut mutex, Task::new(4)) {
        Poll::Ready(g) => g,
        Poll::Pending => panic!("the mutex is free"),
    };
    g.unlock(&mut mutex, &mut sched);
    assert!(!mutex.is_locked());
}

#[test]
fn test_all_without_drop_guard() {
    let mut sched = Scheduler::new();
    let mut mutex = Mutex::new(0u32);
    let mut cond_var = CondVar::new();
    let mut waits = Vec::new();
    for id in 1..=3u64 {
        let guard = mutex.try_lock().unwrap();
        let mut wait = cond_var.wait(guard, &mut mutex, &mut sched);
        assert!(matches!(wait.poll(&mut cond_var, &mut mutex, Task::new(id)), Poll::Pending));
        waits.push(wait);
    }
    cond_var.notify_all(&mut sched);
    assert_eq!(sched.spawned().as_slice(), &[Task::new(1), Task::new(2), Task::new(3)]);
    let g1 = match waits[0].poll(&mut cond_var, &mut mutex, Task::new(1)) {
        Poll::Ready(g) => g,
        Poll::Pending => panic!("the mutex is free"),
    };
    assert!(matches!(waits[1].poll(&mut cond_var, &mut mutex, Task::new(2)), Poll::Pending));
    g1.unlock(&mut mutex, &mut sched);
    assert_eq!(sched.executed().as_slice(), &[Task::new(2)]);
    let g2 = match waits[1].poll(&mut cond_var, &mut mutex, Task::new(2)) {
        Poll::Ready(g) => g,
        Poll::Pending => panic!("the lock was handed over"),
    };
    g2.unlock(&mut mutex, &mut sched);
    assert!(!mutex.is_locked());
}

/// `wait_while` keeps the lock when the condition is already false, and waits otherwise.
#[test]
fn local_cond_var_wait_while() {
    let mut sched = Scheduler::new();
    let mut mutex = LocalMutex::new(0u32);
    let mut cond_var = LocalCondVar::new();
    let guard = mutex.try_lock().unwrap();
    let mut wait = match cond_var.wait_while(guard, &mut mutex, |v: &u32| *v < 1, &mut sched) {
        Ok(_) => panic!("the value is below one"),
        Err(w) => w,
    };
    assert!(!mutex.is_locked());
    assert!(matches!(wait.poll(&mut cond_var, &mut mutex, Task::new(1)), Poll::Pending));
    *mutex.get_mut() = 1;
    cond_var.notify_one(&mut sched);
    let guard = match wait.poll(&mut cond_var, &mut mutex, Task::new(1)) {
        Poll::Ready(g) => g,
        Poll::Pending => panic!("the mutex is free"),
    };
    let guard = match cond_var.wait_while(guard, &mut mutex, |v: &u32| *v < 1, &mut sched) {
        Ok(g) => g,
        Err(_) => panic!("the value is one"),
    };
    assert!(mutex.is_locked());
    assert_eq!(*guard.deref(&mutex), 1);
}

#[test]
fn shared_cond_var_wait_while() {
    let mut sched = Scheduler::new();
    let mut mutex = Mutex::new(false);
    let cond_var = CondVar::new();
    let guard = mutex.try_lock().unwrap();
    let guard = match cond_var.wait_while(guard, &mut mutex, |ready: &bool| !*ready, &mut sched) {
        Ok(_) => panic!("not ready yet"),
        Err(_) => {
            assert!(!mutex.is_locked());
            *mutex.get_mut() = true;
            mutex.try_lock().unwrap()
        },
    };
    assert!(matches!(
        cond_var.wait_while(guard, &mut mutex, |ready: &bool| !*ready, &mut sched),
        Ok(_)
    ));
    assert!(mutex.is_locked());
}

/// Several tasks woken by `notify_all` while the mutex is held all re-enter its queue, and
/// each unlock hands the lock to the next of them.
#[test]
fn shared_cond_var_notify_all_while_held() {
    let mut sched = Scheduler::new();
    let mut mutex = Mutex::new(0u32);
    let mut cond_var = CondVar::new();
    let mut waits = Vec::new();
    for id in 1..=3u64 {
        let guard = mutex.try_lock().unwrap();
        let mut wait = cond_var.wait(guard, &mut mutex, &mut sched);
        assert!(matches!(wait.poll(&mut cond_var, &mut mutex, Task::new(id)), Poll::Pending));
        waits.push(wait);
    }
    let holder = mutex.try_lock().unwrap();
    cond_var.notify_all(&mut sched);
    for (i, w) in waits.iter_mut().enumerate() {
        assert!(matches!(w.poll(&mut cond_var, &mut mutex, Task::new(i as u64 + 1)), Poll::Pending));
    }
    holder.unlock(&mut mutex, &mut sched);
    for (i, w) in waits.iter_mut().enumerate() {
        assert_eq!(sched.executed().last(), Some(&Task::new(i as u64 + 1)));
        let g = match w.poll(&mut cond_var, &mut mutex, Task::new(i as u64 + 1)) {
            Poll::Ready(g) => g,
            Poll::Pending => panic!("the lock was handed over"),
        };
        *g.deref_mut(&mut mutex) += 1;
        g.unlock(&mut mutex, &mut sched);
    }
    assert!(!mutex.is_locked());
    assert_eq!(*mutex.get_mut(), 3);
    assert!(mutex.try_lock().is_some());
}
