use orengine_sync::sync::channel_results::Poll;
use orengine_sync::sync::local_rw_mutex::{
    LocalRWMutex, LocalReadMutexGuard, LocalWriteMutexGuard, ReadMutexWait, WriteMutexWait,
};
use orengine_sync::task::{Scheduler, Task};

fn ready_read(p: Poll<LocalReadMutexGuard>) -> LocalReadMutexGuard {
    match p {
        Poll::Ready(g) => g,
        Poll::Pending => panic!("the read lock was expected at once"),
    }
}

fn ready_write(p: Poll<LocalWriteMutexGuard>) -> LocalWriteMutexGuard {
    match p {
        Poll::Ready(g) => g,
        Poll::Pending => panic!("the write lock was expected at once"),
    }
}

/// A hundred readers hold the mutex while a hundred writers wait; each writer, once it holds
/// the mutex, starts a reader that has to wait for the writers; the value ends at 100.
#[test]
fn test_rw_mutex() {
    let mut sched = Scheduler::new();
    let mut mutex = LocalRWMutex::new(0i32);

    let mut read_guards: Vec<LocalReadMutexGuard> = Vec::new();
    for i in 1..=100u64 {
        let mut f = mutex.read();
        let g = ready_read(f.poll(&mut mutex, Task::new(i)));
        assert_eq!(mutex.number_of_readers(), i as isize);
        assert_eq!(*g.deref(&mutex), 0);
        read_guards.push(g);
    }

    let mut writers: Vec<Option<WriteMutexWait>> = Vec::new();
    for j in 1..=100u64 {
        assert_eq!(mutex.number_of_readers(), 100);
        let mut f = mutex.write();
        assert!(matches!(f.poll(&mut mutex, Task::new(100 + j)), Poll::Pending));
        writers.push(Some(f));
    }

    for (k, g) in read_guards.into_iter().enumerate() {
        assert_eq!(mutex.number_of_readers(), 100 - k as isize);
        assert_eq!(*g.deref(&mutex), 0);
        g.unlock(&mut mutex, &mut sched);
    }
    assert_eq!(mutex.number_of_readers(), -1);

    let mut inner_readers: Vec<Option<ReadMutexWait>> = (0..100).map(|_| None).collect();
    let mut handled = 0usize;
    let mut woken_writers = 0usize;
    while woken_writers < 100 {
        let task = sched.executed()[handled];
        handled += 1;
        let index = (task.id - 101) as usize;
        let mut f = writers[index].take().expect("a writer is woken once");
        let g = ready_write(f.poll(&mut mutex, task));
        woken_writers += 1;

        assert_eq!(mutex.number_of_readers(), -1);
        let mut reader = mutex.read();
        assert!(matches!(
            reader.poll(&mut mutex, Task::new(300 + index as u64)),
            Poll::Pending
        ));
        inner_readers[index] = Some(reader);

        assert_eq!(mutex.number_of_readers(), -1);
        *g.deref_mut(&mut mutex) += 1;
        g.unlock(&mut mutex, &mut sched);
    }

    assert_eq!(mutex.number_of_readers(), 100);
    let mut woken_readers: Vec<LocalReadMutexGuard> = Vec::new();
    while handled < sched.executed().len() {
        let task = sched.executed()[handled];
        handled += 1;
        let index = (task.id - 300) as usize;
        let mut f = inner_readers[index].take().expect("a reader is woken once");
        let g = ready_read(f.poll(&mut mutex, task));
        assert_ne!(*g.deref(&mutex), 0);
        assert_ne!(mutex.number_of_readers(), 0);
        woken_readers.push(g);
    }
    assert_eq!(woken_readers.len(), 100);
    for g in woken_readers {
        g.unlock(&mut mutex, &mut sched);
    }

    let mut f = mutex.read();
    let g = ready_read(f.poll(&mut mutex, Task::new(500)));
    assert_eq!(*g.deref(&mutex), 100);
    assert_ne!(mutex.number_of_readers(), 0);
}

/// The same scenario with `try_read` and `try_write`: a write is refused while readers hold
/// the mutex and a read while a writer holds it; the value ends at 100.
#[test]
fn test_try_rw_mutex() {
    let mut sched = Scheduler::new();
    let mut mutex = LocalRWMutex::new(0i32);

    let mut read_guards: Vec<LocalReadMutexGuard> = Vec::new();
    for i in 1..=100isize {
        let g = mutex.try_read().expect("try_read failed");
        assert_eq!(mutex.number_of_readers(), i);
        assert_eq!(*g.deref(&mutex), 0);
        read_guards.push(g);
    }

    for _ in 1..=100 {
        assert_eq!(mutex.number_of_readers(), 100);
        assert!(mutex.try_write().is_none());
    }

    for g in read_guards {
        g.unlock(&mut mutex, &mut sched);
    }

    for _ in 1..=100 {
        let g = mutex.try_write().expect("try_write failed");
        assert_eq!(mutex.number_of_readers(), -1);
        assert!(mutex.try_read().is_none());
        assert_eq!(mutex.number_of_readers(), -1);
        *g.deref_mut(&mut mutex) += 1;
        g.unlock(&mut mutex, &mut sched);
    }

    let mut inner_guards: Vec<LocalReadMutexGuard> = Vec::new();
    for _ in 1..=100 {
        let g = mutex.try_read().expect("try_read failed");
        assert_ne!(*g.deref(&mutex), 0);
        assert_ne!(mutex.number_of_readers(), 0);
        inner_guards.push(g);
    }
    for g in inner_guards {
        g.unlock(&mut mutex, &mut sched);
    }

    let g = mutex.try_read().expect("try_read failed");
    assert_eq!(*g.deref(&mutex), 100);
    assert_ne!(mutex.number_of_readers(), 0);
    assert!(sched.executed().is_empty());
}
