use orengine_sync::test::executor_pool::ExecutorPool;
use orengine_sync::test::runner::{run_test_and_block_on_local, run_test_and_block_on_shared, RunnerAction};

#[test]
fn executor_pool_starts_executors_only_when_none_is_free() {
    let mut pool = ExecutorPool::new();
    let mut started = 0usize;
    let h1 = pool.sched_future(|| {
        started += 1;
        100
    });
    assert_eq!(h1.executor(), 100);
    let h2 = pool.sched_future(|| 200);
    assert_eq!(h2.executor(), 200);
    assert_eq!(started, 1);

    h2.join(&mut pool);
    h1.join(&mut pool);
    let h3 = pool.sched_future(|| panic!("an executor is free"));
    assert_eq!(h3.executor(), 200);
    let h4 = pool.sched_future(|| panic!("an executor is free"));
    assert_eq!(h4.executor(), 100);
    let h5 = pool.sched_future(|| 300);
    assert_eq!(h5.executor(), 300);
}

#[test]
fn runner_steps() {
    assert_eq!(run_test_and_block_on_local(false, 3), RunnerAction::InitExecutor);
    assert_eq!(run_test_and_block_on_local(true, 3), RunnerAction::Yield);
    assert_eq!(run_test_and_block_on_local(true, 0), RunnerAction::RunLocal);
    assert_eq!(run_test_and_block_on_shared(false, 0), RunnerAction::InitExecutor);
    assert_eq!(run_test_and_block_on_shared(true, 1), RunnerAction::Yield);
    assert_eq!(run_test_and_block_on_shared(true, 0), RunnerAction::RunShared);
}
