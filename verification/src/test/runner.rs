//! The decisions of the test runner, which runs every test on the executor of its thread.
//!
//! Before a test's future runs, the executor of the thread is created if there is none, and
//! the tasks that earlier tests spawned are let finish: the runner yields while any of them
//! is left. The caller performs each [`RunnerAction`] and asks again with the new state,
//! until the action is to run the test.
use vstd::prelude::*;

verus! {

/// What the runner does next.
#[derive(Debug, PartialEq, Eq, Structural)]
pub enum RunnerAction {
    /// Create the executor of this thread, with work sharing disabled.
    InitExecutor,
    /// Yield, so that the tasks that earlier tests spawned go on.
    Yield,
    /// Run the test's future as a local task and block until it is done.
    RunLocal,
    /// Run the test's future as a shared task and block until it is done.
    RunShared,
}

/// The action of a runner whose thread has an executor or not, with `spawned_tasks` tasks of
/// earlier tests left, before a test that runs as a local task (`shared` false) or as a
/// shared one.
pub open spec fn runner_action(executor_initialized: bool, spawned_tasks: nat, shared: bool) -> RunnerAction {
    if !executor_initialized {
        RunnerAction::InitExecutor
    } else if spawned_tasks > 0 {
        RunnerAction::Yield
    } else if shared {
        RunnerAction::RunShared
    } else {
        RunnerAction::RunLocal
    }
}

/// The next step of running a test as a local task.
pub fn run_test_and_block_on_local(executor_initialized: bool, spawned_tasks: usize) -> (a: RunnerAction)
    ensures
        a == runner_action(executor_initialized, spawned_tasks as nat, false),
{
    if !executor_initialized {
        RunnerAction::InitExecutor
    } else if spawned_tasks > 0 {
        RunnerAction::Yield
    } else {
        RunnerAction::RunLocal
    }
}

/// The next step of running a test as a shared task.
pub fn run_test_and_block_on_shared(executor_initialized: bool, spawned_tasks: usize) -> (a: RunnerAction)
    ensures
        a == runner_action(executor_initialized, spawned_tasks as nat, true),
{
    if !executor_initialized {
        RunnerAction::InitExecutor
    } else if spawned_tasks > 0 {
        RunnerAction::Yield
    } else {
        RunnerAction::RunShared
    }
}

} // verus!
