//! The tasks of the runtime that run connections, and the one thing that is
//! done to them here: they are aborted. A task that has been aborted is
//! handed on as an `AbortedTask`, which nothing but the abort can make, so
//! that whoever holds one knows what became of the task.

use tokio::task::JoinHandle;
use vstd::prelude::*;

verus! {

#[verifier::external_type_specification]
#[verifier::external_body]
#[verifier::reject_recursive_types(T)]
pub struct ExJoinHandle<T>(JoinHandle<T>);

// What awaiting a `JoinHandle` can fail with. Nothing here awaits one, but
// the type of a handle cannot be declared without it.
#[verifier::external_type_specification]
#[verifier::external_body]
pub struct ExJoinError(tokio::task::JoinError);

/// A task that has been told to abort.
#[derive(Debug)]
pub struct AbortedTask {
    task: JoinHandle<()>,
}

impl AbortedTask {
    /// The task that was aborted.
    pub closed spec fn task(&self) -> JoinHandle<()> {
        self.task
    }

    /// Hands the task out, to be waited for until the runtime has let go of
    /// it.
    pub fn into_handle(self) -> (task: JoinHandle<()>)
        ensures
            task == self.task(),
    {
        self.task
    }
}

/// Calls `tokio::task::JoinHandle::abort`, which asks the runtime to cancel
/// the task at its next suspension point; it does not wait and does not
/// panic. The task comes back as the one that was aborted.
#[verifier::external_body]
pub(crate) fn abort_task(task: JoinHandle<()>) -> (aborted: AbortedTask)
    ensures
        aborted.task() == task,
    opens_invariants none
    no_unwind
{
    task.abort();
    AbortedTask { task }
}

} // verus!
