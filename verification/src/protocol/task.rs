//! The task that a frontend hands to a worker.

use vstd::prelude::*;

use crate::protocol::ids::TaskId;

verus! {

/// What is known of a task.
#[derive(Debug, PartialEq, Eq)]
pub struct TaskContract {
    pub task_id: TaskId,
    /// What the task is to reach.
    pub goal: String,
    /// The name of the task's status.
    pub status: String,
}

} // verus!
