//! The remote service's task schema, modelled as plain values: the submission
//! payload, the reported task state, and the per-step execution logs that a
//! terminal task carries.

use vstd::prelude::*;

verus! {

/// One executor of a remote task: a container image and its command line.
/// Fields the engine task does not provide stay at the remote schema's
/// defaults and are not modelled here.
#[derive(Clone, Debug)]
pub struct TesExecutor {
    pub image: String,
    pub command: Vec<String>,
}

/// The submission payload: the narrowing projection of an engine task onto
/// the remote schema — name, description, and one executor per step.
#[derive(Clone, Debug)]
pub struct TesTask {
    pub name: Option<String>,
    pub description: Option<String>,
    pub executors: Vec<TesExecutor>,
}

/// Remote task state as the service reports it.
#[derive(Clone, Copy, Debug, PartialEq, Eq, Structural)]
pub enum TaskState {
    /// The state of the task is unknown.
    Unknown,
    /// The task is queued and awaiting resources.
    Queued,
    /// The task has been assigned to a worker and is preparing to run.
    Initializing,
    /// The task is running.
    Running,
    /// The task is paused.
    Paused,
    /// The task has completed running without error.
    Complete,
    /// One of the executors exited with an error.
    ExecutorError,
    /// The task was stopped by a system error outside any executor.
    SystemError,
    /// The task was canceled and its resources have been deleted.
    Canceled,
    /// The task was canceled and its resources await deletion.
    Canceling,
    /// The task was preempted by the system.
    Preempted,
}

impl TaskState {
    /// Whether a task in this state is still executing: anything up to and
    /// including a pause counts as executing; every other state is terminal
    /// for the polling loop, whether it denotes success or failure.
    pub open spec fn spec_is_executing(self) -> bool {
        match self {
            TaskState::Unknown => true,
            TaskState::Queued => true,
            TaskState::Initializing => true,
            TaskState::Running => true,
            TaskState::Paused => true,
            _ => false,
        }
    }

    /// Returns whether a task in this state is still executing.
    pub fn is_executing(&self) -> (r: bool)
        ensures
            r == self.spec_is_executing(),
    {
        match self {
            TaskState::Unknown => true,
            TaskState::Queued => true,
            TaskState::Initializing => true,
            TaskState::Running => true,
            TaskState::Paused => true,
            _ => false,
        }
    }
}

/// The log of one executor: its exit code, if the service reported one, and
/// the captured standard output and error streams, kept as raw bytes.
#[derive(Clone, Debug)]
pub struct TesExecutorLog {
    pub exit_code: Option<i32>,
    pub stdout: Option<Vec<u8>>,
    pub stderr: Option<Vec<u8>>,
}

/// One log group of a remote task: the ordered executor logs of one attempt.
#[derive(Clone, Debug)]
pub struct TesTaskLog {
    pub logs: Vec<TesExecutorLog>,
}

/// A snapshot of remote task state: the reported state and the ordered log
/// groups, which are meaningful once the state is terminal.
#[derive(Clone, Debug)]
pub struct TesTaskView {
    pub state: TaskState,
    pub logs: Vec<TesTaskLog>,
}

impl TesTaskView {
    /// Whether this snapshot shows a task that has stopped executing.
    pub open spec fn spec_is_terminal(self) -> bool {
        !self.state.spec_is_executing()
    }
}

} // verus!
