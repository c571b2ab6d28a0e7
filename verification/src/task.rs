//! The engine-side task model: what the caller hands to the backend.

use vstd::prelude::*;

verus! {

/// One execution step of a task: a container image reference and the ordered
/// command arguments to run inside it.
#[derive(Clone, Debug)]
pub struct Execution {
    pub image: String,
    pub args: Vec<String>,
}

/// An engine task: an optional name, an optional description, and an ordered,
/// non-empty sequence of execution steps.
#[derive(Clone, Debug)]
pub struct Task {
    pub name: Option<String>,
    pub description: Option<String>,
    pub executions: Vec<Execution>,
}

impl Task {
    /// A task is well formed when it carries at least one execution step.
    pub open spec fn wf(&self) -> bool {
        self.executions@.len() >= 1
    }

    /// Builds a task from its parts; the step sequence must not be empty.
    pub fn new(
        name: Option<String>,
        description: Option<String>,
        executions: Vec<Execution>,
    ) -> (t: Task)
        requires
            executions@.len() >= 1,
        ensures
            t.wf(),
            t.name == name,
            t.description == description,
            t.executions == executions,
    {
        Task { name, description, executions }
    }
}

} // verus!
