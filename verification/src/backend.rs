//! The backend facade: the verified core of the TES backend. A driver owns
//! the remote client and the clock; this type supplies the name, the
//! translation, every polling decision, and the aggregation of one run.

use vstd::prelude::*;
use crate::aggregate::{aggregate, aggregates};
use crate::outcome::{RunError, TaskResult};
use crate::poll::{
    is_terminal_outcome, poll_to_terminal, resolves_with, step, Event, MachineState, QueryOutcome,
    SubmitOutcome,
};
use crate::remote::TesTask;
use crate::task::Task;
use crate::translate::{to_tes_task, translates_task};

verus! {

/// How a whole scripted run ends, given the script of query outcomes it was
/// fed: either the script ran out before a terminal view, or the first
/// terminal view was reached after `n` queries and its log groups aggregate
/// to the run's result.
pub open spec fn scripted_outcome(
    queries: Seq<QueryOutcome>,
    n: int,
    out: Option<Result<TaskResult, RunError>>,
) -> bool {
    match out {
        None => resolves_with(queries, n, None),
        Some(res) => {
            &&& 1 <= n <= queries.len()
            &&& queries[n - 1] matches QueryOutcome::Resolved(view) && view.spec_is_terminal()
                && aggregates(view.logs@, res)
            &&& forall|j: int| 0 <= j < n - 1 ==> !is_terminal_outcome(#[trigger] queries[j])
        },
    }
}

/// The backend facade. It holds no state of its own: the remote client is
/// the driver's, and every run is a pure function of what the remote
/// service answered.
#[derive(Debug)]
pub struct Backend {}

impl Backend {
    /// Builds the backend facade.
    pub fn new() -> (b: Backend) {
        Backend {}
    }

    /// The constant name identifying this backend kind.
    pub fn default_name(&self) -> (r: &'static str)
        ensures
            r@ == "tes"@,
    {
        "tes"
    }

    /// Runs one task against a scripted remote service: the submission
    /// outcome and the query outcomes stand in for the network. Returns the
    /// payload that was submitted, how many queries were consumed, and the
    /// run's outcome — `None` when the script ran out while the task was
    /// still executing.
    ///
    /// A rejected submission is fatal before any query; otherwise the
    /// machine polls to the first terminal view and aggregates its logs.
    /// The result is a function of the arguments alone: concurrent runs
    /// cannot affect one another.
    pub fn run_scripted(&self, task: &Task, submit: SubmitOutcome, queries: Vec<QueryOutcome>) -> (r:
        (TesTask, usize, Option<Result<TaskResult, RunError>>))
        ensures
            translates_task(*task, r.0),
            submit is Rejected ==> r.1 == 0 && r.2 == Some(
                Err::<TaskResult, RunError>(RunError::SubmissionFailed),
            ),
            submit is Accepted ==> scripted_outcome(queries@, r.1 as int, r.2),
    {
        let payload = to_tes_task(task);
        let (s1, _action) = step(MachineState::Submitting, Event::Submitted(submit));
        match s1 {
            MachineState::Failed(err) => (payload, 0, Some(Err(err))),
            MachineState::Polling(id) => {
                let (used, got) = poll_to_terminal(id, queries);
                match got {
                    Some(view) => {
                        let res = aggregate(&view.logs);
                        (payload, used, Some(res))
                    },
                    None => (payload, used, None),
                }
            },
            _ => {
                proof {
                    assert(false);
                }
                (payload, 0, None)
            },
        }
    }
}

} // verus!
