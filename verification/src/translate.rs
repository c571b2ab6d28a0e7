//! Translation of an engine task into the remote submission payload: a pure,
//! total, order-preserving projection.

use vstd::prelude::*;
use crate::task::{Execution, Task};
use crate::remote::{TesExecutor, TesTask};

verus! {

/// One execution step translates to one remote executor: same image, same
/// command arguments, in the same order.
pub open spec fn translates_execution(e: Execution, x: TesExecutor) -> bool {
    &&& x.image@ == e.image@
    &&& x.command@ == e.args@
}

/// A payload translates a task when name and description are carried over
/// verbatim and the executors mirror the execution steps one for one, in
/// order.
pub open spec fn translates_task(t: Task, p: TesTask) -> bool {
    &&& p.name == t.name
    &&& p.description == t.description
    &&& p.executors@.len() == t.executions@.len()
    &&& forall|i: int|
        0 <= i < t.executions@.len() ==> translates_execution(
            t.executions@[i],
            #[trigger] p.executors@[i],
        )
}

/// Copies an optional string verbatim; absent stays absent.
fn clone_opt_string(s: &Option<String>) -> (r: Option<String>)
    ensures
        r == *s,
{
    match s {
        Some(v) => Some(v.clone()),
        None => None,
    }
}

/// Copies a string list element for element, preserving order.
fn clone_string_vec(v: &Vec<String>) -> (r: Vec<String>)
    ensures
        r@ == v@,
{
    let mut r: Vec<String> = Vec::new();
    let mut i: usize = 0;
    while i < v.len()
        invariant
            i <= v@.len(),
            r@ == v@.take(i as int),
        decreases v@.len() - i,
    {
        r.push(v[i].clone());
        proof {
            assert(v@.take(i + 1 as int) =~= v@.take(i as int).push(v@[i as int]));
        }
        i = i + 1;
    }
    proof {
        assert(v@.take(v@.len() as int) =~= v@);
    }
    r
}

/// Translates an engine task to the remote task payload for submission.
///
/// The projection narrows: name and description are copied verbatim, every
/// execution step becomes one executor with its image and arguments in order,
/// and everything the engine task does not provide is left to the remote
/// schema's defaults.
pub fn to_tes_task(task: &Task) -> (p: TesTask)
    ensures
        translates_task(*task, p),
{
    let name = clone_opt_string(&task.name);
    let description = clone_opt_string(&task.description);

    let mut executors: Vec<TesExecutor> = Vec::new();
    let mut i: usize = 0;
    while i < task.executions.len()
        invariant
            i <= task.executions@.len(),
            executors@.len() == i,
            forall|j: int|
                0 <= j < i ==> translates_execution(
                    task.executions@[j],
                    #[trigger] executors@[j],
                ),
        decreases task.executions@.len() - i,
    {
        let e = &task.executions[i];
        executors.push(TesExecutor { image: e.image.clone(), command: clone_string_vec(&e.args) });
        i = i + 1;
    }

    TesTask { name, description, executors }
}

} // verus!
