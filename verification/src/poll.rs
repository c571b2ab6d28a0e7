//! The polling state machine: it drives one run from submission through
//! repeated status queries to the terminal view. The machine is a pure
//! transition function; a driver performs each directed action against the
//! remote service and feeds the outcome back in as the next event.

use vstd::prelude::*;
use crate::outcome::RunError;
use crate::remote::TesTaskView;

verus! {

/// The fixed delay observed between an unresolved status query and the next
/// one, in milliseconds.
pub const POLL_DELAY_MS: u64 = 200;

/// What submitting the payload yielded: the task identifier the service
/// returned, or a rejection, which is fatal to the run.
#[derive(Clone, Debug)]
pub enum SubmitOutcome {
    Accepted(String),
    Rejected,
}

/// What one status query yielded: a transport failure — inconclusive, the
/// run retries after the delay — or the remote view.
#[derive(Clone, Debug)]
pub enum QueryOutcome {
    Failed,
    Resolved(TesTaskView),
}

/// The state of one run: submission pending, polling under the captured task
/// identifier, terminated with the terminal view, or failed.
#[derive(Debug)]
pub enum MachineState {
    Submitting,
    Polling(String),
    Done(TesTaskView),
    Failed(RunError),
}

/// What the driver reports to the machine.
#[derive(Debug)]
pub enum Event {
    Submitted(SubmitOutcome),
    Queried(QueryOutcome),
}

/// What the machine directs the driver to do next.
#[derive(Debug)]
pub enum Action {
    /// Submit the payload, then report the submission outcome.
    Submit,
    /// Query the task by identifier now, then report the query outcome.
    Query(String),
    /// Wait the given delay, query the task by identifier, then report the
    /// query outcome.
    Delay { delay_ms: u64, task_id: String },
    /// The run is over: the state holds the terminal view.
    Finish,
    /// The run failed: the state holds the error.
    Abort,
}

/// An outcome that ends the polling loop: a resolved view whose state shows
/// the task is no longer executing.
pub open spec fn is_terminal_outcome(q: QueryOutcome) -> bool {
    &&& q is Resolved
    &&& q->0.spec_is_terminal()
}

/// The transition function of the polling state machine.
///
/// Submission precedes all queries; a rejected submission is fatal without
/// retry; a failed or still-executing query re-enters polling after the
/// standard delay; a resolved query with a non-executing state terminates
/// the run with that view. Terminal states absorb every event, and an event
/// that does not belong to the current state leaves it unchanged, the
/// machine re-directing the action it is waiting on.
pub open spec fn next(s: MachineState, e: Event) -> (MachineState, Action) {
    match (s, e) {
        (MachineState::Submitting, Event::Submitted(SubmitOutcome::Accepted(id))) => (
            MachineState::Polling(id),
            Action::Query(id),
        ),
        (MachineState::Submitting, Event::Submitted(SubmitOutcome::Rejected)) => (
            MachineState::Failed(RunError::SubmissionFailed),
            Action::Abort,
        ),
        (MachineState::Submitting, Event::Queried(_)) => (MachineState::Submitting, Action::Submit),
        (MachineState::Polling(id), Event::Queried(QueryOutcome::Failed)) => (
            MachineState::Polling(id),
            Action::Delay { delay_ms: POLL_DELAY_MS, task_id: id },
        ),
        (MachineState::Polling(id), Event::Queried(QueryOutcome::Resolved(v))) => if v.state.spec_is_executing() {
            (
                MachineState::Polling(id),
                Action::Delay { delay_ms: POLL_DELAY_MS, task_id: id },
            )
        } else {
            (MachineState::Done(v), Action::Finish)
        },
        (MachineState::Polling(id), Event::Submitted(_)) => (
            MachineState::Polling(id),
            Action::Query(id),
        ),
        (MachineState::Done(v), _) => (MachineState::Done(v), Action::Finish),
        (MachineState::Failed(err), _) => (MachineState::Failed(err), Action::Abort),
    }
}

/// Takes one step of the polling state machine.
pub fn step(s: MachineState, e: Event) -> (r: (MachineState, Action))
    ensures
        r == next(s, e),
{
    match (s, e) {
        (MachineState::Submitting, Event::Submitted(SubmitOutcome::Accepted(id))) => {
            let id2 = id.clone();
            (MachineState::Polling(id), Action::Query(id2))
        },
        (MachineState::Submitting, Event::Submitted(SubmitOutcome::Rejected)) => (
            MachineState::Failed(RunError::SubmissionFailed),
            Action::Abort,
        ),
        (MachineState::Submitting, Event::Queried(_)) => (
            MachineState::Submitting,
            Action::Submit,
        ),
        (MachineState::Polling(id), Event::Queried(QueryOutcome::Failed)) => {
            let id2 = id.clone();
            (
                MachineState::Polling(id),
                Action::Delay { delay_ms: POLL_DELAY_MS, task_id: id2 },
            )
        },
        (MachineState::Polling(id), Event::Queried(QueryOutcome::Resolved(v))) => {
            if v.state.is_executing() {
                let id2 = id.clone();
                (
                    MachineState::Polling(id),
                    Action::Delay { delay_ms: POLL_DELAY_MS, task_id: id2 },
                )
            } else {
                (MachineState::Done(v), Action::Finish)
            }
        },
        (MachineState::Polling(id), Event::Submitted(_)) => {
            let id2 = id.clone();
            (MachineState::Polling(id), Action::Query(id2))
        },
        (MachineState::Done(v), _) => (MachineState::Done(v), Action::Finish),
        (MachineState::Failed(err), _) => (MachineState::Failed(err), Action::Abort),
    }
}

/// Returns whether the machine has reached its terminal state.
fn is_done(s: &MachineState) -> (r: bool)
    ensures
        r == (s is Done),
{
    matches!(s, MachineState::Done(_))
}

/// How a polling loop's end relates to the script of query outcomes it was
/// fed: `n` queries were consumed, and `res` is the terminal view the run
/// ended on, if the script reached one.
pub open spec fn resolves_with(qs: Seq<QueryOutcome>, n: int, res: Option<TesTaskView>) -> bool {
    match res {
        Some(view) => {
            &&& 1 <= n <= qs.len()
            &&& qs[n - 1] == QueryOutcome::Resolved(view)
            &&& view.spec_is_terminal()
            &&& forall|j: int| 0 <= j < n - 1 ==> !is_terminal_outcome(#[trigger] qs[j])
        },
        None => {
            &&& n == qs.len()
            &&& forall|j: int| 0 <= j < qs.len() ==> !is_terminal_outcome(#[trigger] qs[j])
        },
    }
}

/// Drives the polling state machine over a scripted sequence of query
/// outcomes, one event per query, and returns how many queries were consumed
/// together with the terminal view, if the script reached one before running
/// out.
pub fn poll_to_terminal(task_id: String, outcomes: Vec<QueryOutcome>) -> (r: (
    usize,
    Option<TesTaskView>,
))
    ensures
        resolves_with(outcomes@, r.0 as int, r.1),
{
    let ghost qs = outcomes@;
    let mut state = MachineState::Polling(task_id);
    let ghost id0 = state;
    let mut used: usize = 0;
    let mut remaining = outcomes;
    let total: usize = remaining.len();
    while remaining.len() > 0 && !is_done(&state)
        invariant
            id0 is Polling,
            total == qs.len(),
            used + remaining@.len() == total,
            remaining@ == qs.skip(used as int),
            !(state is Done) ==> state == id0 && forall|j: int|
                0 <= j < used ==> !is_terminal_outcome(#[trigger] qs[j]),
            state matches MachineState::Done(view) ==> resolves_with(qs, used as int, Some(view)),
        decreases remaining@.len(),
    {
        let q = remaining.remove(0);
        proof {
            assert(q == qs[used as int]);
            assert(remaining@ =~= qs.skip(used as int + 1));
        }
        used = used + 1;
        let (s2, _action) = step(state, Event::Queried(q));
        state = s2;
        proof {
            assert(state matches MachineState::Done(view) ==> q == QueryOutcome::Resolved(view)
                && view.spec_is_terminal());
            assert(!(state is Done) ==> state == id0 && !is_terminal_outcome(qs[used - 1]));
        }
    }
    match state {
        MachineState::Done(v) => (used, Some(v)),
        _ => {
            proof {
                assert(qs.skip(used as int).len() == 0);
            }
            (used, None)
        },
    }
}

/// The machine asks for the standard delay before the next query after every
/// inconclusive or still-executing response.
pub proof fn lemma_delay_before_next_query(id: String, q: QueryOutcome)
    requires
        !is_terminal_outcome(q),
    ensures
        next(MachineState::Polling(id), Event::Queried(q)) == (
            MachineState::Polling(id),
            Action::Delay { delay_ms: POLL_DELAY_MS, task_id: id },
        ),
{
}

/// Polling termination: when a script stays non-terminal for its first `k`
/// queries and reports a terminal view `v` on query `k + 1`, every run of
/// the polling loop over that script consumes exactly `k + 1` queries and
/// ends on `v`.
pub proof fn lemma_polling_termination(
    qs: Seq<QueryOutcome>,
    k: int,
    v: TesTaskView,
    n: int,
    res: Option<TesTaskView>,
)
    requires
        0 <= k < qs.len(),
        forall|j: int| 0 <= j < k ==> !is_terminal_outcome(#[trigger] qs[j]),
        qs[k] == QueryOutcome::Resolved(v),
        v.spec_is_terminal(),
        resolves_with(qs, n, res),
    ensures
        n == k + 1,
        res == Some(v),
{
    assert(is_terminal_outcome(qs[k]));
    match res {
        Some(view) => {
            if n - 1 < k {
                assert(!is_terminal_outcome(qs[n - 1]));
            }
            if n - 1 > k {
                assert(!is_terminal_outcome(qs[k]));
            }
            assert(n - 1 == k);
        },
        None => {
            assert(!is_terminal_outcome(qs[k]));
        },
    }
}

/// The polling loop's end is a function of its script alone: any two
/// resolutions of one script agree, so runs driven by different scripts are
/// independent however they interleave.
pub proof fn lemma_resolution_deterministic(
    qs: Seq<QueryOutcome>,
    n1: int,
    r1: Option<TesTaskView>,
    n2: int,
    r2: Option<TesTaskView>,
)
    requires
        resolves_with(qs, n1, r1),
        resolves_with(qs, n2, r2),
    ensures
        n1 == n2,
        r1 == r2,
{
    match (r1, r2) {
        (Some(v1), Some(v2)) => {
            assert(is_terminal_outcome(qs[n1 - 1]));
            assert(is_terminal_outcome(qs[n2 - 1]));
            if n1 < n2 {
                assert(!is_terminal_outcome(qs[n1 - 1]));
            }
            if n2 < n1 {
                assert(!is_terminal_outcome(qs[n2 - 1]));
            }
            assert(QueryOutcome::Resolved(v1) == QueryOutcome::Resolved(v2));
        },
        (Some(_), None) => {
            assert(is_terminal_outcome(qs[n1 - 1]));
            assert(!is_terminal_outcome(qs[n1 - 1]));
        },
        (None, Some(_)) => {
            assert(is_terminal_outcome(qs[n2 - 1]));
            assert(!is_terminal_outcome(qs[n2 - 1]));
        },
        (None, None) => {
        },
    }
}

/// Identifier confinement: from a polling state the machine keeps its own
/// task identifier whatever the event, and every query or delay it directs
/// carries that identifier — concurrent runs sharing a client can never
/// exchange identifiers.
pub proof fn lemma_identifier_confined(id: String, e: Event)
    ensures
        next(MachineState::Polling(id), e).0 matches MachineState::Polling(kept) ==> kept == id,
        next(MachineState::Polling(id), e).1 matches Action::Query(queried) ==> queried == id,
        next(MachineState::Polling(id), e).1 matches Action::Delay { task_id, .. } ==> task_id
            == id,
{
}

} // verus!
