//! The engine-side result model: per-executor process outcomes, the non-empty
//! ordered result collection, and the run's error taxonomy.

use vstd::prelude::*;

verus! {

/// The exit status of one executor, kept as the raw numeric code the remote
/// service reported. How the platform encodes the code into its own process
/// status is left behind this one seam: the raw code is the model.
#[derive(Clone, Copy, Debug, PartialEq, Eq, Structural)]
pub struct ExitStatus {
    pub raw: i32,
}

impl ExitStatus {
    /// Builds a status from the remote service's numeric exit code.
    pub fn from_raw(raw: i32) -> (s: ExitStatus)
        ensures
            s.raw == raw,
    {
        ExitStatus { raw }
    }

    /// A status reports success exactly when its code is zero.
    pub open spec fn spec_success(self) -> bool {
        self.raw == 0
    }

    /// Returns whether the status reports success.
    pub fn success(&self) -> (r: bool)
        ensures
            r == self.spec_success(),
    {
        self.raw == 0
    }

    /// Returns the raw numeric code.
    pub fn code(&self) -> (r: i32)
        ensures
            r == self.raw,
    {
        self.raw
    }
}

/// The outcome of one executor: its exit status and the captured standard
/// output and error streams as raw bytes.
#[derive(Clone, Debug)]
pub struct ProcessOutput {
    pub status: ExitStatus,
    pub stdout: Vec<u8>,
    pub stderr: Vec<u8>,
}

/// Why a run failed.
#[derive(Clone, Copy, Debug, PartialEq, Eq, Structural)]
pub enum RunError {
    /// The remote service rejected the submission; the run is not retried.
    SubmissionFailed,
    /// The terminal view carried no executor log at all, violating the
    /// remote service's contract to report at least one log per task.
    EmptyTaskLogs,
    /// An executor log of the terminal view carried no exit code, violating
    /// the remote service's schema contract.
    MissingExitCode,
}

/// The result of one run: the outcome of every executor, in the order the
/// remote service reported them. The collection is never empty.
#[derive(Debug)]
pub struct TaskResult {
    executions: Vec<ProcessOutput>,
}

impl View for TaskResult {
    type V = Seq<ProcessOutput>;

    closed spec fn view(&self) -> Seq<ProcessOutput> {
        self.executions@
    }
}

impl TaskResult {
    /// A result always holds at least one outcome.
    #[verifier::type_invariant]
    spec fn inv(self) -> bool {
        self.executions@.len() >= 1
    }

    /// Builds a result from a non-empty list of outcomes, preserving order.
    pub fn new(executions: Vec<ProcessOutput>) -> (r: TaskResult)
        requires
            executions@.len() >= 1,
        ensures
            r@ == executions@,
    {
        TaskResult { executions }
    }

    /// Returns how many outcomes the result holds; always at least one:
    /// construction takes at least one outcome and nothing ever removes one.
    pub fn len(&self) -> (n: usize)
        ensures
            n == self@.len(),
            n >= 1,
    {
        proof {
            use_type_invariant(self);
        }
        self.executions.len()
    }

    /// Returns the outcome at `i`.
    pub fn get(&self, i: usize) -> (o: &ProcessOutput)
        requires
            i < self@.len(),
        ensures
            *o == self@[i as int],
    {
        &self.executions[i]
    }

    /// Returns the first outcome, which always exists.
    pub fn first(&self) -> (o: &ProcessOutput)
        ensures
            *o == self@[0],
    {
        proof {
            use_type_invariant(self);
        }
        &self.executions[0]
    }
}

} // verus!
