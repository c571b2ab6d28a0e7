//! Aggregation of a terminal task's log groups into the engine result: the
//! ordered groups are flattened, every executor log must carry an exit code,
//! and the result is non-empty or the run fails.

use vstd::prelude::*;
use crate::remote::{TesExecutorLog, TesTaskLog};
use crate::outcome::{ExitStatus, ProcessOutput, RunError, TaskResult};

verus! {

/// The flattening of ordered log groups into one ordered sequence of
/// executor logs: group order outer, executor order inner.
pub open spec fn flat_logs(groups: Seq<TesTaskLog>) -> Seq<TesExecutorLog>
    decreases groups.len(),
{
    if groups.len() == 0 {
        Seq::empty()
    } else {
        groups.first().logs@ + flat_logs(groups.drop_first())
    }
}

/// The byte content of an optionally captured stream: absent means empty.
pub open spec fn byte_content(b: Option<Vec<u8>>) -> Seq<u8> {
    match b {
        Some(v) => v@,
        None => Seq::empty(),
    }
}

/// The outcome an executor log maps to: the status carries the log's exit
/// code, which must be present, and each stream defaults to empty bytes.
pub open spec fn outcome_matches(log: TesExecutorLog, o: ProcessOutput) -> bool {
    &&& log.exit_code is Some
    &&& o.status.raw == log.exit_code->0
    &&& o.stdout@ == byte_content(log.stdout)
    &&& o.stderr@ == byte_content(log.stderr)
}

/// Whether every executor log of the sequence carries an exit code.
pub open spec fn all_codes_present(logs: Seq<TesExecutorLog>) -> bool {
    forall|i: int| 0 <= i < logs.len() ==> (#[trigger] logs[i]).exit_code is Some
}

/// How the aggregator's result relates to the log groups it was given:
/// success carries one outcome per flattened log, in order, and each failure
/// kind comes exactly on the inputs that violate the remote contract.
pub open spec fn aggregates(groups: Seq<TesTaskLog>, r: Result<TaskResult, RunError>) -> bool {
    let flat = flat_logs(groups);
    match r {
        Ok(res) => {
            &&& flat.len() >= 1
            &&& all_codes_present(flat)
            &&& res@.len() == flat.len()
            &&& forall|i: int| 0 <= i < flat.len() ==> outcome_matches(flat[i], #[trigger] res@[i])
        },
        Err(e) => {
            &&& (e == RunError::EmptyTaskLogs <==> flat.len() == 0)
            &&& (e == RunError::MissingExitCode <==> flat.len() >= 1 && !all_codes_present(flat))
            &&& (e == RunError::EmptyTaskLogs || e == RunError::MissingExitCode)
        },
    }
}

/// Flattening distributes over concatenation of group sequences.
proof fn lemma_flat_logs_append(s1: Seq<TesTaskLog>, s2: Seq<TesTaskLog>)
    ensures
        flat_logs(s1 + s2) == flat_logs(s1) + flat_logs(s2),
    decreases s1.len(),
{
    if s1.len() == 0 {
        assert(s1 + s2 =~= s2);
        assert(flat_logs(s1) + flat_logs(s2) =~= flat_logs(s2));
    } else {
        assert((s1 + s2).drop_first() =~= s1.drop_first() + s2);
        lemma_flat_logs_append(s1.drop_first(), s2);
        assert((s1 + s2).first() == s1.first());
        assert(s1.first().logs@ + (flat_logs(s1.drop_first()) + flat_logs(s2)) =~= (s1.first().logs@
            + flat_logs(s1.drop_first())) + flat_logs(s2));
    }
}

/// Taking one more group appends exactly that group's executor logs to the
/// flattening.
proof fn lemma_flat_logs_take_succ(groups: Seq<TesTaskLog>, i: int)
    requires
        0 <= i < groups.len(),
    ensures
        flat_logs(groups.take(i + 1)) == flat_logs(groups.take(i)) + groups[i].logs@,
{
    let single = seq![groups[i]];
    assert(groups.take(i + 1) =~= groups.take(i) + single);
    lemma_flat_logs_append(groups.take(i), single);
    assert(single.drop_first().len() == 0);
    assert(flat_logs(single.drop_first()) == Seq::<TesExecutorLog>::empty());
    assert(single.first() == groups[i]);
    assert(flat_logs(single) =~= groups[i].logs@);
}

/// Copies a byte vector.
fn clone_bytes(v: &Vec<u8>) -> (r: Vec<u8>)
    ensures
        r@ == v@,
{
    let mut r: Vec<u8> = Vec::new();
    let mut i: usize = 0;
    while i < v.len()
        invariant
            i <= v@.len(),
            r@ == v@.take(i as int),
        decreases v@.len() - i,
    {
        r.push(v[i]);
        proof {
            assert(v@.take(i as int + 1) =~= v@.take(i as int).push(v@[i as int]));
        }
        i = i + 1;
    }
    proof {
        assert(v@.take(v@.len() as int) =~= v@);
    }
    r
}

/// Materialises an optionally captured stream, defaulting to empty bytes.
fn bytes_of_opt(b: &Option<Vec<u8>>) -> (r: Vec<u8>)
    ensures
        r@ == byte_content(*b),
{
    match b {
        Some(v) => clone_bytes(v),
        None => Vec::new(),
    }
}

/// Aggregates the ordered log groups of a terminal task into the run result.
///
/// The groups are flattened in order; every executor log must carry an exit
/// code, its streams default to empty bytes when absent, and at least one
/// flattened log must exist — an empty flattening or a missing exit code is
/// a contract violation by the remote service and fails the run.
pub fn aggregate(logs: &Vec<TesTaskLog>) -> (r: Result<TaskResult, RunError>)
    ensures
        aggregates(logs@, r),
{
    let ghost all = logs@;
    let mut out: Vec<ProcessOutput> = Vec::new();
    let mut gi: usize = 0;
    while gi < logs.len()
        invariant
            all == logs@,
            gi <= all.len(),
            out@.len() == flat_logs(all.take(gi as int)).len(),
            forall|j: int|
                0 <= j < out@.len() ==> outcome_matches(
                    flat_logs(all.take(gi as int))[j],
                    #[trigger] out@[j],
                ),
        decreases all.len() - gi,
    {
        let ghost base = flat_logs(all.take(gi as int)).len() as int;
        let mut li: usize = 0;
        while li < logs[gi].logs.len()
            invariant
                all == logs@,
                gi < all.len(),
                li <= all[gi as int].logs@.len(),
                base == flat_logs(all.take(gi as int)).len() as int,
                out@.len() as int == base + li as int,
                forall|j: int|
                    0 <= j < base ==> outcome_matches(
                        flat_logs(all.take(gi as int))[j],
                        #[trigger] out@[j],
                    ),
                forall|k: int|
                    0 <= k < li ==> outcome_matches(
                        all[gi as int].logs@[k],
                        #[trigger] out@[base + k],
                    ),
            decreases all[gi as int].logs@.len() - li,
        {
            let log = &logs[gi].logs[li];
            match log.exit_code {
                None => {
                    proof {
                        let pos = base + li as int;
                        assert(all =~= all.take(gi as int) + all.skip(gi as int));
                        lemma_flat_logs_append(all.take(gi as int), all.skip(gi as int));
                        assert(all.skip(gi as int).first() == all[gi as int]);
                        assert(flat_logs(all.skip(gi as int)) == all[gi as int].logs@ + flat_logs(
                            all.skip(gi as int).drop_first(),
                        ));
                        assert(flat_logs(all)[pos] == all[gi as int].logs@[li as int]);
                        assert(!all_codes_present(flat_logs(all)));
                    }
                    return Err(RunError::MissingExitCode);
                },
                Some(code) => {
                    let status = ExitStatus::from_raw(code);
                    let stdout = bytes_of_opt(&log.stdout);
                    let stderr = bytes_of_opt(&log.stderr);
                    out.push(ProcessOutput { status, stdout, stderr });
                },
            }
            li = li + 1;
        }
        proof {
            lemma_flat_logs_take_succ(all, gi as int);
            assert forall|j: int| 0 <= j < out@.len() implies outcome_matches(
                flat_logs(all.take(gi as int + 1))[j],
                #[trigger] out@[j],
            ) by {
                if j < base {
                    assert(flat_logs(all.take(gi as int + 1))[j] == flat_logs(
                        all.take(gi as int),
                    )[j]);
                } else {
                    assert(outcome_matches(all[gi as int].logs@[j - base], out@[base + (j - base)]));
                    assert(flat_logs(all.take(gi as int + 1))[j] == all[gi as int].logs@[j - base]);
                }
            }
        }
        gi = gi + 1;
    }
    proof {
        assert(all.take(all.len() as int) =~= all);
    }
    if out.len() == 0 {
        return Err(RunError::EmptyTaskLogs);
    }
    let ghost flat = flat_logs(all);
    let ghost outs = out@;
    proof {
        assert forall|i: int| 0 <= i < flat.len() implies (#[trigger] flat[i]).exit_code is Some by {
            assert(outcome_matches(flat[i], outs[i]));
        }
    }
    let res = TaskResult::new(out);
    proof {
        assert forall|i: int| 0 <= i < flat.len() implies outcome_matches(
            flat[i],
            #[trigger] res@[i],
        ) by {
            assert(outcome_matches(flat[i], outs[i]));
            assert(res@[i] == outs[i]);
        }
    }
    Ok(res)
}

/// Any aggregation of a terminal view with at least one flattened executor
/// log, all exit codes present, succeeds with one outcome per flattened log,
/// in the same order.
pub proof fn lemma_result_mirrors_logs(groups: Seq<TesTaskLog>, r: Result<TaskResult, RunError>)
    requires
        aggregates(groups, r),
        flat_logs(groups).len() >= 1,
        all_codes_present(flat_logs(groups)),
    ensures
        r is Ok,
        r->Ok_0@.len() == flat_logs(groups).len(),
        forall|i: int|
            0 <= i < flat_logs(groups).len() ==> outcome_matches(
                flat_logs(groups)[i],
                #[trigger] r->Ok_0@[i],
            ),
{
}

/// An aggregated outcome reports success exactly when its log's exit code
/// was zero, and an absent stream maps to empty bytes.
pub proof fn lemma_exit_status_mapping(log: TesExecutorLog, o: ProcessOutput)
    requires
        outcome_matches(log, o),
    ensures
        o.status.spec_success() <==> log.exit_code == Some(0i32),
        log.stdout is None ==> o.stdout@ == Seq::<u8>::empty(),
        log.stderr is None ==> o.stderr@ == Seq::<u8>::empty(),
{
}

/// Any aggregation of a terminal view whose flattening is empty fails with
/// the distinct empty-logs error; an empty result is never produced.
pub proof fn lemma_fatal_on_empty(groups: Seq<TesTaskLog>, r: Result<TaskResult, RunError>)
    requires
        aggregates(groups, r),
        flat_logs(groups).len() == 0,
    ensures
        r == Err::<TaskResult, RunError>(RunError::EmptyTaskLogs),
{
}

} // verus!
