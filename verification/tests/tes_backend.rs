//! Tests for the TES backend core: translation, aggregation, polling, and
//! the scripted end-to-end run.

use tes_backend::aggregate::aggregate;
use tes_backend::backend::Backend;
use tes_backend::outcome::{ExitStatus, RunError};
use tes_backend::poll::{
    poll_to_terminal, step, Action, Event, MachineState, QueryOutcome, SubmitOutcome,
    POLL_DELAY_MS,
};
use tes_backend::remote::{TaskState, TesExecutorLog, TesTaskLog, TesTaskView};
use tes_backend::task::{Execution, Task};
use tes_backend::translate::to_tes_task;

fn exec_step(image: &str, args: &[&str]) -> Execution {
    Execution {
        image: image.to_string(),
        args: args.iter().map(|a| a.to_string()).collect(),
    }
}

fn log(code: Option<i32>, stdout: Option<&str>, stderr: Option<&str>) -> TesExecutorLog {
    TesExecutorLog {
        exit_code: code,
        stdout: stdout.map(|s| s.as_bytes().to_vec()),
        stderr: stderr.map(|s| s.as_bytes().to_vec()),
    }
}

fn view(state: TaskState, groups: Vec<TesTaskLog>) -> TesTaskView {
    TesTaskView { state, logs: groups }
}

#[test]
fn translation_preserves_order_and_fields() {
    let task = Task::new(
        Some("align".to_string()),
        Some("align reads".to_string()),
        vec![
            exec_step("img/a:1", &["echo", "one"]),
            exec_step("img/b:2", &["cat"]),
            exec_step("img/c:3", &[]),
        ],
    );
    let payload = to_tes_task(&task);
    assert_eq!(payload.name.as_deref(), Some("align"));
    assert_eq!(payload.description.as_deref(), Some("align reads"));
    assert_eq!(payload.executors.len(), 3);
    assert_eq!(payload.executors[0].image, "img/a:1");
    assert_eq!(payload.executors[0].command, vec!["echo", "one"]);
    assert_eq!(payload.executors[1].image, "img/b:2");
    assert_eq!(payload.executors[1].command, vec!["cat"]);
    assert_eq!(payload.executors[2].image, "img/c:3");
    assert!(payload.executors[2].command.is_empty());
}

#[test]
fn translation_keeps_absent_fields_absent() {
    let task = Task::new(None, None, vec![exec_step("img", &[])]);
    let payload = to_tes_task(&task);
    assert!(payload.name.is_none());
    assert!(payload.description.is_none());
    assert_eq!(payload.executors.len(), 1);
}

#[test]
fn aggregate_mirrors_flattened_logs() {
    let groups = vec![
        TesTaskLog {
            logs: vec![
                log(Some(0), Some("out-a"), None),
                log(Some(3), None, Some("err-b")),
            ],
        },
        TesTaskLog { logs: vec![log(Some(137), Some("out-c"), Some("err-c"))] },
    ];
    let result = aggregate(&groups).expect("aggregation succeeds");
    assert_eq!(result.len(), 3);
    assert_eq!(result.get(0).status.code(), 0);
    assert!(result.get(0).status.success());
    assert_eq!(result.get(0).stdout, b"out-a".to_vec());
    assert_eq!(result.get(0).stderr, Vec::<u8>::new());
    assert_eq!(result.get(1).status.code(), 3);
    assert!(!result.get(1).status.success());
    assert_eq!(result.get(1).stdout, Vec::<u8>::new());
    assert_eq!(result.get(1).stderr, b"err-b".to_vec());
    assert_eq!(result.get(2).status.code(), 137);
    assert_eq!(result.first().status.code(), 0);
}

#[test]
fn aggregate_empty_view_fails() {
    let result = aggregate(&Vec::new());
    assert_eq!(result.err(), Some(RunError::EmptyTaskLogs));
}

#[test]
fn aggregate_empty_groups_fail() {
    let groups = vec![TesTaskLog { logs: vec![] }, TesTaskLog { logs: vec![] }];
    let result = aggregate(&groups);
    assert_eq!(result.err(), Some(RunError::EmptyTaskLogs));
}

#[test]
fn aggregate_missing_exit_code_fails() {
    let groups = vec![TesTaskLog {
        logs: vec![log(Some(0), None, None), log(None, Some("late"), None)],
    }];
    let result = aggregate(&groups);
    assert_eq!(result.err(), Some(RunError::MissingExitCode));
}

#[test]
fn exit_status_zero_is_success() {
    let status = ExitStatus::from_raw(0);
    assert!(status.success());
    assert_eq!(status.code(), 0);
}

#[test]
fn exit_status_reflects_raw_code() {
    let status = ExitStatus::from_raw(137);
    assert!(!status.success());
    assert_eq!(status.code(), 137);
}

#[test]
fn polling_consumes_exactly_k_plus_one_queries() {
    let k = 3;
    let mut script: Vec<QueryOutcome> = (0..k)
        .map(|_| QueryOutcome::Resolved(view(TaskState::Running, vec![])))
        .collect();
    script.push(QueryOutcome::Resolved(view(TaskState::Complete, vec![])));
    script.push(QueryOutcome::Resolved(view(TaskState::SystemError, vec![])));
    let (used, got) = poll_to_terminal("task-1".to_string(), script);
    assert_eq!(used, k + 1);
    let terminal = got.expect("a terminal view is reached");
    assert_eq!(terminal.state, TaskState::Complete);
}

#[test]
fn polling_treats_transient_failures_as_inconclusive() {
    let script = vec![
        QueryOutcome::Failed,
        QueryOutcome::Resolved(view(TaskState::Queued, vec![])),
        QueryOutcome::Failed,
        QueryOutcome::Resolved(view(TaskState::ExecutorError, vec![])),
    ];
    let (used, got) = poll_to_terminal("task-2".to_string(), script);
    assert_eq!(used, 4);
    assert_eq!(got.expect("terminal").state, TaskState::ExecutorError);
}

#[test]
fn polling_exhausted_script_reports_no_terminal() {
    let script = vec![
        QueryOutcome::Resolved(view(TaskState::Initializing, vec![])),
        QueryOutcome::Failed,
        QueryOutcome::Resolved(view(TaskState::Paused, vec![])),
    ];
    let (used, got) = poll_to_terminal("task-3".to_string(), script);
    assert_eq!(used, 3);
    assert!(got.is_none());
}

#[test]
fn step_delays_after_each_executing_response() {
    let executing = QueryOutcome::Resolved(view(TaskState::Running, vec![]));
    let (state, action) = step(
        MachineState::Polling("task-4".to_string()),
        Event::Queried(executing),
    );
    match state {
        MachineState::Polling(id) => assert_eq!(id, "task-4"),
        _ => panic!("machine must keep polling"),
    }
    match action {
        Action::Delay { delay_ms, task_id } => {
            assert_eq!(delay_ms, POLL_DELAY_MS);
            assert_eq!(task_id, "task-4");
        }
        _ => panic!("machine must direct the standard delay"),
    }
}

#[test]
fn step_delays_after_failed_query() {
    let (state, action) = step(
        MachineState::Polling("task-5".to_string()),
        Event::Queried(QueryOutcome::Failed),
    );
    assert!(matches!(state, MachineState::Polling(_)));
    match action {
        Action::Delay { delay_ms, .. } => assert_eq!(delay_ms, POLL_DELAY_MS),
        _ => panic!("machine must direct the standard delay"),
    }
}

#[test]
fn step_captures_identifier_on_submission() {
    let (state, action) = step(
        MachineState::Submitting,
        Event::Submitted(SubmitOutcome::Accepted("task-6".to_string())),
    );
    match state {
        MachineState::Polling(id) => assert_eq!(id, "task-6"),
        _ => panic!("machine must enter polling"),
    }
    match action {
        Action::Query(id) => assert_eq!(id, "task-6"),
        _ => panic!("machine must query immediately after submission"),
    }
}

#[test]
fn step_rejected_submission_is_fatal() {
    let (state, action) = step(
        MachineState::Submitting,
        Event::Submitted(SubmitOutcome::Rejected),
    );
    match state {
        MachineState::Failed(e) => assert_eq!(e, RunError::SubmissionFailed),
        _ => panic!("machine must fail the run"),
    }
    assert!(matches!(action, Action::Abort));
}

#[test]
fn backend_name_is_tes() {
    let backend = Backend::new();
    assert_eq!(backend.default_name(), "tes");
}

#[test]
fn scripted_run_end_to_end() {
    let backend = Backend::new();
    let task = Task::new(
        Some("job".to_string()),
        None,
        vec![exec_step("img/a", &["true"]), exec_step("img/b", &["false"])],
    );
    let terminal = view(
        TaskState::Complete,
        vec![TesTaskLog {
            logs: vec![log(Some(0), Some("hello"), None), log(Some(1), None, Some("oops"))],
        }],
    );
    let script = vec![
        QueryOutcome::Resolved(view(TaskState::Running, vec![])),
        QueryOutcome::Resolved(terminal),
    ];
    let (payload, used, outcome) = backend.run_scripted(
        &task,
        SubmitOutcome::Accepted("task-7".to_string()),
        script,
    );
    assert_eq!(payload.executors.len(), 2);
    assert_eq!(payload.name.as_deref(), Some("job"));
    assert_eq!(used, 2);
    let result = outcome.expect("run ends").expect("aggregation succeeds");
    assert_eq!(result.len(), 2);
    assert_eq!(result.get(0).status.code(), 0);
    assert_eq!(result.get(0).stdout, b"hello".to_vec());
    assert_eq!(result.get(1).status.code(), 1);
    assert_eq!(result.get(1).stderr, b"oops".to_vec());
}

#[test]
fn scripted_run_rejected_submission() {
    let backend = Backend::new();
    let task = Task::new(None, None, vec![exec_step("img", &[])]);
    let (_payload, used, outcome) = backend.run_scripted(&task, SubmitOutcome::Rejected, vec![]);
    assert_eq!(used, 0);
    assert_eq!(outcome.expect("run ends").err(), Some(RunError::SubmissionFailed));
}

#[test]
fn scripted_run_empty_terminal_logs_fail() {
    let backend = Backend::new();
    let task = Task::new(None, None, vec![exec_step("img", &[])]);
    let script = vec![QueryOutcome::Resolved(view(TaskState::Canceled, vec![]))];
    let (_payload, used, outcome) = backend.run_scripted(
        &task,
        SubmitOutcome::Accepted("task-8".to_string()),
        script,
    );
    assert_eq!(used, 1);
    assert_eq!(outcome.expect("run ends").err(), Some(RunError::EmptyTaskLogs));
}

#[test]
fn concurrent_runs_share_nothing() {
    // Two interleaved runs driven through one machine step function: each
    // keeps its own identifier and ends on its own view.
    let mut first = MachineState::Polling("task-a".to_string());
    let mut second = MachineState::Polling("task-b".to_string());

    let (s, a) = step(
        first,
        Event::Queried(QueryOutcome::Resolved(view(TaskState::Running, vec![]))),
    );
    first = s;
    match a {
        Action::Delay { task_id, .. } => assert_eq!(task_id, "task-a"),
        _ => panic!("first run must delay"),
    }

    let terminal_b = view(
        TaskState::Complete,
        vec![TesTaskLog { logs: vec![log(Some(0), Some("b"), None)] }],
    );
    let (s, _a) = step(second, Event::Queried(QueryOutcome::Resolved(terminal_b)));
    second = s;

    let terminal_a = view(
        TaskState::ExecutorError,
        vec![TesTaskLog { logs: vec![log(Some(9), None, Some("a"))] }],
    );
    let (s, _a) = step(first, Event::Queried(QueryOutcome::Resolved(terminal_a)));
    first = s;

    match second {
        MachineState::Done(v) => {
            assert_eq!(v.state, TaskState::Complete);
            let result = aggregate(&v.logs).expect("aggregation succeeds");
            assert_eq!(result.len(), 1);
            assert_eq!(result.first().stdout, b"b".to_vec());
        }
        _ => panic!("second run must be done"),
    }
    match first {
        MachineState::Done(v) => {
            assert_eq!(v.state, TaskState::ExecutorError);
            let result = aggregate(&v.logs).expect("aggregation succeeds");
            assert_eq!(result.len(), 1);
            assert_eq!(result.first().status.code(), 9);
        }
        _ => panic!("first run must be done"),
    }
}
