use std::time::{Duration, Instant};

use flow_engine::codec::{encode_script, EngineError};
use flow_engine::executor::Executor;
use flow_engine::step::{Action, Progress, Report};
use flow_engine::task::ExecutionResult;

/// Runs a script to its end. Pauses are reported as done (their lengths are returned),
/// browser work as failed.
fn drive(ex: &mut Executor) -> Vec<u64> {
    let mut pauses = Vec::new();
    while let Some(p) = ex.begin_step() {
        if let Progress::Perform(action) = p {
            let report = match action {
                Action::Sleep(ms) => {
                    pauses.push(ms);
                    Report::Completed
                }
                Action::Wait(secs) => {
                    pauses.push(secs);
                    Report::Completed
                }
                _ => Report::Failed,
            };
            ex.finish_step(report);
        }
    }
    pauses
}

fn trail(ex: &Executor) -> Vec<(String, ExecutionResult)> {
    ex.trail.clone()
}

fn t(id: &str, o: ExecutionResult) -> (String, ExecutionResult) {
    (id.to_string(), o)
}

#[test]
fn head_sleep_end_runs_in_order() {
    let text = "A[\"name: head, type: control\"] --> |always| B[\"name: sleep, type: control, para: {ms:'5'}\"] --> |success| C[\"name: end, type: control\"]";
    let mut ex = Executor::new("e1", &encode_script(text)).ok().expect("script decodes");
    assert_eq!(ex.ws.id, "e1-ws01");
    assert_eq!(drive(&mut ex), vec![5]);
    assert_eq!(
        trail(&ex),
        vec![
            t("A", ExecutionResult::Success),
            t("B", ExecutionResult::Success),
            t("C", ExecutionResult::Success),
        ]
    );
    // The end step clears the workspace it leaves behind.
    assert!(ex.ws.execution_log.is_empty());
    assert!(ex.ws.variables.is_empty());
    assert!(ex.queue.is_none());
}

#[test]
fn open_web_without_session_fails_and_stops() {
    let text = "H[\"name: head, type: control\"] -->|success| W[\"name: open_web, type: operate\"]";
    let mut ex = Executor::new("e2", &encode_script(text)).ok().expect("script decodes");
    drive(&mut ex);
    assert_eq!(trail(&ex), vec![t("H", ExecutionResult::Success), t("W", ExecutionResult::Failure)]);
    assert_eq!(ex.ws.execution_log, vec!["run head".to_string(), "run open web".to_string()]);
}

#[test]
fn open_web_failure_follows_fail_edge() {
    let text = "H[\"name: head, type: control\"] -->|success| W[\"name: open_web, type: operate\"] -->|fail| E[\"name: concurrent, type: decorate\"]";
    let mut ex = Executor::new("e3", &encode_script(text)).ok().expect("script decodes");
    drive(&mut ex);
    assert_eq!(
        trail(&ex),
        vec![
            t("H", ExecutionResult::Success),
            t("W", ExecutionResult::Failure),
            t("E", ExecutionResult::Success),
        ]
    );
}

#[test]
fn invalid_cron_fails_without_blocking() {
    let text = "T[\"name: timing, type: control, para: {cron:'not-a-cron'}\"]";
    let mut ex = Executor::new("e4", &encode_script(text)).ok().expect("script decodes");
    let start = Instant::now();
    match ex.begin_step() {
        Some(Progress::Done(o)) => assert_eq!(o, ExecutionResult::Failure),
        _ => panic!("an invalid cron expression must fail at once"),
    }
    assert!(start.elapsed() < Duration::from_secs(1));
    assert_eq!(
        ex.ws.execution_log,
        vec!["run timing: not-a-cron".to_string(), "invalid cron expression".to_string()]
    );
    assert!(ex.begin_step().is_none());
}

#[test]
fn valid_cron_asks_for_a_short_wait() {
    let text = "T[\"name: timing, type: control\"]";
    let mut ex = Executor::new("e5", &encode_script(text)).ok().expect("script decodes");
    match ex.begin_step() {
        Some(Progress::Perform(Action::Wait(secs))) => assert!(secs <= 1),
        _ => panic!("the every-second schedule must ask for a wait"),
    }
    assert_eq!(ex.finish_step(Report::Completed), ExecutionResult::Success);
}

#[test]
fn duplicate_success_edges_take_the_first_declared_every_run() {
    let text = "A[\"name: head, type: control\"]\nB[\"name: delay, type: decorate\"]\nC[\"name: concurrent, type: decorate\"]\nA -->|success| B\nA -->|success| C";
    for _ in 0..5 {
        let mut ex = Executor::new("e6", &encode_script(text)).ok().expect("script decodes");
        drive(&mut ex);
        assert_eq!(trail(&ex), vec![t("A", ExecutionResult::Success), t("B", ExecutionResult::Success)]);
    }
}

#[test]
fn run_starts_at_the_only_entry_node() {
    let text = "B[\"name: end, type: control\"]\nA[\"name: head, type: control\"]\nA -->|success| B";
    let mut ex = Executor::new("e7", &encode_script(text)).ok().expect("script decodes");
    assert_eq!(ex.queue, Some(1));
    drive(&mut ex);
    assert_eq!(trail(&ex), vec![t("A", ExecutionResult::Success), t("B", ExecutionResult::Success)]);
}

#[test]
fn unknown_step_logs_its_identity() {
    let text = "S[\"name: scroll, type: operate\"]";
    let mut ex = Executor::new("e8", &encode_script(text)).ok().expect("script decodes");
    drive(&mut ex);
    assert_eq!(ex.ws.execution_log, vec!["run base task, name: scroll, type: operate".to_string()]);
    assert_eq!(trail(&ex), vec![t("S", ExecutionResult::Success)]);
}

#[test]
fn undecodable_script_is_an_error() {
    assert!(matches!(Executor::new("e9", "%%%"), Err(EngineError::InvalidBase64)));
    assert!(matches!(Executor::new("e9", "/w=="), Err(EngineError::InvalidUtf8)));
}

#[test]
fn filled_element_is_remembered() {
    let text = "I[\"name: init_web, type: operate\"] -->|fail| F[\"name: input_string, type: operate, para: {component:'q'}\"]";
    let mut ex = Executor::new("e10", &encode_script(text)).ok().expect("script decodes");
    match ex.begin_step() {
        Some(Progress::Perform(Action::OpenSession(url))) => assert_eq!(url, "http://localhost:9515"),
        _ => panic!("init_web must ask for a session"),
    }
    assert_eq!(ex.finish_step(Report::Failed), ExecutionResult::Failure);
    // Without a session the input step fails before asking for outside work.
    match ex.begin_step() {
        Some(Progress::Done(o)) => assert_eq!(o, ExecutionResult::Failure),
        _ => panic!("input_string without a session must fail"),
    }
    assert_eq!(ex.ws.get_variable("last_option_component"), None);
}
