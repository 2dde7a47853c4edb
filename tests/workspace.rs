use flow_engine::step::{timing_plan, Progress, Report};
use flow_engine::task::{make_task, ExecutionResult, Workspace};

#[test]
fn variables_keep_the_last_value() {
    let mut ws = Workspace::new("w");
    assert_eq!(ws.get_variable("k"), None);
    ws.set_variable("k", "1");
    ws.set_variable("j", "x");
    ws.set_variable("k", "2");
    assert_eq!(ws.get_variable("k"), Some(&"2".to_string()));
    assert_eq!(ws.get_variable("j"), Some(&"x".to_string()));
    assert!(ws.get_web_driver().is_none());
}

#[test]
fn log_appends_in_order() {
    let mut ws = Workspace::new("w");
    ws.log("one");
    ws.log("two");
    assert_eq!(ws.execution_log, vec!["one".to_string(), "two".to_string()]);
}

#[test]
fn end_clears_variables_and_log() {
    let mut ws = Workspace::new("w");
    ws.set_variable("k", "v");
    ws.log("before");
    let end = make_task("control", "end", "");
    assert!(matches!(end.begin(&mut ws), Progress::Done(ExecutionResult::Success)));
    assert!(ws.execution_log.is_empty());
    assert_eq!(ws.get_variable("k"), None);
}

#[test]
fn submit_success_records_component() {
    let mut ws = Workspace::new("w");
    let summit = make_task("operate", "summit", "{component:'searchInput'}");
    assert_eq!(summit.finish(&mut ws, Report::Completed), ExecutionResult::Success);
    assert_eq!(ws.get_variable("last_option_component"), Some(&"searchInput".to_string()));
    assert_eq!(summit.finish(&mut ws, Report::Failed), ExecutionResult::Failure);
}

#[test]
fn decorators_only_log() {
    let mut ws = Workspace::new("w");
    let delay = make_task("decorate", "delay", "{front_time:'10'}");
    assert!(matches!(delay.begin(&mut ws), Progress::Done(ExecutionResult::Success)));
    let conc = make_task("decorate", "concurrent", "");
    assert!(matches!(conc.begin(&mut ws), Progress::Done(ExecutionResult::Success)));
    assert_eq!(ws.execution_log, vec!["run delay".to_string(), "run concurrent".to_string()]);
}

#[test]
fn timing_plan_waits_until_the_next_time() {
    assert_eq!(timing_plan(Some(1_000_060), 1_000_000), Some(60));
    assert_eq!(timing_plan(Some(1_000_000), 1_000_000), Some(0));
    assert_eq!(timing_plan(Some(5), 9), Some(0));
    assert_eq!(timing_plan(None, 9), None);
    assert_eq!(timing_plan(Some(i64::MAX), i64::MIN), Some(u64::MAX));
}
