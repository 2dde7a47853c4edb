use flow_engine::script::{parse_edges, parse_steps, EdgeRecord, StepRecord};
use flow_engine::text::chars_of;

fn steps(text: &str) -> Vec<(String, String, String, String)> {
    parse_steps(&chars_of(text))
        .into_iter()
        .map(|s: StepRecord| (s.id, s.kind, s.category, s.para))
        .collect()
}

fn edges(text: &str) -> Vec<(String, String, String)> {
    parse_edges(&chars_of(text))
        .into_iter()
        .map(|e: EdgeRecord| (e.source, e.label, e.target))
        .collect()
}

fn s(a: &str, b: &str, c: &str, d: &str) -> (String, String, String, String) {
    (a.to_string(), b.to_string(), c.to_string(), d.to_string())
}

fn e(a: &str, b: &str, c: &str) -> (String, String, String) {
    (a.to_string(), b.to_string(), c.to_string())
}

#[test]
fn reads_step_without_parameters() {
    assert_eq!(steps("A[\"name: head, type: control\"]"), vec![s("A", "head", "control", "")]);
}

#[test]
fn reads_step_with_parameters() {
    assert_eq!(
        steps("B[\"name: sleep, type: control, para: {ms:'5'}\"]"),
        vec![s("B", "sleep", "control", "{ms:'5'}")]
    );
    assert_eq!(
        steps("x1[\"name:open_web,type:operate,para:{url:'a.org'} \"]"),
        vec![s("x1", "open_web", "operate", "{url:'a.org'}")]
    );
}

#[test]
fn kind_may_hold_spaces() {
    assert_eq!(steps("N[\"name: press button , type: operate\"]"), vec![s("N", "press button ", "operate", "")]);
}

#[test]
fn unmatched_text_is_skipped() {
    let text = "flowchart TD\n  junk [\"name: , type: x\"]\n  A[\"name: head, type: control\"]\n  B[\"name: end type: control\"]\n  C[\"name: end, type: control\"]";
    assert_eq!(steps(text), vec![s("A", "head", "control", ""), s("C", "end", "control", "")]);
}

#[test]
fn reads_plain_edges() {
    let text = "A -->|success| B\nB-->|fail|C\nC -->| always |D";
    assert_eq!(edges(text), vec![e("A", "success", "B"), e("B", "fail", "C"), e("C", "always", "D")]);
}

#[test]
fn reads_chained_edges_with_declarations() {
    let text = "A[\"name: head, type: control\"] --> |always| B[\"name: sleep, type: control, para: {ms:'5'}\"] --> |success| C[\"name: end, type: control\"]";
    assert_eq!(edges(text), vec![e("A", "always", "B"), e("B", "success", "C")]);
    assert_eq!(
        steps(text),
        vec![
            s("A", "head", "control", ""),
            s("B", "sleep", "control", "{ms:'5'}"),
            s("C", "end", "control", ""),
        ]
    );
}

#[test]
fn malformed_edges_are_skipped() {
    assert_eq!(edges("A --> B\nA -->|| B\nA -->|x|\n-->|x| B"), vec![]);
}
