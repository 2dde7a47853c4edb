use flow_engine::flow::StepParser;
use flow_engine::task::{ExecutionResult, Task};

fn node(p: &StepParser, id: &str) -> usize {
    p.tf.nodes.iter().position(|n| n == id).expect("node exists")
}

#[test]
fn nodes_follow_first_declaration_and_last_declaration_wins() {
    let p = StepParser::from_text(
        "A[\"name: head, type: control\"]\nB[\"name: sleep, type: control, para: {ms:'1'}\"]\nA[\"name: end, type: control\"]",
    );
    assert_eq!(p.tf.nodes, vec!["A".to_string(), "B".to_string()]);
    assert!(matches!(p.td[0], Task::End(_)));
    assert!(matches!(p.td[1], Task::Sleep(_)));
}

#[test]
fn edges_to_unknown_steps_are_dropped() {
    let p = StepParser::from_text("A[\"name: head, type: control\"]\nB[\"name: end, type: control\"]\nA -->|success| B\nA -->|fail| Z\nY -->|success| B");
    assert_eq!(p.tf.edges.len(), 1);
    assert_eq!((p.tf.edges[0].from, p.tf.edges[0].to), (0, 1));
    assert_eq!(p.tf.edges[0].label, "success");
}

#[test]
fn routes_by_outcome() {
    let p = StepParser::from_text(
        "A[\"name: head, type: control\"]\nB[\"name: end, type: control\"]\nC[\"name: end, type: control\"]\nD[\"name: end, type: control\"]\nA -->|success| B\nA -->|fail| C\nA -->|decorate| D",
    );
    let a = node(&p, "A");
    assert_eq!(p.tf.route(a, ExecutionResult::Success), Some(node(&p, "B")));
    assert_eq!(p.tf.route(a, ExecutionResult::Failure), Some(node(&p, "C")));
    assert_eq!(p.tf.route(a, ExecutionResult::Decorate), Some(node(&p, "D")));
    assert_eq!(p.tf.route(node(&p, "B"), ExecutionResult::Success), None);
}

#[test]
fn always_edge_takes_precedence() {
    let p = StepParser::from_text(
        "A[\"name: head, type: control\"]\nB[\"name: end, type: control\"]\nC[\"name: end, type: control\"]\nA -->|success| B\nA -->|always| C\nA -->|fail| B",
    );
    let a = node(&p, "A");
    let c = node(&p, "C");
    assert_eq!(p.tf.route(a, ExecutionResult::Success), Some(c));
    assert_eq!(p.tf.route(a, ExecutionResult::Failure), Some(c));
    assert_eq!(p.tf.route(a, ExecutionResult::Decorate), Some(c));
}

#[test]
fn routing_is_the_same_on_every_call() {
    let text = "A[\"name: head, type: control\"]\nB[\"name: end, type: control\"]\nC[\"name: end, type: control\"]\nA -->|success| B\nA -->|fail| C";
    let first = StepParser::from_text(text);
    let a = node(&first, "A");
    for _ in 0..5 {
        let again = StepParser::from_text(text);
        for o in [ExecutionResult::Success, ExecutionResult::Failure, ExecutionResult::Decorate] {
            assert_eq!(again.tf.route(a, o), first.tf.route(a, o));
        }
    }
}

#[test]
fn two_success_edges_pick_the_first_declared() {
    let text = "A[\"name: head, type: control\"]\nB[\"name: end, type: control\"]\nC[\"name: end, type: control\"]\nA -->|success| C\nA -->|success| B";
    for _ in 0..5 {
        let p = StepParser::from_text(text);
        assert_eq!(p.tf.route(node(&p, "A"), ExecutionResult::Success), Some(node(&p, "C")));
    }
}

#[test]
fn single_entry_node_is_found_wherever_declared() {
    let p = StepParser::from_text(
        "B[\"name: end, type: control\"]\nC[\"name: sleep, type: control\"]\nA[\"name: head, type: control\"]\nA -->|success| C\nC -->|success| B",
    );
    assert_eq!(p.tf.entry(), Some(node(&p, "A")));
}

#[test]
fn several_entry_candidates_pick_the_first_declared() {
    let p = StepParser::from_text("X[\"name: head, type: control\"]\nY[\"name: head, type: control\"]\nZ[\"name: end, type: control\"]\nY -->|success| Z");
    assert_eq!(p.tf.entry(), Some(node(&p, "X")));
}

#[test]
fn no_entry_candidate_gives_none() {
    let p = StepParser::from_text("X[\"name: head, type: control\"]\nY[\"name: end, type: control\"]\nX -->|success| Y\nY -->|success| X");
    assert_eq!(p.tf.entry(), None);
    let empty = StepParser::from_text("");
    assert_eq!(empty.tf.entry(), None);
}
