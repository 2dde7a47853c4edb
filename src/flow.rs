//! The flow graph, the step registry beside it, and the routing rules.

use vstd::prelude::*;

use crate::script::{EdgeDecl, StepDecl, edges_from, parse_edges, parse_steps, steps_from, edge_views, step_views};
use crate::text::chars_of;
use crate::codec::{EngineError, decode_script, script_text, base64_decoding};
use crate::task::{ExecutionResult, Task, builds, make_task};

verus! {

/// An edge of the flow: from one node to another, under an outcome label.
pub struct FlowEdge {
    pub from: usize,
    pub to: usize,
    pub label: String,
}

/// The flow graph: node ids in order of first declaration, and edges in order of
/// declaration.
pub struct FlowGraph {
    pub nodes: Vec<String>,
    pub edges: Vec<FlowEdge>,
}

pub open spec fn edge_triple(e: FlowEdge) -> (int, int, Seq<char>) {
    (e.from as int, e.to as int, e.label@)
}

impl FlowGraph {
    pub open spec fn node_view(self) -> Seq<Seq<char>> {
        self.nodes@.map_values(|s: String| s@)
    }

    pub open spec fn edge_view(self) -> Seq<(int, int, Seq<char>)> {
        self.edges@.map_values(|e: FlowEdge| edge_triple(e))
    }

    /// Node ids are unique and every edge joins two nodes.
    pub open spec fn wf(self) -> bool {
        &&& self.node_view().no_duplicates()
        &&& forall|j: int|
            0 <= j < self.edges@.len() ==> (#[trigger] self.edges@[j]).from < self.nodes@.len()
                && self.edges@[j].to < self.nodes@.len()
    }
}

// ---- routing ----

/// Whether some edge ends at node `n`.
pub open spec fn has_incoming(edges: Seq<(int, int, Seq<char>)>, n: int) -> bool {
    exists|j: int| 0 <= j < edges.len() && (#[trigger] edges[j]).1 == n
}

/// The first node at or after `k` that no edge ends at.
pub open spec fn entry_from(count: int, edges: Seq<(int, int, Seq<char>)>, k: int) -> Option<int>
    decreases count - k,
{
    if 0 <= k < count {
        if !has_incoming(edges, k) {
            Some(k)
        } else {
            entry_from(count, edges, k + 1)
        }
    } else {
        None
    }
}

/// Where a run starts: the first declared node without incoming edges; none when
/// every node has one.
pub open spec fn entry_node(count: int, edges: Seq<(int, int, Seq<char>)>) -> Option<int> {
    entry_from(count, edges, 0)
}

/// The edge label that an outcome follows.
pub open spec fn outcome_label(o: ExecutionResult) -> Seq<char> {
    match o {
        ExecutionResult::Success => "success"@,
        ExecutionResult::Failure => "fail"@,
        ExecutionResult::Decorate => "decorate"@,
    }
}

/// Whether an edge with this label leaves node `n`.
pub open spec fn labeled_from(edges: Seq<(int, int, Seq<char>)>, n: int, label: Seq<char>) -> bool {
    exists|j: int| 0 <= j < edges.len() && (#[trigger] edges[j]).0 == n && edges[j].2 == label
}

/// The label that the router follows from node `n`: `always` when such an edge leaves
/// it, else the label of the outcome.
pub open spec fn route_label(edges: Seq<(int, int, Seq<char>)>, n: int, o: ExecutionResult) -> Seq<char> {
    if labeled_from(edges, n, "always"@) {
        "always"@
    } else {
        outcome_label(o)
    }
}

/// The target of the first edge at or after index `k` that leaves `n` with `label`.
pub open spec fn first_target(
    edges: Seq<(int, int, Seq<char>)>,
    n: int,
    label: Seq<char>,
    k: int,
) -> Option<int>
    decreases edges.len() - k,
{
    if 0 <= k < edges.len() {
        if edges[k].0 == n && edges[k].2 == label {
            Some(edges[k].1)
        } else {
            first_target(edges, n, label, k + 1)
        }
    } else {
        None
    }
}

/// The node that runs after `n` when it reported `o`: the target of the first declared
/// edge that leaves `n` with the label the router follows; none ends the run.
pub open spec fn next_node(edges: Seq<(int, int, Seq<char>)>, n: int, o: ExecutionResult) -> Option<int> {
    first_target(edges, n, route_label(edges, n, o), 0)
}

proof fn lemma_first_target(edges: Seq<(int, int, Seq<char>)>, n: int, label: Seq<char>, k: int)
    requires
        0 <= k <= edges.len(),
    ensures
        match first_target(edges, n, label, k) {
            Some(m) => exists|j: int|
                k <= j < edges.len() && (#[trigger] edges[j]).0 == n && edges[j].2 == label
                    && edges[j].1 == m && forall|i: int|
                    k <= i < j ==> !((#[trigger] edges[i]).0 == n && edges[i].2 == label),
            None => forall|j: int|
                k <= j < edges.len() ==> !((#[trigger] edges[j]).0 == n && edges[j].2 == label),
        },
    decreases edges.len() - k,
{
    if k < edges.len() {
        lemma_first_target(edges, n, label, k + 1);
        if edges[k].0 == n && edges[k].2 == label {
            assert(forall|i: int| k <= i < k ==> !((#[trigger] edges[i]).0 == n && edges[i].2 == label));
        } else {
            match first_target(edges, n, label, k + 1) {
                Some(m) => {
                    let j = choose|j: int|
                        k + 1 <= j < edges.len() && (#[trigger] edges[j]).0 == n && edges[j].2 == label
                            && edges[j].1 == m && forall|i: int|
                            k + 1 <= i < j ==> !((#[trigger] edges[i]).0 == n && edges[i].2 == label);
                    assert(forall|i: int|
                        k <= i < j ==> !((#[trigger] edges[i]).0 == n && edges[i].2 == label));
                },
                None => {},
            }
        }
    }
}

/// The successor is fixed by the edge list alone: it is the target of the first
/// declared edge that leaves the node under the followed label, and there is none
/// exactly when no such edge exists. Two edges with one label from one node thus always
/// resolve to the earlier one.
pub proof fn lemma_route_is_first_match(edges: Seq<(int, int, Seq<char>)>, n: int, o: ExecutionResult)
    ensures
        match next_node(edges, n, o) {
            Some(m) => exists|j: int|
                0 <= j < edges.len() && (#[trigger] edges[j]).0 == n && edges[j].2 == route_label(
                    edges,
                    n,
                    o,
                ) && edges[j].1 == m && forall|i: int|
                    0 <= i < j ==> !((#[trigger] edges[i]).0 == n && edges[i].2 == route_label(
                        edges,
                        n,
                        o,
                    )),
            None => !labeled_from(edges, n, route_label(edges, n, o)),
        },
{
    lemma_first_target(edges, n, route_label(edges, n, o), 0);
}

/// When an `always` edge leaves a node, every outcome leads to the target of the first
/// such edge.
pub proof fn lemma_always_takes_precedence(edges: Seq<(int, int, Seq<char>)>, n: int, o: ExecutionResult)
    requires
        labeled_from(edges, n, "always"@),
    ensures
        next_node(edges, n, o) == first_target(edges, n, "always"@, 0),
        next_node(edges, n, o) is Some,
{
    lemma_first_target(edges, n, "always"@, 0);
}

/// A flow with exactly one node that no edge ends at starts at that node.
pub proof fn lemma_single_entry(count: int, edges: Seq<(int, int, Seq<char>)>, u: int)
    requires
        0 <= u < count,
        !has_incoming(edges, u),
        forall|v: int| 0 <= v < count && v != u ==> has_incoming(edges, v),
    ensures
        entry_node(count, edges) == Some(u),
{
    lemma_entry_reaches(count, edges, u, 0);
}

/// The entry node is the first declared node that no edge ends at: every earlier node
/// has an incoming edge. When every node has one there is no entry and nothing runs.
pub proof fn lemma_entry_is_first_candidate(count: int, edges: Seq<(int, int, Seq<char>)>)
    requires
        0 <= count,
    ensures
        match entry_node(count, edges) {
            Some(u) => 0 <= u < count && !has_incoming(edges, u) && forall|v: int|
                0 <= v < u ==> #[trigger] has_incoming(edges, v),
            None => forall|v: int| 0 <= v < count ==> #[trigger] has_incoming(edges, v),
        },
{
    lemma_entry_scan(count, edges, 0);
}

proof fn lemma_entry_scan(count: int, edges: Seq<(int, int, Seq<char>)>, k: int)
    requires
        0 <= k <= count,
    ensures
        match entry_from(count, edges, k) {
            Some(u) => k <= u < count && !has_incoming(edges, u) && forall|v: int|
                k <= v < u ==> #[trigger] has_incoming(edges, v),
            None => forall|v: int| k <= v < count ==> #[trigger] has_incoming(edges, v),
        },
    decreases count - k,
{
    if k < count && has_incoming(edges, k) {
        lemma_entry_scan(count, edges, k + 1);
    }
}

proof fn lemma_entry_reaches(count: int, edges: Seq<(int, int, Seq<char>)>, u: int, k: int)
    requires
        0 <= k <= u < count,
        !has_incoming(edges, u),
        forall|v: int| 0 <= v < count && v != u ==> has_incoming(edges, v),
    ensures
        entry_from(count, edges, k) == Some(u),
    decreases u - k,
{
    if k < u {
        lemma_entry_reaches(count, edges, u, k + 1);
    }
}

fn label_of(o: ExecutionResult) -> (r: String)
    ensures
        r@ == outcome_label(o),
{
    match o {
        ExecutionResult::Success => "success".to_owned(),
        ExecutionResult::Failure => "fail".to_owned(),
        ExecutionResult::Decorate => "decorate".to_owned(),
    }
}

impl FlowGraph {
    pub fn new() -> (r: FlowGraph)
        ensures
            r.wf(),
            r.nodes@.len() == 0,
            r.node_view() == Seq::<Seq<char>>::empty(),
            r.edge_view() == Seq::<(int, int, Seq<char>)>::empty(),
    {
        let r = FlowGraph { nodes: Vec::new(), edges: Vec::new() };
        assert(r.node_view() =~= Seq::<Seq<char>>::empty());
        assert(r.edge_view() =~= Seq::<(int, int, Seq<char>)>::empty());
        r
    }

    /// The position of a node id, if the graph has it.
    pub fn find_node(&self, id: &String) -> (r: Option<usize>)
        requires
            self.wf(),
        ensures
            match r {
                Some(k) => k < self.nodes@.len() && self.node_view()[k as int] == id@
                    && self.node_view().index_of(id@) == k,
                None => !self.node_view().contains(id@),
            },
    {
        let mut k: usize = 0;
        while k < self.nodes.len()
            invariant
                k <= self.nodes@.len(),
                self.wf(),
                forall|j: int| 0 <= j < k ==> self.node_view()[j] != id@,
            decreases self.nodes@.len() - k,
        {
            if self.nodes[k] == *id {
                assert(self.node_view()[k as int] == id@);
                assert(self.node_view().contains(id@));
                let ghost c = self.node_view().index_of(id@);
                assert(self.node_view()[c] == id@);
                return Some(k);
            }
            k += 1;
        }
        None
    }

    /// The target of the first edge that leaves `node` with `label`.
    fn first_edge(&self, node: usize, label: &String) -> (r: Option<usize>)
        requires
            self.wf(),
        ensures
            match r {
                Some(m) => first_target(self.edge_view(), node as int, label@, 0) == Some(
                    m as int,
                ) && m < self.nodes@.len(),
                None => first_target(self.edge_view(), node as int, label@, 0) is None,
            },
    {
        let ghost ev = self.edge_view();
        let mut k: usize = 0;
        while k < self.edges.len()
            invariant
                k <= self.edges@.len(),
                ev == self.edge_view(),
                self.wf(),
                first_target(ev, node as int, label@, 0) == first_target(ev, node as int, label@, k as int),
            decreases self.edges@.len() - k,
        {
            let e = &self.edges[k];
            assert(ev[k as int] == edge_triple(*e));
            if e.from == node && e.label == *label {
                return Some(e.to);
            }
            k += 1;
        }
        None
    }

    /// The node where a run starts: the first one that no edge ends at.
    pub fn entry(&self) -> (r: Option<usize>)
        requires
            self.wf(),
        ensures
            match r {
                Some(k) => entry_node(self.nodes@.len() as int, self.edge_view()) == Some(k as int)
                    && k < self.nodes@.len(),
                None => entry_node(self.nodes@.len() as int, self.edge_view()) is None,
            },
    {
        let ghost ev = self.edge_view();
        let ghost count = self.nodes@.len() as int;
        let mut k: usize = 0;
        while k < self.nodes.len()
            invariant
                k <= self.nodes@.len(),
                ev == self.edge_view(),
                count == self.nodes@.len(),
                entry_from(count, ev, 0) == entry_from(count, ev, k as int),
            decreases self.nodes@.len() - k,
        {
            let mut incoming = false;
            let mut j: usize = 0;
            while j < self.edges.len()
                invariant
                    j <= self.edges@.len(),
                    ev == self.edge_view(),
                    incoming <==> exists|i: int| 0 <= i < j && (#[trigger] ev[i]).1 == k,
                decreases self.edges@.len() - j,
            {
                assert(ev[j as int] == edge_triple(self.edges@[j as int]));
                if self.edges[j].to == k {
                    incoming = true;
                }
                j += 1;
            }
            if !incoming {
                return Some(k);
            }
            k += 1;
        }
        None
    }

    /// The node that runs after `node` reported `result`: an `always` edge wins over the
    /// outcome's own label, and among edges with the followed label the first declared
    /// one is taken.
    pub fn route(&self, node: usize, result: ExecutionResult) -> (r: Option<usize>)
        requires
            self.wf(),
        ensures
            match r {
                Some(m) => next_node(self.edge_view(), node as int, result) == Some(m as int)
                    && m < self.nodes@.len(),
                None => next_node(self.edge_view(), node as int, result) is None,
            },
    {
        let always = "always".to_owned();
        let via_always = self.first_edge(node, &always);
        proof {
            lemma_first_target(self.edge_view(), node as int, "always"@, 0);
        }
        match via_always {
            Some(m) => Some(m),
            None => {
                let label = label_of(result);
                self.first_edge(node, &label)
            },
        }
    }
}

// ---- registry ----

/// The node ids that a list of step declarations makes, in order of first declaration.
pub open spec fn node_ids(steps: Seq<StepDecl>) -> Seq<Seq<char>>
    decreases steps.len(),
{
    if steps.len() == 0 {
        Seq::empty()
    } else {
        let ids = node_ids(steps.drop_last());
        if ids.contains(steps.last().id) {
            ids
        } else {
            ids.push(steps.last().id)
        }
    }
}

/// The last declaration of a step id: a later declaration overrides an earlier one.
pub open spec fn last_decl(steps: Seq<StepDecl>, id: Seq<char>) -> StepDecl
    decreases steps.len(),
{
    if steps.len() == 0 {
        arbitrary()
    } else if steps.last().id == id {
        steps.last()
    } else {
        last_decl(steps.drop_last(), id)
    }
}

/// The edges of a flow: the declared edges whose two ends are declared steps, as
/// positions of the node list, in order of declaration.
pub open spec fn resolve(edges: Seq<EdgeDecl>, ids: Seq<Seq<char>>) -> Seq<(int, int, Seq<char>)>
    decreases edges.len(),
{
    if edges.len() == 0 {
        Seq::empty()
    } else {
        let rest = resolve(edges.drop_last(), ids);
        let e = edges.last();
        if ids.contains(e.source) && ids.contains(e.target) {
            rest.push((ids.index_of(e.source), ids.index_of(e.target), e.label))
        } else {
            rest
        }
    }
}

/// The step registry (one handle per step id, `td`) beside the flow graph (`tf`); the
/// handle of node `k` is `td[k]`.
pub struct StepParser {
    pub td: Vec<Task>,
    pub tf: FlowGraph,
}

impl StepParser {
    pub open spec fn wf(self) -> bool {
        &&& self.tf.wf()
        &&& self.td@.len() == self.tf.nodes@.len()
    }

    /// The handles and the graph that a script text defines.
    pub open spec fn holds_script(self, text: Seq<char>) -> bool {
        let steps = steps_from(text, 0);
        let ids = node_ids(steps);
        &&& self.wf()
        &&& self.tf.node_view() == ids
        &&& forall|k: int|
            0 <= k < ids.len() ==> builds(
                last_decl(steps, ids[k]).category,
                last_decl(steps, ids[k]).kind,
                last_decl(steps, ids[k]).para,
                #[trigger] self.td@[k],
            )
        &&& self.tf.edge_view() == resolve(edges_from(text, 0), ids)
    }

    pub fn new() -> (r: StepParser)
        ensures
            r.wf(),
            r.td@.len() == 0,
            r.tf.node_view() == Seq::<Seq<char>>::empty(),
            r.tf.edge_view() == Seq::<(int, int, Seq<char>)>::empty(),
    {
        StepParser { td: Vec::new(), tf: FlowGraph::new() }
    }

    /// Builds the handle of a step and files it under the step's id, replacing the
    /// handle that an earlier declaration of that id left; a new id becomes a node.
    pub fn register(&mut self, node_id: String, node_type: String, node_name: String, node_para: String)
        requires
            old(self).wf(),
        ensures
            final(self).wf(),
            final(self).tf.edge_view() == old(self).tf.edge_view(),
            final(self).tf.node_view() == if old(self).tf.node_view().contains(node_id@) {
                old(self).tf.node_view()
            } else {
                old(self).tf.node_view().push(node_id@)
            },
            forall|j: int|
                0 <= j < old(self).td@.len() && old(self).tf.node_view()[j] != node_id@
                    ==> final(self).td@[j] == old(self).td@[j],
            forall|j: int|
                0 <= j < final(self).td@.len() && final(self).tf.node_view()[j] == node_id@
                    ==> builds(node_type@, node_name@, node_para@, #[trigger] final(self).td@[j]),
    {
        let task = make_task(node_type.as_str(), node_name.as_str(), node_para.as_str());
        match self.tf.find_node(&node_id) {
            Some(k) => {
                self.td.set(k, task);
                assert forall|j: int|
                    0 <= j < self.td@.len() && self.tf.node_view()[j] == node_id@ implies j == k by {
                    assert(self.tf.node_view().no_duplicates());
                }
            },
            None => {
                let ghost before = self.tf.node_view();
                self.tf.nodes.push(node_id);
                self.td.push(task);
                assert(self.tf.node_view() =~= before.push(node_id@));
                assert(self.tf.node_view().no_duplicates());
                assert forall|j: int|
                    0 <= j < self.td@.len() && self.tf.node_view()[j] == node_id@ implies j
                        == before.len() by {
                    if j < before.len() {
                        assert(before[j] == node_id@);
                        assert(before.contains(node_id@));
                    }
                }
            },
        }
    }

    /// Adds the edge `source -->|label| target` when both ends are nodes; otherwise
    /// leaves the graph as it is.
    pub fn connect(&mut self, source: &String, label: String, target: &String)
        requires
            old(self).wf(),
        ensures
            final(self).wf(),
            final(self).td == old(self).td,
            final(self).tf.nodes == old(self).tf.nodes,
            final(self).tf.edge_view() == if old(self).tf.node_view().contains(source@)
                && old(self).tf.node_view().contains(target@) {
                old(self).tf.edge_view().push(
                    (
                        old(self).tf.node_view().index_of(source@),
                        old(self).tf.node_view().index_of(target@),
                        label@,
                    ),
                )
            } else {
                old(self).tf.edge_view()
            },
    {
        let from = self.tf.find_node(source);
        let to = self.tf.find_node(target);
        match (from, to) {
            (Some(a), Some(b)) => {
                let ghost before = self.tf.edge_view();
                self.tf.edges.push(FlowEdge { from: a, to: b, label });
                assert(self.tf.edge_view() =~= before.push((a as int, b as int, label@)));
            },
            _ => {},
        }
    }

    /// Reads a decoded script: every step declaration is registered in order, then
    /// every edge declaration is added.
    pub fn from_text(text: &str) -> (r: StepParser)
        ensures
            r.holds_script(text@),
    {
        let t = chars_of(text);
        let steps = parse_steps(&t);
        let edges = parse_edges(&t);
        let ghost sv = steps_from(text@, 0);
        let ghost ev = edges_from(text@, 0);
        let mut parser = StepParser::new();
        let mut i: usize = 0;
        assert(sv.take(0) =~= Seq::<StepDecl>::empty());
        while i < steps.len()
            invariant
                i <= steps@.len(),
                sv == step_views(steps@),
                parser.wf(),
                parser.tf.edge_view() == Seq::<(int, int, Seq<char>)>::empty(),
                parser.tf.node_view() == node_ids(sv.take(i as int)),
                forall|k: int|
                    0 <= k < parser.td@.len() ==> builds(
                        last_decl(sv.take(i as int), parser.tf.node_view()[k]).category,
                        last_decl(sv.take(i as int), parser.tf.node_view()[k]).kind,
                        last_decl(sv.take(i as int), parser.tf.node_view()[k]).para,
                        #[trigger] parser.td@[k],
                    ),
            decreases steps@.len() - i,
        {
            let s = &steps[i];
            let ghost d = sv[i as int];
            assert(d == s@);
            assert(sv.take(i + 1).drop_last() =~= sv.take(i as int));
            assert(sv.take(i + 1).last() == d);
            let ghost old_ids = parser.tf.node_view();
            let ghost old_td = parser.td@;
            parser.register(s.id.clone(), s.category.clone(), s.kind.clone(), s.para.clone());
            assert forall|k: int| 0 <= k < parser.td@.len() implies builds(
                last_decl(sv.take(i + 1), parser.tf.node_view()[k]).category,
                last_decl(sv.take(i + 1), parser.tf.node_view()[k]).kind,
                last_decl(sv.take(i + 1), parser.tf.node_view()[k]).para,
                #[trigger] parser.td@[k],
            ) by {
                if parser.tf.node_view()[k] != d.id {
                    assert(parser.tf.node_view().len() == parser.td@.len());
                    assert(old_ids.len() == old_td.len());
                    assert(k < old_td.len());
                    assert(parser.tf.node_view()[k] == old_ids[k]);
                }
            }
            i += 1;
        }
        assert(sv.take(steps@.len() as int) =~= sv);
        let ghost ids = node_ids(sv);
        let mut j: usize = 0;
        assert(ev.take(0) =~= Seq::<EdgeDecl>::empty());
        while j < edges.len()
            invariant
                j <= edges@.len(),
                ev == edge_views(edges@),
                parser.wf(),
                parser.tf.node_view() == ids,
                forall|k: int|
                    0 <= k < ids.len() ==> builds(
                        last_decl(sv, ids[k]).category,
                        last_decl(sv, ids[k]).kind,
                        last_decl(sv, ids[k]).para,
                        #[trigger] parser.td@[k],
                    ),
                parser.tf.edge_view() == resolve(ev.take(j as int), ids),
            decreases edges@.len() - j,
        {
            let e = &edges[j];
            assert(ev[j as int] == e@);
            assert(ev.take(j + 1).drop_last() =~= ev.take(j as int));
            assert(ev.take(j + 1).last() == e@);
            parser.connect(&e.source, e.label.clone(), &e.target);
            j += 1;
        }
        assert(ev.take(edges@.len() as int) =~= ev);
        parser
    }

    /// Reads a transport-encoded script; fails only when it cannot be decoded.
    pub fn parse_script(raw: &str) -> (r: Result<StepParser, EngineError>)
        ensures
            match r {
                Ok(p) => script_text(raw@) matches Some(text) && p.holds_script(text),
                Err(e) => script_text(raw@) is None && (e == EngineError::InvalidBase64 <==> base64_decoding(raw@) is None),
            },
    {
        match decode_script(raw) {
            Ok(text) => Ok(StepParser::from_text(text.as_str())),
            Err(e) => Err(e),
        }
    }
}

} // verus!
