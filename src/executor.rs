//! One run of a script as a state machine: the executor starts a step, the caller
//! performs the outside work the step asks for, and the executor routes on the outcome.

use vstd::prelude::*;

use crate::codec::{EngineError, script_text, base64_decoding};
use crate::flow::{StepParser, entry_node, next_node};
use crate::step::{Progress, Report, begins, finishes};
use crate::task::{ExecutionResult, Workspace};

verus! {

/// A node position as the routing model sees it.
pub open spec fn node_of(n: Option<usize>) -> Option<int> {
    match n {
        Some(k) => Some(k as int),
        None => None,
    }
}

/// One run of a script: its workspace, its steps and graph, the node that runs next,
/// and the node whose outside work is awaited. The walk follows one path: at most one
/// node is ever queued.
pub struct Executor {
    pub ws: Workspace,
    pub parser: StepParser,
    pub queue: Option<usize>,
    pub pending: Option<usize>,
    /// The steps that have finished, with their outcomes, in order.
    pub trail: Vec<(String, ExecutionResult)>,
}

impl Executor {
    pub open spec fn wf(self) -> bool {
        &&& self.parser.wf()
        &&& self.queue matches Some(n) ==> n < self.parser.tf.nodes@.len()
        &&& self.pending matches Some(n) ==> n < self.parser.tf.nodes@.len()
        &&& self.pending is Some ==> self.queue is None
    }

    pub open spec fn trail_view(self) -> Seq<(Seq<char>, ExecutionResult)> {
        self.trail@.map_values(|p: (String, ExecutionResult)| (p.0@, p.1))
    }

    /// Reads the script and queues its entry node. The workspace is named `ID-ws01`.
    pub fn new(id: &str, script: &str) -> (r: Result<Executor, EngineError>)
        ensures
            match r {
                Ok(e) => {
                    &&& script_text(script@) matches Some(text) && e.parser.holds_script(text)
                    &&& e.wf()
                    &&& node_of(e.queue) == entry_node(
                        e.parser.tf.nodes@.len() as int,
                        e.parser.tf.edge_view(),
                    )
                    &&& e.pending is None
                    &&& e.trail@.len() == 0
                    &&& e.ws@.id == id@ + "-ws01"@
                    &&& e.ws@.vars == Map::<Seq<char>, Seq<char>>::empty()
                    &&& e.ws@.log == Seq::<Seq<char>>::empty()
                    &&& e.ws@.driver is None
                },
                Err(err) => script_text(script@) is None && (err == EngineError::InvalidBase64
                    <==> base64_decoding(script@) is None),
            },
    {
        let parser = match StepParser::parse_script(script) {
            Ok(p) => p,
            Err(e) => return Err(e),
        };
        let mut name = id.to_owned();
        name.append("-ws01");
        let queue = parser.tf.entry();
        Ok(Executor { ws: Workspace::new(name.as_str()), parser, queue, pending: None, trail: Vec::new() })
    }

    fn record(&mut self, node: usize, outcome: ExecutionResult)
        requires
            old(self).wf(),
            node < old(self).parser.tf.nodes@.len(),
            old(self).pending is None,
        ensures
            final(self).wf(),
            final(self).ws == old(self).ws,
            final(self).parser == old(self).parser,
            final(self).pending is None,
            node_of(final(self).queue) == next_node(
                old(self).parser.tf.edge_view(),
                node as int,
                outcome,
            ),
            final(self).trail_view() == old(self).trail_view().push(
                (old(self).parser.tf.node_view()[node as int], outcome),
            ),
    {
        let ghost before = self.trail_view();
        self.queue = self.parser.tf.route(node, outcome);
        let id = self.parser.tf.nodes[node].clone();
        self.trail.push((id, outcome));
        assert(self.trail_view() =~= before.push((self.parser.tf.node_view()[node as int], outcome)));
    }

    /// Starts the queued step. Gives `None` when nothing is queued (the run is over).
    /// A step that decides at once is routed at once; one that needs outside work
    /// waits for `finish_step`.
    pub fn begin_step(&mut self) -> (r: Option<Progress>)
        requires
            old(self).wf(),
            old(self).pending is None,
        ensures
            final(self).wf(),
            final(self).parser == old(self).parser,
            match old(self).queue {
                None => r is None && final(self).ws == old(self).ws && final(self).queue is None
                    && final(self).pending is None && final(self).trail == old(self).trail,
                Some(n) => r matches Some(p) && begins(
                    old(self).parser.td@[n as int],
                    old(self).ws@,
                    p,
                    final(self).ws@,
                ) && match p {
                    Progress::Done(o) => {
                        &&& final(self).pending is None
                        &&& node_of(final(self).queue) == next_node(
                            old(self).parser.tf.edge_view(),
                            n as int,
                            o,
                        )
                        &&& final(self).trail_view() == old(self).trail_view().push(
                            (old(self).parser.tf.node_view()[n as int], o),
                        )
                    },
                    Progress::Perform(_) => {
                        &&& final(self).pending == Some(n)
                        &&& final(self).queue is None
                        &&& final(self).trail == old(self).trail
                    },
                },
            },
    {
        let node = match self.queue {
            Some(n) => n,
            None => return None,
        };
        self.queue = None;
        let progress = self.parser.td[node].begin(&mut self.ws);
        match progress {
            Progress::Done(o) => {
                self.record(node, o);
                Some(Progress::Done(o))
            },
            Progress::Perform(action) => {
                self.pending = Some(node);
                Some(Progress::Perform(action))
            },
        }
    }

    /// Ends the step whose outside work was reported, and routes from it.
    pub fn finish_step(&mut self, report: Report) -> (r: ExecutionResult)
        requires
            old(self).wf(),
            old(self).pending is Some,
        ensures
            final(self).wf(),
            final(self).parser == old(self).parser,
            final(self).pending is None,
            finishes(
                old(self).parser.td@[old(self).pending->Some_0 as int],
                old(self).ws@,
                report,
                r,
                final(self).ws@,
            ),
            node_of(final(self).queue) == next_node(
                old(self).parser.tf.edge_view(),
                old(self).pending->Some_0 as int,
                r,
            ),
            final(self).trail_view() == old(self).trail_view().push(
                (old(self).parser.tf.node_view()[old(self).pending->Some_0 as int], r),
            ),
    {
        let node = match self.pending {
            Some(n) => n,
            None => 0,
        };
        self.pending = None;
        let outcome = self.parser.td[node].finish(&mut self.ws, report);
        self.record(node, outcome);
        outcome
    }
}

} // verus!
