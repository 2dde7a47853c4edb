//! A small workflow engine: a script declares steps and outcome-labelled edges; the
//! engine builds a handle per step and walks the graph from its entry node, choosing
//! each next step by the outcome of the last one.

pub mod codec;
pub mod executor;
pub mod flow;
pub mod params;
pub mod script;
pub mod step;
pub mod task;
pub mod text;
