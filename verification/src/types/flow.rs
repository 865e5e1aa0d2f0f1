//! Types for automation flows.

use vstd::prelude::*;

verus! {

#[derive(Clone, Copy, Debug, PartialEq, Eq, Structural)]
pub enum FlowStatus {
    Active,
    Inactive,
    Draft,
}

#[derive(Clone, Copy, Debug, PartialEq, Eq, Structural)]
pub enum FlowExecutionStatus {
    Running,
    Waiting,
    Completed,
    Failed,
    Cancelled,
}

/// A directed edge of a flow graph.
#[derive(Clone, Debug)]
pub struct FlowEdge {
    pub id: String,
    pub source: String,
    pub target: String,
    pub source_handle: Option<String>,
    pub target_handle: Option<String>,
    pub label: Option<String>,
    pub condition: Option<String>,
}

} // verus!
