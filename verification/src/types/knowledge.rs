//! Types for knowledge bases and their documents.

use vstd::prelude::*;

verus! {

#[derive(Clone, Copy, Debug, PartialEq, Eq, Structural)]
pub enum KnowledgeBaseStatus {
    Active,
    Processing,
    Error,
    Empty,
}

#[derive(Clone, Copy, Debug, PartialEq, Eq, Structural)]
pub enum DocumentStatus {
    Pending,
    Processing,
    Completed,
    Failed,
}

} // verus!
