//! Records as the store keeps them.
use vstd::prelude::*;

use crate::domain::ProcessedAgent;

verus! {

/// Identifier that the store gave a record when it first persisted it.
#[derive(Debug, Clone, Copy, PartialEq, Eq, Structural)]
pub struct ProcessedAgentId(pub i32);

impl ProcessedAgentId {
    pub fn get(&self) -> (r: i32)
        ensures
            r == self.0,
    {
        self.0
    }
}

/// A stored record with its identifier, when it has one.
#[derive(Debug, Clone, Copy, PartialEq, Eq, Structural)]
pub struct ProcessedAgentWithId {
    pub id: Option<ProcessedAgentId>,
    pub data: ProcessedAgent,
}

impl ProcessedAgentWithId {
    pub fn new(id: Option<ProcessedAgentId>, data: ProcessedAgent) -> (r: ProcessedAgentWithId)
        ensures
            r == (ProcessedAgentWithId { id, data }),
    {
        ProcessedAgentWithId { id, data }
    }
}

} // verus!
