//! Health of the services the API depends on.

use vstd::prelude::*;
pub use super::models::{ComponentHealth, ComponentStatus};
use crate::error::Error;
use crate::time::DateTimeUtc;
use crate::types::{Edge, EdgeId, EntityId, EntityType, Node, NodeId, TemporalRange};

verus! {

/// The component report: the key-value store healthy exactly when it
/// answered, and the graph store healthy.
pub fn component_report(dynamodb_answered: bool) -> (r: Vec<ComponentHealth>)
    ensures
        r@.len() == 2,
        r@[0].name@ == "dynamodb"@,
        r@[0].status == (if dynamodb_answered {
            ComponentStatus::Healthy
        } else {
            ComponentStatus::Unhealthy
        }),
        r@[0].details is None,
        r@[1].name@ == "neptune"@,
        r@[1].status == ComponentStatus::Healthy,
        r@[1].details is None,
{
    let dynamo_status = if dynamodb_answered {
        ComponentStatus::Healthy
    } else {
        ComponentStatus::Unhealthy
    };
    vec![
        ComponentHealth { name: String::from_str("dynamodb"), status: dynamo_status, details: None },
        ComponentHealth {
            name: String::from_str("neptune"),
            status: ComponentStatus::Healthy,
            details: None,
        },
    ]
}

/// A temporal graph that holds nothing: every query answers with no nodes or
/// edges.
#[derive(Debug, Clone, Copy)]
pub struct MockTemporalGraph {}

impl MockTemporalGraph {
    /// The empty graph.
    pub fn new() -> (g: MockTemporalGraph) {
        MockTemporalGraph {}
    }

    /// No nodes are valid at any instant.
    pub fn get_nodes_at(&self, timestamp: DateTimeUtc, node_type: Option<EntityType>) -> (r: Result<Vec<Node>, Error>)
        ensures
            r matches Ok(v) && v@.len() == 0,
    {
        Ok(Vec::new())
    }

    /// No edges are valid at any instant.
    pub fn get_edges_at(&self, timestamp: DateTimeUtc, source_id: Option<u128>, target_id: Option<u128>) -> (r:
        Result<Vec<Edge>, Error>)
        ensures
            r matches Ok(v) && v@.len() == 0,
    {
        Ok(Vec::new())
    }

    /// No nodes are valid within any span.
    pub fn get_nodes_between(&self, start: DateTimeUtc, end: DateTimeUtc, node_type: Option<EntityType>) -> (r:
        Result<Vec<Node>, Error>)
        ensures
            r matches Ok(v) && v@.len() == 0,
    {
        Ok(Vec::new())
    }

    /// No edges are valid within any span.
    pub fn get_edges_between(&self, start: DateTimeUtc, end: DateTimeUtc) -> (r: Result<Vec<Edge>, Error>)
        ensures
            r matches Ok(v) && v@.len() == 0,
    {
        Ok(Vec::new())
    }

    /// Accepts data for an entity and drops it.
    pub fn store<T>(&self, entity_id: EntityId, data: T, valid_time: TemporalRange) -> (r: Result<(), Error>)
        ensures
            r is Ok,
    {
        Ok(())
    }

    /// No node has versions.
    pub fn get_node_evolution(&self, node_id: NodeId, time_range: &TemporalRange) -> (r: Result<Vec<Node>, Error>)
        ensures
            r matches Ok(v) && v@.len() == 0,
    {
        Ok(Vec::new())
    }

    /// No edge has versions.
    pub fn get_edge_evolution(&self, edge_id: EdgeId, time_range: &TemporalRange) -> (r: Result<Vec<Edge>, Error>)
        ensures
            r matches Ok(v) && v@.len() == 0,
    {
        Ok(Vec::new())
    }
}

} // verus!
