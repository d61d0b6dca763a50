//! Request and response models of the HTTP interface.

use vstd::prelude::*;
use crate::time::DateTimeUtc;
use crate::types::{EntityType, Properties, TemporalRange};

verus! {

/// Request to store information in the graph.
#[derive(Debug, Clone)]
pub struct StoreRequest {
    /// Content to store.
    pub content: String,
}

/// Request to query knowledge from the graph.
#[derive(Debug, Clone)]
pub struct QueryRequest {
    /// Query text.
    pub query: String,
    /// Optional instant to query at.
    pub timestamp: Option<DateTimeUtc>,
    /// Optional time window in seconds.
    pub time_window: Option<i64>,
}

/// Request to create a new node.
#[derive(Debug)]
pub struct CreateNodeRequest {
    /// Entity type.
    pub entity_type: EntityType,
    /// Node label.
    pub label: String,
    /// Node properties.
    pub properties: Properties,
    /// Temporal validity range.
    pub valid_time: Option<TemporalRange>,
}

/// Request to create a new edge.
#[derive(Debug)]
pub struct CreateEdgeRequest {
    /// Source node identifier.
    pub source_id: u128,
    /// Target node identifier.
    pub target_id: u128,
    /// Edge label.
    pub label: String,
    /// Edge properties.
    pub properties: Properties,
    /// Temporal validity range.
    pub valid_time: Option<TemporalRange>,
}

/// Request to update a node.
#[derive(Debug)]
pub struct UpdateNodeRequest {
    /// Node label.
    pub label: Option<String>,
    /// Node properties to update.
    pub properties: Option<Properties>,
    /// Valid time range.
    pub valid_time: Option<TemporalRange>,
}

/// Request to update an edge.
#[derive(Debug)]
pub struct UpdateEdgeRequest {
    /// Edge label.
    pub label: Option<String>,
    /// Edge properties to update.
    pub properties: Option<Properties>,
    /// Valid time range.
    pub valid_time: Option<TemporalRange>,
}

/// Request for batch node creation.
#[derive(Debug)]
pub struct BatchCreateNodesRequest {
    /// Nodes to create.
    pub nodes: Vec<CreateNodeRequest>,
}

/// Request for batch edge creation.
#[derive(Debug)]
pub struct BatchCreateEdgesRequest {
    /// Edges to create.
    pub edges: Vec<CreateEdgeRequest>,
}

/// Response for batch operations.
#[derive(Debug, Clone)]
pub struct BatchOperationResponse {
    /// Number of successful operations.
    pub success_count: usize,
    /// Failed operations with their error messages.
    pub failures: Vec<BatchOperationError>,
}

/// Error details for batch operations.
#[derive(Debug, Clone)]
pub struct BatchOperationError {
    /// Index of the failed operation.
    pub index: usize,
    /// Error message.
    pub error: String,
}

/// API version information.
#[derive(Debug, Clone)]
pub struct VersionInfo {
    /// API version.
    pub version: String,
    /// Build instant.
    pub build_timestamp: DateTimeUtc,
    /// Git commit hash.
    pub commit_hash: String,
}

/// Health check response.
#[derive(Debug, Clone)]
pub struct HealthCheckResponse {
    /// Status of the service.
    pub status: String,
    /// Version.
    pub version: String,
    /// Uptime in seconds.
    pub uptime: u64,
    /// Component health statuses.
    pub components: Vec<ComponentHealth>,
}

/// Health status of a system component.
#[derive(Debug, Clone)]
pub struct ComponentHealth {
    /// Component name.
    pub name: String,
    /// Component status.
    pub status: ComponentStatus,
    /// Additional details.
    pub details: Option<String>,
}

/// Health of a component.
#[derive(Debug, Clone, Copy, PartialEq, Eq, Structural)]
pub enum ComponentStatus {
    Healthy,
    Degraded,
    Unhealthy,
}

} // verus!
