//! Graph operations: Gremlin queries for the graph store.

pub mod neighborhood;
pub mod gremlin;
pub mod query;
pub mod subgraph;

pub use crate::types::{Node, Edge, NodeId, EdgeId, TemporalRange, Properties, EntityType, Timestamp};

pub mod neptune;
