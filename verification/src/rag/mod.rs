//! Retrieval-augmented generation: reading entities and relationships out
//! of text and recording them in the knowledge graph.

pub mod graph_update;
pub mod relationships;
pub mod entities;
pub mod fixed;
