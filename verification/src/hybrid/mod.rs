//! The parts of hybrid vector and graph retrieval that hold no vectors:
//! similarity metrics, traversal steps and paths, and embedding settings.

pub mod models;
pub mod query;

pub use query::SimilarityMetric;
