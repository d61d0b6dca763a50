//! Temporal knowledge graph: bi-temporal ranges, a temporal index, consistency
//! checking and query construction for the storage backends.

pub mod api;
pub mod aws;
pub mod error;
pub mod graph;
pub mod hybrid;
pub mod json;
pub mod mcp;
pub mod rag;
pub mod retries;
pub mod memory;
pub mod seqs;
pub mod temporal;
pub mod text;
pub mod time;
pub mod types;

use vstd::prelude::*;

verus! {

/// Version of the library.
pub const VERSION: &'static str = "0.1.0";

} // verus!
