//! A memory that keeps nothing, for tests.

use vstd::prelude::*;
use crate::error::Error;
use crate::json::JsonValue;
use crate::types::{EntityType, TemporalRange};

verus! {

/// A memory that keeps nothing: stores are accepted and dropped, searches
/// find nothing.  It works with entries of any type `E`; a similarity search
/// takes no query vector here, since that vector is of floating-point numbers
/// and this memory reads none of it.
#[derive(Debug, Clone, Copy)]
pub struct MockMemory {}

impl MockMemory {
    /// The empty memory.
    pub fn new() -> (m: MockMemory) {
        MockMemory {}
    }

    /// Accepts an entry and drops it.
    pub fn store<E>(&self, entry: E) -> (r: Result<(), Error>)
        ensures
            r is Ok,
    {
        Ok(())
    }

    /// Accepts entries and drops them.
    pub fn store_bulk<E>(&self, entries: Vec<E>) -> (r: Result<(), Error>)
        ensures
            r is Ok,
    {
        Ok(())
    }

    /// Finds no similar entries.
    pub fn search_similar<E>(&self, k: usize, filter: Option<JsonValue>) -> (r: Result<Vec<E>, Error>)
        ensures
            r matches Ok(v) && v@.len() == 0,
    {
        Ok(Vec::new())
    }

    /// Finds no entries of a node type.
    pub fn get_by_node_type<E>(&self, node_type: EntityType, limit: usize) -> (r: Result<Vec<E>, Error>)
        ensures
            r matches Ok(v) && v@.len() == 0,
    {
        Ok(Vec::new())
    }

    /// Finds no entries within a range.
    pub fn get_by_time_range<E>(&self, range: TemporalRange, limit: usize) -> (r: Result<Vec<E>, Error>)
        ensures
            r matches Ok(v) && v@.len() == 0,
    {
        Ok(Vec::new())
    }

    /// Finds no entries about a node.
    pub fn get_for_node<E>(&self, node_id: u128, limit: usize) -> (r: Result<Vec<E>, Error>)
        ensures
            r matches Ok(v) && v@.len() == 0,
    {
        Ok(Vec::new())
    }

    /// Finds no entries about an edge.
    pub fn get_for_edge<E>(&self, source_id: u128, target_id: u128, limit: usize) -> (r: Result<Vec<E>, Error>)
        ensures
            r matches Ok(v) && v@.len() == 0,
    {
        Ok(Vec::new())
    }
}

} // verus!
