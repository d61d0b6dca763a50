//! Hierarchical subgraphs: episodes, entities and communities, each with its
//! own store, linked to a parent and to children.

use vstd::prelude::*;
use std::sync::Arc;
use crate::time::DateTimeUtc;
use crate::types::{TemporalRange, Timestamp};

verus! {

/// The level of a subgraph in the hierarchy.
#[derive(Clone, Copy, Debug, PartialEq, Eq, Structural)]
pub enum SubgraphType {
    /// Raw episode data.
    Episode,
    /// Semantic entity information.
    Entity,
    /// Community-level information.
    Community,
}

/// A subgraph of the hierarchy, kept in store `S`.
#[derive(Debug)]
pub struct Subgraph<S> {
    /// The level of the subgraph.
    pub subgraph_type: SubgraphType,
    /// The store that holds this subgraph.
    graph_store: Arc<S>,
    /// The parent subgraph, if any.
    parent: Option<Arc<Subgraph<S>>>,
    /// The child subgraphs.
    children: Vec<Arc<Subgraph<S>>>,
}

impl<S> Subgraph<S> {
    /// The level of this subgraph.
    pub closed spec fn level(&self) -> SubgraphType {
        self.subgraph_type
    }

    /// The store of this subgraph.
    pub closed spec fn store(&self) -> Arc<S> {
        self.graph_store
    }

    /// The parent of this subgraph.
    pub closed spec fn parent_of(&self) -> Option<Arc<Subgraph<S>>> {
        self.parent
    }

    /// The children of this subgraph, in the order they were added.
    pub closed spec fn children_of(&self) -> Seq<Arc<Subgraph<S>>> {
        self.children@
    }

    /// A subgraph without children.
    pub fn new(subgraph_type: SubgraphType, graph_store: Arc<S>, parent: Option<Arc<Subgraph<S>>>) -> (g:
        Subgraph<S>)
        ensures
            g.level() == subgraph_type,
            g.store() == graph_store,
            g.parent_of() == parent,
            g.children_of().len() == 0,
    {
        Subgraph { subgraph_type, graph_store, parent, children: Vec::new() }
    }

    /// Adds a child subgraph after the others.
    pub fn add_child(&mut self, child: Arc<Subgraph<S>>)
        ensures
            final(self).children_of() == old(self).children_of().push(child),
            final(self).level() == old(self).level(),
            final(self).store() == old(self).store(),
            final(self).parent_of() == old(self).parent_of(),
    {
        self.children.push(child);
    }

    /// The level of the subgraph.
    pub fn subgraph_type(&self) -> (r: &SubgraphType)
        ensures
            *r == self.level(),
    {
        &self.subgraph_type
    }

    /// The parent subgraph, if any.
    pub fn parent(&self) -> (r: Option<&Arc<Subgraph<S>>>)
        ensures
            match self.parent_of() {
                Some(p) => r matches Some(x) && *x == p,
                None => r is None,
            },
    {
        self.parent.as_ref()
    }

    /// The child subgraphs.
    pub fn children(&self) -> (r: &[Arc<Subgraph<S>>])
        ensures
            r@ == self.children_of(),
    {
        self.children.as_slice()
    }

    /// The store of this subgraph.
    pub fn graph_store(&self) -> (r: &Arc<S>)
        ensures
            *r == self.store(),
    {
        &self.graph_store
    }

    /// The stores that an addition to this subgraph reaches: its own, then
    /// its parent's, and so on up to the root.
    pub closed spec fn store_chain(&self) -> Seq<Arc<S>>
        decreases self,
    {
        match self.parent {
            Some(p) => seq![self.graph_store] + p.store_chain(),
            None => seq![self.graph_store],
        }
    }

    /// The stores that a node or an edge added to this subgraph is stored in,
    /// in order: this subgraph's store, then those its parent's addition
    /// reaches.
    pub fn addition_stores(&self) -> (r: Vec<Arc<S>>)
        ensures
            r@ == self.store_chain(),
            r@.len() >= 1,
            r@[0] == self.store(),
        decreases self,
    {
        let mut r: Vec<Arc<S>> = Vec::new();
        r.push(self.graph_store.clone());
        match &self.parent {
            Some(p) => {
                let rest = p.addition_stores();
                let mut i: usize = 0;
                while i < rest.len()
                    invariant
                        0 <= i <= rest@.len(),
                        r@ == seq![self.graph_store] + rest@.subrange(0, i as int),
                    decreases rest@.len() - i,
                {
                    r.push(rest[i].clone());
                    proof {
                        assert(rest@.subrange(0, i + 1) == rest@.subrange(0, i as int).push(rest@[i as int]));
                    }
                    i = i + 1;
                }
                proof {
                    assert(rest@.subrange(0, rest@.len() as int) == rest@);
                }
            },
            None => {},
        }
        r
    }
}

/// The valid time given to what is propagated at `timestamp`: from then on,
/// open-ended until the next update.
pub fn propagation_range(timestamp: DateTimeUtc) -> (r: TemporalRange)
    ensures
        r.start == Some(Timestamp(timestamp)),
        r.end is None,
{
    TemporalRange { start: Some(Timestamp(timestamp)), end: None }
}

} // verus!
