//! Traversal steps and paths of hybrid queries, and the similarity metrics
//! they rank by.

use vstd::prelude::*;
use crate::error::Error;
use crate::json::{JsonValue, JsonModel, models_of, object1};
use crate::types::{EdgeId, EntityType, NodeId, entity_type_text};

verus! {

/// How two embeddings are compared.
#[derive(Clone, Copy, Debug, PartialEq, Eq, Structural)]
pub enum SimilarityMetric {
    /// Cosine similarity (dot product of normalized vectors).
    Cosine,
    /// Euclidean distance (L2 norm of difference).
    Euclidean,
    /// Dot product (unnormalized).
    DotProduct,
}

impl Default for SimilarityMetric {
    /// Cosine similarity.
    fn default() -> (m: SimilarityMetric)
        ensures
            m == SimilarityMetric::Cosine,
    {
        SimilarityMetric::Cosine
    }
}

/// A step of graph traversal.
#[derive(Debug)]
pub struct TraversalStep {
    /// Edge label to follow.
    pub edge_label: Option<String>,
    /// Direction of traversal.
    pub direction: TraversalDirection,
    /// Maximum depth for this step.
    pub max_depth: Option<usize>,
    /// Node types admitted at this step.
    pub node_type_filter: Option<Vec<EntityType>>,
    /// Whether to rank by vector similarity at this step.
    pub use_vector_similarity: bool,
    /// Properties required at this step.
    pub required_properties: Option<Vec<String>>,
}

/// Direction of graph traversal.
#[derive(Clone, Copy, Debug, PartialEq, Eq, Structural)]
pub enum TraversalDirection {
    /// Outgoing edges (from the current node to others).
    Out,
    /// Incoming edges (from others to the current node).
    In,
    /// Both directions.
    Both,
}

impl Default for TraversalDirection {
    /// Outgoing edges.
    fn default() -> (d: TraversalDirection)
        ensures
            d == TraversalDirection::Out,
    {
        TraversalDirection::Out
    }
}

/// The path by which traversal reached a node.
#[derive(Debug, Clone)]
pub struct TraversalPath {
    /// Nodes from the start to this node.
    pub node_ids: Vec<NodeId>,
    /// Edges from the start to this node.
    pub edge_ids: Vec<EdgeId>,
    /// Depth from the start node.
    pub depth: usize,
}

impl TraversalStep {
    /// A step along edges in `direction`, optionally with one label, ranked by
    /// vector similarity and with no other constraint.
    pub fn following(edge_label: Option<String>, direction: TraversalDirection) -> (s: TraversalStep)
        ensures
            s.edge_label == edge_label,
            s.direction == direction,
            s.max_depth is None,
            s.node_type_filter is None,
            s.use_vector_similarity,
            s.required_properties is None,
    {
        TraversalStep {
            edge_label,
            direction,
            max_depth: None,
            node_type_filter: None,
            use_vector_similarity: true,
            required_properties: None,
        }
    }
}

/// The path to a direct neighbour of the start node.
pub fn neighbour_path(start: NodeId, node: NodeId) -> (p: TraversalPath)
    ensures
        p.node_ids@ == seq![start, node],
        p.edge_ids@.len() == 0,
        p.depth == 1,
{
    TraversalPath { node_ids: vec![start, node], edge_ids: Vec::new(), depth: 1 }
}

/// Accepts a hybrid query that has something to start from: an embedding,
/// a text to embed, or a start node.
pub fn require_query_source(has_embedding: bool, has_text: bool, start_node: Option<NodeId>) -> (r: Result<
    (),
    Error,
>)
    ensures
        r is Ok <==> (has_embedding || has_text || start_node is Some),
        r matches Err(e) ==> (e matches Error::Generic(m) && m@
            == "Hybrid query must have either a query embedding, query text, or a start node ID"@),
{
    if !has_embedding && !has_text && start_node.is_none() {
        return Err(
            Error::Generic(
                String::from_str("Hybrid query must have either a query embedding, query text, or a start node ID"),
            ),
        );
    }
    Ok(())
}

/// The names of entity types, as JSON strings.
pub open spec fn type_names(ts: Seq<EntityType>) -> Seq<JsonModel> {
    ts.map_values(|t: EntityType| JsonModel::Str(entity_type_text(t@)))
}

/// The filter of the vector search: the node types asked for, when there
/// are any, otherwise the custom filter.
pub open spec fn search_filter(node_types: Option<Seq<EntityType>>, custom: Option<JsonModel>) -> Option<JsonModel> {
    match node_types {
        Some(ts) => Some(
            JsonModel::Object(
                seq![
                    ("filter"@, JsonModel::Object(
                        seq![("terms"@, JsonModel::Object(seq![("node_type"@, JsonModel::Array(type_names(ts)))]))],
                    )),
                ],
            ),
        ),
        None => custom,
    }
}

/// The filter of the vector search of a hybrid query.
pub fn vector_search_filter(node_types: &Option<Vec<EntityType>>, custom: Option<JsonValue>) -> (r: Option<JsonValue>)
    ensures
        match r {
            Some(v) => search_filter(
                match node_types {
                    Some(ts) => Some(ts@),
                    None => None,
                },
                match custom {
                    Some(c) => Some(c@),
                    None => None,
                },
            ) == Some(v@),
            None => node_types is None && custom is None,
        },
{
    match node_types {
        Some(ts) => {
            let mut names: Vec<JsonValue> = Vec::new();
            let mut i: usize = 0;
            while i < ts.len()
                invariant
                    0 <= i <= ts@.len(),
                    models_of(names@) == type_names(ts@.subrange(0, i as int)),
                decreases ts@.len() - i,
            {
                let ghost before = names@;
                let name = ts[i].to_string();
                let ghost nm = name@;
                names.push(JsonValue::Str(name));
                proof {
                    assert(names@.drop_last() == before);
                    assert(names@.last()@ == JsonModel::Str(nm));
                    assert(models_of(names@) == models_of(before).push(JsonModel::Str(nm)));
                    assert(type_names(ts@.subrange(0, i + 1)) =~= type_names(ts@.subrange(0, i as int)).push(
                        JsonModel::Str(entity_type_text(ts@[i as int]@)),
                    ));
                }
                i = i + 1;
            }
            assert(ts@.subrange(0, ts@.len() as int) =~= ts@);
            Some(object1("filter", object1("terms", object1("node_type", JsonValue::Array(names)))))
        },
        None => custom,
    }
}

} // verus!
