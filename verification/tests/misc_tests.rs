use graph::graph::neighborhood::{cache_key, NeighborhoodConfig};
use graph::graph::subgraph::{propagation_range, Subgraph, SubgraphType};
use graph::hybrid::models::{create_embedding_function, RustBertEmbeddings, DEFAULT_EMBEDDING_DIM};
use graph::hybrid::query::{neighbour_path, SimilarityMetric, TraversalDirection, TraversalStep};
use graph::memory::mock::MockMemory;
use graph::api::state::MockTemporalGraph;
use graph::types::{EdgeId, EntityId, EntityType, GID, NodeId, TemporalRange};
use std::sync::Arc;

#[test]
fn subgraph_hierarchy() {
    let store = Arc::new(0u8);
    let parent = Arc::new(Subgraph::new(SubgraphType::Community, store.clone(), None));
    let mut child = Subgraph::new(SubgraphType::Entity, store.clone(), Some(parent.clone()));
    let leaf = Arc::new(Subgraph::new(SubgraphType::Episode, store, None));
    child.add_child(leaf);
    assert_eq!(*child.subgraph_type(), SubgraphType::Entity);
    assert_eq!(*child.parent().unwrap().subgraph_type(), SubgraphType::Community);
    assert_eq!(child.children().len(), 1);
    assert_eq!(*child.children()[0].subgraph_type(), SubgraphType::Episode);
    assert!(parent.parent().is_none());
    let r = propagation_range(99);
    assert_eq!(r.start.unwrap().0, 99);
    assert!(r.end.is_none());
}

#[test]
fn subgraph_additions_reach_every_ancestor() {
    let community = Arc::new(Subgraph::new(SubgraphType::Community, Arc::new(3u8), None));
    let entity = Arc::new(Subgraph::new(SubgraphType::Entity, Arc::new(2u8), Some(community.clone())));
    let episode = Subgraph::new(SubgraphType::Episode, Arc::new(1u8), Some(entity.clone()));
    let stores: Vec<u8> = episode.addition_stores().iter().map(|s| **s).collect();
    assert_eq!(stores, vec![1, 2, 3]);
    let stores: Vec<u8> = community.addition_stores().iter().map(|s| **s).collect();
    assert_eq!(stores, vec![3]);
}

#[test]
fn neighborhood_cache_freshness() {
    let config = NeighborhoodConfig::default();
    assert_eq!(config.max_cache_size, 10000);
    assert_eq!(config.cache_ttl_seconds, 3600);
    let s = 1_000_000_000i128;
    assert!(config.is_cache_valid(0, 3600 * s));
    assert!(config.is_cache_valid(0, 3600 * s + s - 1));
    assert!(!config.is_cache_valid(0, 3601 * s));
    assert!(config.is_cache_valid(10 * s, 0));
    assert_eq!(cache_key(1, 2 * s + 5), "00000000-0000-0000-0000-000000000001_2");
    assert_eq!(cache_key(1, -1), "00000000-0000-0000-0000-000000000001_-1");
}

#[test]
fn hybrid_settings() {
    assert_eq!(SimilarityMetric::default(), SimilarityMetric::Cosine);
    assert_eq!(TraversalDirection::default(), TraversalDirection::Out);
    let step = TraversalStep::following(Some("knows".to_string()), TraversalDirection::In);
    assert!(step.use_vector_similarity);
    assert_eq!(step.direction, TraversalDirection::In);
    let p = neighbour_path(NodeId(1), NodeId(2));
    assert_eq!(p.depth, 1);
    assert_eq!(p.node_ids, vec![NodeId(1), NodeId(2)]);
    let e = create_embedding_function(None, None);
    assert_eq!(e.model_name(), "all-MiniLM-L6-v2");
    assert_eq!(e.embedding_dim(), DEFAULT_EMBEDDING_DIM);
    assert_eq!(e.model_version(), "1.0");
    let r = RustBertEmbeddings::new("m".to_string(), "2".to_string(), 4);
    assert_eq!(r.embedding_dim(), 4);
}

#[test]
fn mocks_and_identifiers() {
    let memory = MockMemory::new();
    assert!(memory.store("entry").is_ok());
    assert!(memory.store_bulk(vec![1u8, 2]).is_ok());
    assert!(memory.search_similar::<String>(5, None).unwrap().is_empty());
    assert!(memory.get_by_node_type::<String>(EntityType::Person, 5).unwrap().is_empty());
    assert!(memory.get_by_time_range::<String>(TemporalRange::unbounded(), 5).unwrap().is_empty());
    assert!(memory.get_for_node::<String>(1, 5).unwrap().is_empty());
    assert!(memory.get_for_edge::<String>(1, 2, 5).unwrap().is_empty());
    let graph = MockTemporalGraph::new();
    assert!(graph.get_nodes_at(0, None).unwrap().is_empty());
    assert!(graph.get_edges_at(0, Some(1), None).unwrap().is_empty());
    assert!(graph.get_nodes_between(0, 10, Some(EntityType::Event)).unwrap().is_empty());
    assert!(graph.get_edges_between(0, 10).unwrap().is_empty());
    assert!(graph.store(EntityId::new(EntityType::Node, "n".to_string()), 7u8, TemporalRange::unbounded()).is_ok());
    assert!(graph.get_node_evolution(NodeId(1), &TemporalRange::unbounded()).unwrap().is_empty());
    assert!(graph.get_edge_evolution(EdgeId(1), &TemporalRange::unbounded()).unwrap().is_empty());
    let gid = GID("g1".to_string());
    assert_eq!(gid.as_str(), "g1");
}

#[test]
fn queue_names_from_urls() {
    assert_eq!(graph::aws::queue_name("http://localhost:4566/000000000000/test-queue"), "test-queue");
    assert_eq!(graph::aws::queue_name("plain"), "plain");
    assert_eq!(graph::aws::queue_name("ends/"), "");
    assert_eq!(graph::aws::queue_name(""), "");
}

fn relationship_kind<T: graph::temporal::RelationshipType>(kind: T) -> T {
    kind
}

#[test]
fn text_names_a_relationship_type() {
    assert_eq!(relationship_kind("WORKS_FOR"), "WORKS_FOR");
    assert_eq!(relationship_kind(String::from("LOCATED_IN")), "LOCATED_IN");
}

#[test]
fn neighborhood_cache_lookup_and_eviction() {
    let config = NeighborhoodConfig::default();
    let s = 1_000_000_000i128;
    assert_eq!(config.lookup(1, 0, 3600 * s), Some((2, 3600 * s)));
    assert_eq!(config.lookup(1, 0, 3601 * s), None);
    assert!(!config.must_evict(9999));
    assert!(config.must_evict(10000));
}
