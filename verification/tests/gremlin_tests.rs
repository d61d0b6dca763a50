use graph::error::Error;
use graph::graph::gremlin::{
    edge_id_from_results, node_id_from_results,
    convert_property_value, edge_from_results, edges_from_results, gid_to_string,
    node_from_results, nodes_from_results, optional_node_from_results, GremlinEdge, GremlinId,
    GremlinValue, GremlinVertex, LocalResultSet,
};
use graph::json::JsonValue;
use graph::types::{EntityType, Timestamp};

const NODE_A: &str = "6f1c1f0a-0000-4000-8000-000000000001";
const NODE_B: &str = "6f1c1f0a-0000-4000-8000-000000000002";
const EDGE_A: &str = "6f1c1f0a-0000-4000-8000-0000000000e1";

fn vertex(id: &str, label: &str) -> GremlinVertex {
    GremlinVertex {
        id: GremlinId::Text(id.to_string()),
        label: label.to_string(),
        properties: vec![
            ("name".to_string(), vec![GremlinValue::String("Ada".to_string())]),
            ("age".to_string(), vec![GremlinValue::Int32(36), GremlinValue::Int32(99)]),
            ("empty".to_string(), vec![]),
        ],
    }
}

fn gedge(id: &str, out_v: &str, in_v: &str) -> GremlinEdge {
    GremlinEdge {
        id: GremlinId::Text(id.to_string()),
        label: "KNOWS".to_string(),
        out_v: GremlinId::Text(out_v.to_string()),
        in_v: GremlinId::Text(in_v.to_string()),
        properties: vec![("weight".to_string(), GremlinValue::Int64(7))],
    }
}

#[test]
fn identifier_texts() {
    assert_eq!(gid_to_string(&GremlinId::Text("abc".to_string())), "abc");
    assert_eq!(gid_to_string(&GremlinId::Int32(-42)), "-42");
    assert_eq!(gid_to_string(&GremlinId::Int64(9_000_000_000)), "9000000000");
}

#[test]
fn property_values_become_json() {
    assert!(matches!(convert_property_value(&GremlinValue::Null), JsonValue::Null));
    assert!(matches!(convert_property_value(&GremlinValue::Other), JsonValue::Null));
    match convert_property_value(&GremlinValue::String("x".to_string())) {
        JsonValue::Str(s) => assert_eq!(s, "x"),
        other => panic!("unexpected {:?}", other),
    }
    match convert_property_value(&GremlinValue::Int64(-5)) {
        JsonValue::Number(n) => assert_eq!(n, "-5"),
        other => panic!("unexpected {:?}", other),
    }
    match convert_property_value(&GremlinValue::Decimal(Some("2.5".to_string()))) {
        JsonValue::Number(n) => assert_eq!(n, "2.5"),
        other => panic!("unexpected {:?}", other),
    }
    assert!(matches!(convert_property_value(&GremlinValue::Decimal(None)), JsonValue::Null));
    match convert_property_value(&GremlinValue::List(vec![GremlinValue::Int32(1), GremlinValue::Null])) {
        JsonValue::Array(items) => {
            assert_eq!(items.len(), 2);
            assert!(matches!(&items[0], JsonValue::Number(n) if n == "1"));
            assert!(matches!(&items[1], JsonValue::Null));
        }
        other => panic!("unexpected {:?}", other),
    }
}

#[test]
fn later_map_entry_replaces_earlier() {
    let dict = GremlinValue::Dictionary(vec![
        ("k".to_string(), GremlinValue::Int32(1)),
        ("j".to_string(), GremlinValue::Int32(2)),
        ("k".to_string(), GremlinValue::Int32(3)),
    ]);
    match convert_property_value(&dict) {
        JsonValue::Object(members) => {
            assert_eq!(members.len(), 2);
            assert_eq!(members[0].0, "k");
            assert!(matches!(&members[0].1, JsonValue::Number(n) if n == "3"));
            assert_eq!(members[1].0, "j");
        }
        other => panic!("unexpected {:?}", other),
    }
}

#[test]
fn vertex_result_becomes_node() {
    let results = LocalResultSet(vec![GremlinValue::Vertex(vertex(NODE_A, "Person"))]);
    let node = node_from_results(&results, 1_000).unwrap();
    assert_eq!(node.id.0, uuid::Uuid::parse_str(NODE_A).unwrap().as_u128());
    assert!(matches!(node.entity_type, EntityType::Person));
    assert_eq!(node.label, "Person");
    assert!(matches!(node.properties.get("name"), Some(JsonValue::Str(s)) if s == "Ada"));
    assert!(matches!(node.properties.get("age"), Some(JsonValue::Number(n)) if n == "36"));
    assert!(node.properties.get("empty").is_none());
    assert_eq!(node.valid_time.start, Some(Timestamp(1_000)));
    assert_eq!(node.valid_time.end, None);
    assert_eq!(node.transaction_time.start, Some(Timestamp(1_000)));
}

#[test]
fn custom_vertex_label_is_kept() {
    let results = LocalResultSet(vec![GremlinValue::Vertex(vertex(NODE_A, "Spaceship"))]);
    let node = node_from_results(&results, 0).unwrap();
    assert!(matches!(node.entity_type, EntityType::Custom(ref s) if s == "spaceship"));
}

#[test]
fn empty_result_has_no_node() {
    let results = LocalResultSet(vec![]);
    assert!(matches!(node_from_results(&results, 0), Err(Error::NotFound(m)) if m == "Node not found"));
    assert!(matches!(optional_node_from_results(&results, 0), Ok(None)));
    assert!(matches!(edge_from_results(&results, 0), Err(Error::NotFound(m)) if m == "Edge not found"));
    assert!(matches!(nodes_from_results(&results, 0), Ok(v) if v.is_empty()));
}

#[test]
fn non_vertex_result_is_refused() {
    let results = LocalResultSet(vec![GremlinValue::Int32(3)]);
    assert!(matches!(node_from_results(&results, 0), Err(Error::Neptune(m)) if m == "Expected vertex result"));
    assert!(matches!(optional_node_from_results(&results, 0), Err(Error::Neptune(_))));
    assert!(matches!(edge_from_results(&results, 0), Err(Error::Neptune(m)) if m == "Expected edge result"));
}

#[test]
fn unreadable_vertex_identifier_is_refused() {
    let results = LocalResultSet(vec![GremlinValue::Vertex(vertex("not-a-uuid", "Person"))]);
    let expected = uuid::Uuid::parse_str("not-a-uuid").unwrap_err().to_string();
    match node_from_results(&results, 0) {
        Err(Error::Uuid(m)) => assert_eq!(m, expected),
        other => panic!("unexpected {:?}", other),
    }
}

#[test]
fn edge_result_becomes_edge() {
    let results = LocalResultSet(vec![GremlinValue::Edge(gedge(EDGE_A, NODE_A, NODE_B))]);
    let edge = edge_from_results(&results, 5).unwrap();
    assert_eq!(edge.id.0, uuid::Uuid::parse_str(EDGE_A).unwrap().as_u128());
    assert_eq!(edge.source_id.0, uuid::Uuid::parse_str(NODE_A).unwrap().as_u128());
    assert_eq!(edge.target_id.0, uuid::Uuid::parse_str(NODE_B).unwrap().as_u128());
    assert_eq!(edge.label, "KNOWS");
    assert!(matches!(edge.properties.get("weight"), Some(JsonValue::Number(n)) if n == "7"));
    assert_eq!(edge.valid_time.start, Some(Timestamp(5)));
}

#[test]
fn edge_with_unreadable_target_is_refused() {
    let results = LocalResultSet(vec![GremlinValue::Edge(gedge(EDGE_A, NODE_A, "bad"))]);
    let expected = uuid::Uuid::parse_str("bad").unwrap_err().to_string();
    match edge_from_results(&results, 0) {
        Err(Error::Uuid(m)) => assert_eq!(m, expected),
        other => panic!("unexpected {:?}", other),
    }
}

#[test]
fn all_results_become_nodes_in_order() {
    let results = LocalResultSet(vec![
        GremlinValue::Vertex(vertex(NODE_A, "Person")),
        GremlinValue::Vertex(vertex(NODE_B, "Topic")),
    ]);
    let nodes = nodes_from_results(&results, 0).unwrap();
    assert_eq!(nodes.len(), 2);
    assert_eq!(nodes[1].id.0, uuid::Uuid::parse_str(NODE_B).unwrap().as_u128());
    assert!(matches!(nodes[1].entity_type, EntityType::Topic));
}

#[test]
fn list_refused_at_first_bad_result() {
    let results = LocalResultSet(vec![
        GremlinValue::Vertex(vertex(NODE_A, "Person")),
        GremlinValue::Null,
        GremlinValue::Vertex(vertex("bad", "Person")),
    ]);
    assert!(matches!(nodes_from_results(&results, 0), Err(Error::Neptune(m)) if m == "Expected vertex result"));
    let edges = LocalResultSet(vec![
        GremlinValue::Edge(gedge(EDGE_A, NODE_A, NODE_B)),
        GremlinValue::Edge(gedge(EDGE_A, NODE_B, NODE_A)),
    ]);
    let list = edges_from_results(&edges, 0).unwrap();
    assert_eq!(list.len(), 2);
    assert_eq!(list[1].source_id.0, uuid::Uuid::parse_str(NODE_B).unwrap().as_u128());
}

#[test]
fn identifiers_from_results() {
    let ok = LocalResultSet(vec![GremlinValue::String(NODE_A.to_string())]);
    assert_eq!(node_id_from_results(&ok, "").unwrap().0, uuid::Uuid::parse_str(NODE_A).unwrap().as_u128());
    assert_eq!(edge_id_from_results(&ok, "").unwrap().0, uuid::Uuid::parse_str(NODE_A).unwrap().as_u128());
    let empty = LocalResultSet(vec![]);
    assert!(matches!(node_id_from_results(&empty, ""), Err(Error::NotFound(m)) if m == "No node ID found in result set"));
    assert!(matches!(edge_id_from_results(&empty, ""), Err(Error::NotFound(m)) if m == "No edge ID found in result set"));
    let number = LocalResultSet(vec![GremlinValue::Int32(4)]);
    assert!(matches!(
        node_id_from_results(&number, "Int32(4)"),
        Err(Error::InvalidId(m)) if m == "Expected string value for node ID, got Int32(4)"
    ));
    let bad = LocalResultSet(vec![GremlinValue::String("zz".to_string())]);
    let expected = format!("Failed to parse UUID: {}", uuid::Uuid::parse_str("zz").unwrap_err());
    assert!(matches!(edge_id_from_results(&bad, ""), Err(Error::InvalidId(m)) if m == expected));
}
