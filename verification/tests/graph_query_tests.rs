use chrono::{DateTime, Duration, Utc};
use graph::graph::query::{
    create_edge, create_node, get_connected_nodes, get_edges_between, get_edges_by_label,
    get_edges_for_node, get_node, get_nodes_by_label, get_vertex, update_node,
};
use graph::types::{Edge, EdgeId, EntityType, Node, NodeId, Properties, TemporalRange, Timestamp};

fn nanos(t: DateTime<Utc>) -> i128 {
    t.timestamp() as i128 * 1_000_000_000 + t.timestamp_subsec_nanos() as i128
}

fn uuid_text(v: u128) -> String {
    uuid::Uuid::from_u128(v).to_string()
}

fn create_test_node() -> Node {
    let now = Timestamp(nanos(Utc::now()));
    Node {
        id: NodeId(uuid::Uuid::new_v4().as_u128()),
        entity_type: EntityType::Event,
        label: "test_node".to_string(),
        properties: Properties::new(),
        valid_time: TemporalRange { start: Some(now), end: None },
        transaction_time: TemporalRange { start: Some(now), end: None },
    }
}

fn create_test_edge() -> Edge {
    let now = Timestamp(nanos(Utc::now()));
    Edge {
        id: EdgeId(uuid::Uuid::new_v4().as_u128()),
        source_id: NodeId(uuid::Uuid::new_v4().as_u128()),
        target_id: NodeId(uuid::Uuid::new_v4().as_u128()),
        label: "test_edge".to_string(),
        properties: Properties::new(),
        valid_time: TemporalRange { start: Some(now), end: None },
        transaction_time: TemporalRange { start: Some(now), end: None },
    }
}

#[test]
fn test_create_node_query() {
    let node = create_test_node();
    let query = create_node(&node, "{}", "{}", "{}");
    assert!(query.contains(&uuid_text(node.id.0)));
    assert!(query.contains(&node.label));
    assert!(query.contains("addV"));
}

#[test]
fn test_create_edge_query() {
    let edge = create_test_edge();
    let query = create_edge(&edge, "{}", "{}", "{}");
    assert!(query.contains(&uuid_text(edge.id.0)));
    assert!(query.contains(&uuid_text(edge.source_id.0)));
    assert!(query.contains(&uuid_text(edge.target_id.0)));
    assert!(query.contains("addE"));
}

#[test]
fn test_temporal_query() {
    let node_id = NodeId(uuid::Uuid::new_v4().as_u128());
    let now = Utc::now();
    let range = TemporalRange {
        start: Some(Timestamp(nanos(now))),
        end: Some(Timestamp(nanos(now + Duration::hours(1)))),
    };

    let query = get_edges_for_node(node_id, Some(range));
    assert!(query.contains(&uuid_text(node_id.0)));
    assert!(query.contains("valid_time.start"));
    assert!(query.contains("valid_time.end"));
    assert!(query.contains("gte"));
    assert!(query.contains("lte"));
}

#[test]
fn node_creation_query_in_full() {
    let node = Node {
        id: NodeId(1),
        entity_type: EntityType::Person,
        label: "Ada \"Countess\"".to_string(),
        properties: Properties::new(),
        valid_time: TemporalRange { start: None, end: None },
        transaction_time: TemporalRange { start: None, end: None },
    };
    let q = create_node(&node, "{\"a\":1}", "{\"v\":0}", "{\"t\":0}");
    assert_eq!(
        q,
        "g.addV('Person').property('entity_type', \"Person\").property('id', \"00000000-0000-0000-0000-000000000001\").property('label', \"Ada \\\"Countess\\\"\").property('properties', {\"a\":1}).property('transaction_time', {\"t\":0}).property('valid_time', {\"v\":0})"
    );
    let q = update_node(&node, "{}", "null", "null");
    assert_eq!(
        q,
        "g.V('00000000-0000-0000-0000-000000000001').property('label', \"Ada \\\"Countess\\\"\").property('properties', {}).property('transaction_time', null).property('valid_time', null)"
    );
}

#[test]
fn lookup_queries() {
    assert_eq!(get_nodes_by_label("person"), "g.V().hasLabel('person')");
    assert_eq!(get_edges_by_label("knows"), "g.E().hasLabel('knows')");
    assert_eq!(get_vertex("v1"), "g.V('v1')");
    assert_eq!(
        get_node(NodeId(255)),
        "g.V('00000000-0000-0000-0000-0000000000ff').hasLabel('node')"
    );
    assert_eq!(
        get_edges_between(&NodeId(1), &NodeId(2)),
        "g.V('00000000-0000-0000-0000-000000000001').outE().where(inV().hasId('00000000-0000-0000-0000-000000000002'))"
    );
    let range = TemporalRange { start: Some(Timestamp(-1)), end: None };
    assert_eq!(
        get_connected_nodes(NodeId(1), Some(range)),
        "g.V('00000000-0000-0000-0000-000000000001').both().has('valid_time.start', gte(-1))"
    );
    assert_eq!(
        get_connected_nodes(NodeId(1), None),
        "g.V('00000000-0000-0000-0000-000000000001').both()"
    );
}

#[test]
fn node_label_is_escaped_as_json() {
    let mut node = create_test_node();
    node.label = "a\"b\\c\nd\u{1}e".to_string();
    let query = create_node(&node, "{}", "{}", "{}");
    assert!(query.contains(r#""a\"b\\c\nd\u0001e""#));
}
