use graph::error::Error;
use graph::graph::gremlin::{GremlinEdge, GremlinId, GremlinValue, GremlinVertex};
use graph::graph::neptune::{NeptuneGraph, RetryAction, RetryState, MAX_ATTEMPTS};
use graph::json::JsonValue;
use graph::types::{EntityType, TemporalRange, Timestamp};

const A: &str = "5a1e0000-0000-4000-8000-000000000001";
const B: &str = "5a1e0000-0000-4000-8000-000000000002";
const E: &str = "5a1e0000-0000-4000-8000-0000000000ee";

fn id(text: &str) -> GremlinId {
    GremlinId::Text(text.to_string())
}

fn u(text: &str) -> u128 {
    uuid::Uuid::parse_str(text).unwrap().as_u128()
}

fn vertex(entity_type: Option<GremlinValue>) -> GremlinVertex {
    let mut properties = vec![
        ("name".to_string(), vec![GremlinValue::String("Ada".to_string())]),
        ("tags".to_string(), vec![GremlinValue::Dictionary(vec![("k".to_string(), GremlinValue::Int32(1))])]),
        ("valid_time".to_string(), vec![GremlinValue::String("{}".to_string())]),
        ("transaction_time".to_string(), vec![GremlinValue::String("{\"start\":null}".to_string())]),
    ];
    if let Some(t) = entity_type {
        properties.push(("entity_type".to_string(), vec![t]));
    }
    GremlinVertex { id: id(A), label: "person".to_string(), properties }
}

#[test]
fn temporal_range_validation() {
    let g = NeptuneGraph::new();
    let ok = TemporalRange { start: Some(Timestamp(1)), end: Some(Timestamp(1)) };
    assert!(g.validate_temporal_range(&ok).is_ok());
    let open = TemporalRange { start: Some(Timestamp(5)), end: None };
    assert!(g.validate_temporal_range(&open).is_ok());
    let bad = TemporalRange { start: Some(Timestamp(2)), end: Some(Timestamp(1)) };
    assert!(matches!(
        g.validate_temporal_range(&bad),
        Err(Error::InvalidTemporalRange(m)) if m == "Start time must be before end time"
    ));
}

#[test]
fn identifier_kinds() {
    assert_eq!(NeptuneGraph::gid_to_string(&GremlinId::Int64(12)).unwrap(), "12");
    assert!(matches!(
        NeptuneGraph::gid_to_string(&GremlinId::Other("x".to_string())),
        Err(Error::Neptune(m)) if m == "Unsupported GID format"
    ));
}

#[test]
fn maps_read_as_empty_objects() {
    let v = GremlinValue::List(vec![GremlinValue::Dictionary(vec![("a".to_string(), GremlinValue::Null)])]);
    match NeptuneGraph::convert_gvalue_to_json(&v) {
        JsonValue::Array(items) => assert!(matches!(&items[0], JsonValue::Object(m) if m.is_empty())),
        other => panic!("unexpected {:?}", other),
    }
}

#[test]
fn vertex_reading() {
    let g = NeptuneGraph::new();
    let f = g.parse_vertex(&vertex(Some(GremlinValue::String("Organization".to_string())))).unwrap();
    assert_eq!(f.id.0, u(A));
    assert!(matches!(f.entity_type, EntityType::Organization));
    assert_eq!(f.label, "person");
    assert!(matches!(f.properties.get("tags"), Some(JsonValue::Object(m)) if m.is_empty()));
    assert!(matches!(f.valid_time, JsonValue::Str(ref s) if s == "{}"));

    let custom = g.parse_vertex(&vertex(Some(GremlinValue::String("person".to_string())))).unwrap();
    assert!(matches!(custom.entity_type, EntityType::Custom(ref s) if s == "person"));
    let untyped = g.parse_vertex(&vertex(None)).unwrap();
    assert!(matches!(untyped.entity_type, EntityType::Vertex));
    assert!(matches!(
        g.parse_vertex(&vertex(Some(GremlinValue::Int32(3)))),
        Err(Error::Neptune(m)) if m == "Invalid entity_type format"
    ));
    let tx = NeptuneGraph::vertex_transaction_time(&vertex(None)).unwrap();
    assert!(matches!(tx, JsonValue::Str(ref s) if s == "{\"start\":null}"));
}

#[test]
fn vertex_without_times_is_refused() {
    let g = NeptuneGraph::new();
    let v = GremlinVertex { id: id(A), label: "x".to_string(), properties: vec![] };
    assert!(matches!(g.parse_vertex(&v), Err(Error::Neptune(m)) if m == "Missing valid_time property"));
    assert!(matches!(
        NeptuneGraph::vertex_transaction_time(&v),
        Err(Error::Neptune(m)) if m == "Missing transaction_time property"
    ));
    let bad_id = GremlinVertex { id: id("nope"), label: "x".to_string(), properties: vec![] };
    let expected = uuid::Uuid::parse_str("nope").unwrap_err().to_string();
    assert!(matches!(g.parse_vertex(&bad_id), Err(Error::Uuid(m)) if m == expected));
}

fn edge(out_v: GremlinId, properties: Vec<(String, GremlinValue)>) -> GremlinEdge {
    GremlinEdge { id: id(E), label: "KNOWS".to_string(), out_v, in_v: id(B), properties }
}

#[test]
fn edge_reading() {
    let g = NeptuneGraph::new();
    let e = edge(id(A), vec![("valid_time".to_string(), GremlinValue::String("{}".to_string()))]);
    let f = g.parse_edge(&e).unwrap();
    assert_eq!(f.id.0, u(E));
    assert_eq!(f.source_id.0, u(A));
    assert_eq!(f.target_id.0, u(B));
    assert_eq!(f.label, "KNOWS");
    assert_eq!(
        NeptuneGraph::edge_time_text(&e, "valid_time", "Invalid valid_time format").unwrap().as_deref(),
        Some("{}")
    );
    assert_eq!(NeptuneGraph::edge_time_text(&e, "transaction_time", "Invalid transaction_time format").unwrap(), None);
    let numeric = edge(id(A), vec![("valid_time".to_string(), GremlinValue::Int32(1))]);
    assert!(matches!(
        NeptuneGraph::edge_time_text(&numeric, "valid_time", "Invalid valid_time format"),
        Err(Error::Neptune(m)) if m == "Invalid valid_time format"
    ));
    let unsupported = edge(GremlinId::Other("?".to_string()), vec![]);
    assert!(matches!(g.parse_edge(&unsupported), Err(Error::Neptune(m)) if m == "Unsupported GID format"));
}

#[test]
fn retries_are_bounded() {
    let mut s = RetryState::new();
    let mut waits = 0;
    loop {
        match s.next() {
            RetryAction::Attempt => {
                let (next, action) = s.on_failure("boom", Some(10));
                s = next;
                match action {
                    RetryAction::Sleep(d) => {
                        assert_eq!(d, 10);
                        waits += 1;
                    }
                    other => panic!("unexpected {:?}", other),
                }
            }
            RetryAction::Fail(Error::Neptune(m)) => {
                assert_eq!(m, "Maximum number of retries reached");
                break;
            }
            other => panic!("unexpected {:?}", other),
        }
    }
    assert_eq!(waits, MAX_ATTEMPTS);
    let (_, action) = RetryState::new().on_failure("boom", None);
    assert!(matches!(action, RetryAction::Fail(Error::Neptune(m)) if m == "Query execution failed after retries: boom"));
}
