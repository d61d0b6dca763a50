use graph::error::Error;
use graph::hybrid::query::{require_query_source, vector_search_filter};
use graph::json::JsonValue;
use graph::types::{EntityType, NodeId};

#[test]
fn hybrid_query_needs_a_source() {
    assert!(require_query_source(true, false, None).is_ok());
    assert!(require_query_source(false, true, None).is_ok());
    assert!(require_query_source(false, false, Some(NodeId(1))).is_ok());
    match require_query_source(false, false, None) {
        Err(e @ Error::Generic(_)) => assert_eq!(
            e.to_string(),
            "Error: Hybrid query must have either a query embedding, query text, or a start node ID"
        ),
        other => panic!("unexpected {:?}", other),
    }
}

#[test]
fn vector_search_filter_by_node_types() {
    let f = vector_search_filter(&Some(vec![EntityType::Person, EntityType::Custom("gadget".to_string())]), None);
    match f {
        Some(JsonValue::Object(m)) => {
            assert_eq!(m[0].0, "filter");
            match &m[0].1 {
                JsonValue::Object(t) => match &t[0].1 {
                    JsonValue::Object(n) => {
                        assert_eq!(n[0].0, "node_type");
                        match &n[0].1 {
                            JsonValue::Array(items) => {
                                assert!(matches!(&items[0], JsonValue::Str(s) if s == "Person"));
                                assert!(matches!(&items[1], JsonValue::Str(s) if s == "gadget"));
                            }
                            other => panic!("unexpected {:?}", other),
                        }
                    }
                    other => panic!("unexpected {:?}", other),
                },
                other => panic!("unexpected {:?}", other),
            }
        }
        other => panic!("unexpected {:?}", other),
    }
    let custom = vector_search_filter(&None, Some(JsonValue::Bool(true)));
    assert!(matches!(custom, Some(JsonValue::Bool(true))));
    assert!(vector_search_filter(&None, None).is_none());
    // Node types take the place of a custom filter.
    let both = vector_search_filter(&Some(vec![]), Some(JsonValue::Bool(true)));
    assert!(matches!(both, Some(JsonValue::Object(_))));
}
