use graph::error::Error;
use graph::json::JsonValue;
use graph::memory::hits::{document_fields, hit_identity, hit_times};
use graph::memory::queries::{
    edge_memories_query, id_query, index_mapping, node_memories_query, node_type_query,
    time_range_query,
};
use graph::types::{EntityType, TemporalRange, Timestamp};
use serde_json::Value;

fn to_serde(v: &JsonValue) -> Value {
    match v {
        JsonValue::Null => Value::Null,
        JsonValue::Bool(b) => Value::Bool(*b),
        JsonValue::Number(n) => serde_json::from_str(n).expect("numeral"),
        JsonValue::Str(s) => Value::String(s.clone()),
        JsonValue::Array(items) => Value::Array(items.iter().map(to_serde).collect()),
        JsonValue::Object(members) => {
            let mut m = serde_json::Map::new();
            for (k, v) in members {
                m.insert(k.clone(), to_serde(v));
            }
            Value::Object(m)
        }
    }
}

fn parse(text: &str) -> Value {
    serde_json::from_str(text).unwrap()
}

#[test]
fn search_by_node_type() {
    let q = to_serde(&node_type_query(&EntityType::Person, 10));
    assert_eq!(q, parse(r#"{"size": 10, "query": {"term": {"node_type": "Person"}}}"#));
}

#[test]
fn search_by_creation_time() {
    let start = chrono::DateTime::parse_from_rfc3339("2024-01-02T03:04:05Z").unwrap();
    let nanos = start.timestamp() as i128 * 1_000_000_000;
    let range = TemporalRange { start: Some(Timestamp(nanos)), end: None };
    let q = to_serde(&time_range_query(&range, 5));
    let expected = start.with_timezone(&chrono::Utc).to_rfc3339();
    assert_eq!(q["size"], parse("5"));
    assert_eq!(q["query"]["range"]["created_at"]["gte"], Value::String(expected));
    assert!(q["query"]["range"]["created_at"].get("lte").is_none());

    let both = TemporalRange { start: Some(Timestamp(0)), end: Some(Timestamp(1_000_000_000)) };
    let q = to_serde(&time_range_query(&both, 1));
    assert_eq!(q["query"]["range"]["created_at"]["gte"], Value::String("1970-01-01T00:00:00+00:00".to_string()));
    assert_eq!(q["query"]["range"]["created_at"]["lte"], Value::String("1970-01-01T00:00:01+00:00".to_string()));

    let open = TemporalRange { start: None, end: None };
    let q = to_serde(&time_range_query(&open, 1));
    assert_eq!(q["query"]["range"]["created_at"], parse("{}"));
}

#[test]
fn search_for_a_node_matches_either_end() {
    let id = uuid::Uuid::from_u128(7).to_string();
    let q = to_serde(&node_memories_query(7, 3));
    let expected = format!(
        r#"{{"size": 3, "query": {{"bool": {{"should": [{{"term": {{"source_id": "{id}"}}}}, {{"term": {{"target_id": "{id}"}}}}]}}}}}}"#
    );
    assert_eq!(q, parse(&expected));
}

#[test]
fn search_for_an_edge_matches_both_ends() {
    let s = uuid::Uuid::from_u128(1).to_string();
    let t = uuid::Uuid::from_u128(2).to_string();
    let q = to_serde(&edge_memories_query(1, 2, 4));
    let expected = format!(
        r#"{{"size": 4, "query": {{"bool": {{"must": [{{"term": {{"source_id": "{s}"}}}}, {{"term": {{"target_id": "{t}"}}}}]}}}}}}"#
    );
    assert_eq!(q, parse(&expected));
}

#[test]
fn search_by_identifier() {
    let q = to_serde(&id_query("m-1"));
    assert_eq!(q, parse(r#"{"query": {"term": {"id": "m-1"}}}"#));
}

#[test]
fn index_mapping_carries_dimensions() {
    let m = to_serde(&index_mapping(384));
    assert_eq!(
        m,
        parse(
            r#"{"mappings": {"properties": {
                "id": {"type": "keyword"},
                "embedding": {"type": "dense_vector", "dims": 384, "index": true, "similarity": "cosine"},
                "metadata": {"type": "object"},
                "created_at": {"type": "date"},
                "node_type": {"type": "keyword"},
                "source_id": {"type": "keyword"},
                "target_id": {"type": "keyword"}
            }}}"#
        )
    );
}

fn from_serde(v: &Value) -> JsonValue {
    match v {
        Value::Null => JsonValue::Null,
        Value::Bool(b) => JsonValue::Bool(*b),
        Value::Number(n) => JsonValue::Number(n.to_string()),
        Value::String(s) => JsonValue::Str(s.clone()),
        Value::Array(items) => JsonValue::Array(items.iter().map(from_serde).collect()),
        Value::Object(m) => JsonValue::Object(m.iter().map(|(k, v)| (k.clone(), from_serde(v))).collect()),
    }
}

const NANOS: i128 = 1_000_000_000;

#[test]
fn hit_identity_reads_id_and_type() {
    let source = from_serde(&parse(r#"{"id": "m-1", "node_type": "PERSON", "content": "x"}"#));
    let (id, node_type) = hit_identity(&source).unwrap();
    assert_eq!(id, "m-1");
    assert!(matches!(node_type, Some(EntityType::Person)));

    let untyped = from_serde(&parse(r#"{"id": "m-2"}"#));
    let (id, node_type) = hit_identity(&untyped).unwrap();
    assert_eq!(id, "m-2");
    assert!(node_type.is_none());

    let custom = from_serde(&parse(r#"{"id": "m-3", "node_type": "Gadget"}"#));
    let (_, node_type) = hit_identity(&custom).unwrap();
    assert!(matches!(node_type, Some(EntityType::Custom(ref s)) if s == "gadget"));
}

#[test]
fn hit_identity_refuses_missing_id() {
    let source = from_serde(&parse(r#"{"id": 7, "node_type": "person"}"#));
    match hit_identity(&source) {
        Err(Error::OpenSearch(m)) => assert_eq!(m, "Missing id field"),
        other => panic!("unexpected {:?}", other),
    }
}

#[test]
fn hit_times_reads_instants_and_content() {
    let source = from_serde(&parse(
        r#"{"created_at": "2024-01-01T00:00:00Z", "updated_at": "2024-01-01T00:00:01.5+00:00", "content": "hello"}"#,
    ));
    let (created, updated, content) = hit_times(&source).unwrap();
    assert_eq!(created, 1_704_067_200 * NANOS);
    assert_eq!(updated, 1_704_067_201 * NANOS + 500_000_000);
    assert_eq!(content, "hello");

    let no_content = from_serde(&parse(r#"{"created_at": "2024-01-01T00:00:00Z", "updated_at": "2024-01-01T00:00:00Z"}"#));
    assert_eq!(hit_times(&no_content).unwrap().2, "");
}

#[test]
fn hit_times_refuses_missing_or_bad_times() {
    let missing = from_serde(&parse(r#"{"updated_at": "2024-01-01T00:00:00Z"}"#));
    let expected = chrono::DateTime::parse_from_rfc3339("").unwrap_err().to_string();
    match hit_times(&missing) {
        Err(Error::OpenSearch(m)) => assert_eq!(m, expected),
        other => panic!("unexpected {:?}", other),
    }
    let bad = from_serde(&parse(r#"{"created_at": "2024-01-01T00:00:00Z", "updated_at": "yesterday"}"#));
    let expected = chrono::DateTime::parse_from_rfc3339("yesterday").unwrap_err().to_string();
    match hit_times(&bad) {
        Err(Error::OpenSearch(m)) => assert_eq!(m, expected),
        other => panic!("unexpected {:?}", other),
    }
}

#[test]
fn document_fields_reads_a_stored_entry() {
    let source = from_serde(&parse(
        r#"{"id": "d-1", "metadata": {"k": 1}, "created_at": "1970-01-01T00:00:10Z",
            "updated_at": "1970-01-01T00:00:20Z", "content": "c", "node_type": "event"}"#,
    ));
    let (id, node_type, created, updated, content) = document_fields(&source).unwrap();
    assert_eq!(id, "d-1");
    assert!(matches!(node_type, Some(EntityType::Event)));
    assert_eq!(created, 10 * NANOS);
    assert_eq!(updated, 20 * NANOS);
    assert_eq!(content, "c");
}

#[test]
fn document_fields_refusals_in_order() {
    let refusal = |text: &str| match document_fields(&from_serde(&parse(text))) {
        Err(e) => e.to_string(),
        Ok(_) => panic!("accepted {}", text),
    };
    assert_eq!(refusal(r#"{"id": "d", "metadata": [1]}"#), "OpenSearch error: Invalid metadata format");
    assert_eq!(refusal(r#"{"metadata": {}}"#), "OpenSearch error: Missing id field");
    assert_eq!(refusal(r#"{"id": "d", "metadata": {}}"#), "OpenSearch error: Missing created_at field");
    let shown = chrono::DateTime::parse_from_rfc3339("soon").unwrap_err().to_string();
    assert_eq!(refusal(r#"{"id": "d", "metadata": {}, "created_at": "soon"}"#), format!("Parse error: {}", shown));
    assert_eq!(
        refusal(r#"{"id": "d", "metadata": {}, "created_at": "1970-01-01T00:00:00Z"}"#),
        "OpenSearch error: Missing updated_at field"
    );
    assert_eq!(
        refusal(r#"{"id": "d", "metadata": {}, "created_at": "1970-01-01T00:00:00Z", "updated_at": "1970-01-01T00:00:00Z"}"#),
        "OpenSearch error: Missing content field"
    );
}
