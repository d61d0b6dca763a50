use graph::json::JsonValue;
use graph::temporal::consistency::{
    ConsistencyCheckResult, ConsistencyViolation, ConsistencyViolationType,
};
use graph::temporal::graph::{
    edges_at_query, edges_between_query, latest_lookup_id, merge_consistency, nodes_at_query,
    nodes_between_query, stores_as_node,
};
use graph::types::{EntityId, EntityType};

const SECOND: i128 = 1_000_000_000;

fn member<'a>(v: &'a Option<JsonValue>, key: &str) -> &'a JsonValue {
    match v {
        Some(JsonValue::Object(m)) => &m.iter().find(|(k, _)| k == key).expect("member").1,
        other => panic!("not an object: {:?}", other),
    }
}

fn text(v: &JsonValue) -> &str {
    match v {
        JsonValue::Str(s) => s,
        other => panic!("not a string: {:?}", other),
    }
}

#[test]
fn nodes_at_an_instant() {
    let q = nodes_at_query("graph", 1_700_000_000 * SECOND + 5, &None);
    assert_eq!(q.table_name, "graph");
    assert_eq!(q.key_condition.as_deref(), Some("valid_time_start <= :ts AND valid_time_end >= :ts"));
    assert!(q.filter_expression.is_none());
    assert_eq!(text(member(&q.expression_values, ":ts")), "1700000000");
    assert!(q.limit.is_none() && q.scan_direction.is_none());
}

#[test]
fn nodes_at_an_instant_of_one_type() {
    let q = nodes_at_query("graph", 0, &Some(EntityType::Person));
    assert_eq!(q.filter_expression.as_deref(), Some("entity_type = :et"));
    assert_eq!(text(member(&q.expression_values, ":et")), "Person");
}

#[test]
fn nodes_within_a_span() {
    let q = nodes_between_query("graph", 10 * SECOND, 20 * SECOND, &None);
    assert_eq!(q.key_condition.as_deref(), Some("valid_time_start <= :end AND valid_time_end >= :start"));
    assert_eq!(text(member(&q.expression_values, ":start")), "10");
    assert_eq!(text(member(&q.expression_values, ":end")), "20");
}

#[test]
fn edges_at_an_instant_by_endpoint() {
    let q = edges_at_query("edges", 3 * SECOND, Some(1), Some(2));
    assert_eq!(q.filter_expression.as_deref(), Some("source_id = :sid AND target_id = :tid"));
    assert_eq!(text(member(&q.expression_values, ":sid")), uuid::Uuid::from_u128(1).to_string());
    assert_eq!(text(member(&q.expression_values, ":tid")), uuid::Uuid::from_u128(2).to_string());

    let q = edges_at_query("edges", 3 * SECOND, None, None);
    assert!(q.filter_expression.is_none());
    assert_eq!(text(member(&q.expression_values, ":ts")), "3");
}

#[test]
fn edges_within_a_span_by_target() {
    let q = edges_between_query("edges", SECOND, 2 * SECOND, None, Some(9));
    assert_eq!(q.filter_expression.as_deref(), Some("target_id = :tid"));
    assert_eq!(text(member(&q.expression_values, ":tid")), uuid::Uuid::from_u128(9).to_string());
}

#[test]
fn only_edges_are_not_stored_as_nodes() {
    assert!(!stores_as_node(&EntityType::Edge));
    assert!(stores_as_node(&EntityType::Node));
    assert!(stores_as_node(&EntityType::Custom("x".to_string())));
}

#[test]
fn latest_lookup_uses_identifier_text() {
    let id = latest_lookup_id(EntityType::Node, 5);
    assert_eq!(id.id, uuid::Uuid::from_u128(5).to_string());
}

#[test]
fn consistency_results_merge() {
    let violation = ConsistencyViolation {
        violation_type: ConsistencyViolationType::TemporalGap,
        description: "gap".to_string(),
        entity_id: EntityId::new(EntityType::Node, "n".to_string()),
        timestamp: 0,
    };
    let nodes = ConsistencyCheckResult { passed: true, violations: vec![] };
    let edges = ConsistencyCheckResult { passed: false, violations: vec![violation] };
    let merged = merge_consistency(nodes, edges);
    assert!(!merged.passed);
    assert_eq!(merged.violations.len(), 1);
    assert_eq!(merged.violations[0].description, "gap");
}
