use chrono::{DateTime, Duration, Utc};
use graph::error::Error;
use graph::json::JsonValue;
use graph::temporal::query::{optimize_temporal_query, OptimizedQuery};
use graph::temporal::query_builder::{
    PropertyOperator, RelationshipDirection, SortOrder, TemporalQueryBuilder,
};
use graph::temporal::query_executor::{chunk_bounds, result_instant, QueryExecutorConfig};
use graph::types::{EntityId, EntityType, TemporalOperation, TemporalRange, Timestamp};

fn nanos(t: DateTime<Utc>) -> i128 {
    t.timestamp() as i128 * 1_000_000_000 + t.timestamp_subsec_nanos() as i128
}

fn member<'a>(v: &'a JsonValue, key: &str) -> Option<&'a JsonValue> {
    match v {
        JsonValue::Object(ms) => ms.iter().find(|(k, _)| k == key).map(|(_, v)| v),
        _ => None,
    }
}

fn text(v: Option<&JsonValue>) -> Option<String> {
    match v {
        Some(JsonValue::Str(s)) => Some(s.clone()),
        Some(JsonValue::Number(n)) => Some(n.clone()),
        _ => None,
    }
}

#[test]
fn test_optimize_at_query() {
    let now = nanos(Utc::now());
    let operation = TemporalOperation::At(now);
    let query = optimize_temporal_query(&operation, "test_table".to_string()).unwrap();

    assert!(query.key_condition.is_some());
    assert!(query.key_condition.as_ref().unwrap().contains("valid_time_start"));
    assert!(query.key_condition.as_ref().unwrap().contains("valid_time_end"));
    assert!(query.scan_direction.is_some());
    assert!(query.scan_direction.unwrap());
}

#[test]
fn test_optimize_between_query() {
    let start = Utc::now();
    let end = start + Duration::hours(1);
    let operation = TemporalOperation::Between(nanos(start), nanos(end));
    let query = optimize_temporal_query(&operation, "test_table".to_string()).unwrap();

    assert!(query.key_condition.is_some());
    assert!(query.key_condition.as_ref().unwrap().contains("valid_time_start"));
    assert!(query.key_condition.as_ref().unwrap().contains("valid_time_end"));
    assert!(query.scan_direction.is_some());
    assert!(query.scan_direction.unwrap());
}

#[test]
fn test_optimize_evolution_query() {
    let now = Utc::now();
    let range = TemporalRange {
        start: Some(Timestamp(nanos(now))),
        end: Some(Timestamp(nanos(now + Duration::hours(1)))),
    };
    let operation = TemporalOperation::Evolution(range);
    let query = optimize_temporal_query(&operation, "test_table".to_string()).unwrap();

    assert!(query.key_condition.is_some());
    assert!(query.key_condition.as_ref().unwrap().contains("valid_time_start"));
    assert!(query.scan_direction.is_some());
    assert!(query.scan_direction.unwrap());
}

#[test]
fn test_optimize_latest_query() {
    let operation = TemporalOperation::Latest;
    let query = optimize_temporal_query(&operation, "test_table".to_string()).unwrap();

    assert!(query.key_condition.is_some());
    assert!(query.key_condition.as_ref().unwrap().contains("transaction_time_end"));
    assert!(query.scan_direction.is_some());
    assert!(!query.scan_direction.unwrap());
}

#[test]
fn test_invalid_temporal_range() {
    let end = Utc::now();
    let start = end + Duration::hours(1);
    let operation = TemporalOperation::Between(nanos(start), nanos(end));
    let result = optimize_temporal_query(&operation, "test_table".to_string());

    assert!(result.is_err());
    assert!(matches!(result.unwrap_err(), Error::InvalidTemporalRange(_)));
}

#[test]
fn optimized_query_values_are_whole_seconds() {
    let query = optimize_temporal_query(
        &TemporalOperation::Between(-1, 2_500_000_000),
        "t".to_string(),
    )
    .unwrap();
    let values = query.expression_values.as_ref().unwrap();
    assert_eq!(text(member(values, ":start")), Some("-1".to_string()));
    assert_eq!(text(member(values, ":end")), Some("2".to_string()));
    assert_eq!(
        query.key_condition.as_deref(),
        Some("valid_time_start <= :end AND valid_time_end >= :start")
    );
    let open = TemporalRange { start: Some(Timestamp(5)), end: None };
    let query = optimize_temporal_query(&TemporalOperation::Evolution(open), "t".to_string()).unwrap();
    assert!(query.key_condition.is_none());
    assert!(query.expression_values.is_none());
}

#[test]
fn sort_key_condition_joins_with_and() {
    let q = OptimizedQuery::new("t".to_string())
        .with_key_condition("a = :a".to_string())
        .with_sort_key_condition("b ASC".to_string());
    assert_eq!(q.key_condition.as_deref(), Some("a = :a AND b ASC"));
    let q = OptimizedQuery::new("t".to_string()).with_sort_key_condition("b ASC".to_string());
    assert_eq!(q.key_condition.as_deref(), Some("b ASC"));
}

#[test]
fn exclusive_start_key_is_carried_in_values() {
    let q = OptimizedQuery::new("t".to_string()).with_exclusive_start_key("tok".to_string());
    let values = q.expression_values.as_ref().unwrap();
    assert_eq!(text(member(values, ":exclusive_start_key")), Some("tok".to_string()));
    let q = q.with_exclusive_start_key("next".to_string());
    let values = q.expression_values.as_ref().unwrap();
    assert_eq!(text(member(values, ":exclusive_start_key")), Some("next".to_string()));
    match values {
        JsonValue::Object(ms) => assert_eq!(ms.len(), 1),
        _ => panic!("expected an object"),
    }
    let q = OptimizedQuery::new("t".to_string())
        .with_values(JsonValue::Bool(true))
        .with_exclusive_start_key("tok".to_string());
    assert!(matches!(q.expression_values, Some(JsonValue::Bool(true))));
}

#[test]
fn test_point_in_time_query() {
    let now = nanos(Utc::now());
    let entity_id = EntityId::new(EntityType::Node, "test-node".to_string());

    let query = TemporalQueryBuilder::new().entity_id(entity_id).at(now).build().unwrap();

    assert!(query.key_condition.as_ref().unwrap().contains("entity_id = :eid"));
    let filter = query.filter_expression.unwrap();
    assert!(filter.contains("valid_time_start <= :ts"));
    assert!(filter.contains("valid_time_end >= :ts"));
}

#[test]
fn test_time_range_query() {
    let start = Utc::now();
    let end = start + Duration::hours(1);
    let entity_id = EntityId::new(EntityType::Node, "test-node".to_string());

    let query = TemporalQueryBuilder::new()
        .entity_id(entity_id)
        .between(nanos(start), nanos(end))
        .unwrap()
        .build()
        .unwrap();

    assert!(query.key_condition.as_ref().unwrap().contains("entity_id = :eid"));
    let filter = query.filter_expression.unwrap();
    assert!(filter.contains("valid_time_start <= :end"));
    assert!(filter.contains("valid_time_end >= :start"));
}

#[test]
fn test_invalid_time_range() {
    let end = Utc::now();
    let start = end + Duration::hours(1);
    let entity_id = EntityId::new(EntityType::Node, "test-node".to_string());

    let result = TemporalQueryBuilder::new()
        .entity_id(entity_id)
        .between(nanos(start), nanos(end));

    assert!(result.is_err());
    assert!(matches!(result.unwrap_err(), Error::InvalidTemporalRange(_)));
}

#[test]
fn test_query_builder_with_advanced_filters() {
    let now = Utc::now();
    let query = TemporalQueryBuilder::new()
        .entity_type(EntityType::Person)
        .between(nanos(now), nanos(now + Duration::days(1)))
        .unwrap()
        .add_property_filter_with_operator(
            String::from("age"),
            PropertyOperator::GreaterThan,
            JsonValue::Number("25".to_string()),
        )
        .add_property_filter_with_operator(
            String::from("name"),
            PropertyOperator::Contains,
            JsonValue::Str(String::from("John")),
        )
        .add_relationship_filter(
            String::from("FRIEND_OF"),
            RelationshipDirection::Outgoing,
            Some(EntityType::Person),
            None::<String>,
        )
        .add_sort_field(String::from("name"), SortOrder::Ascending)
        .page_size(10)
        .build()
        .unwrap();

    assert!(query.filter_expression.as_ref().unwrap().contains("age > :age"));
    assert!(query.filter_expression.as_ref().unwrap().contains("contains(name, :name)"));
    assert!(query.filter_expression.as_ref().unwrap().contains("relationship_type = :rel_type_0"));
    assert_eq!(query.limit.unwrap(), 10);
}

#[test]
fn built_filter_expression_in_full() {
    let query = TemporalQueryBuilder::new()
        .entity_type(EntityType::Person)
        .at(3_000_000_000)
        .add_property_filter_with_operator(
            "age".to_string(),
            PropertyOperator::NotIn,
            JsonValue::Number("1".to_string()),
        )
        .add_relationship_filter("KNOWS".to_string(), RelationshipDirection::Any, None, None)
        .add_sort_field("age".to_string(), SortOrder::Descending)
        .add_sort_field("name".to_string(), SortOrder::Ascending)
        .page_token("p1".to_string())
        .build()
        .unwrap();
    assert_eq!(
        query.filter_expression.as_deref(),
        Some(
            "valid_time_start <= :ts AND valid_time_end >= :ts AND entity_type = :et AND NOT age IN :age AND (relationship_type = :rel_type_0 AND (source_id = :entity_id OR target_id = :entity_id) AND ())"
        )
    );
    assert_eq!(query.key_condition.as_deref(), Some("age DESC, name ASC"));
    assert_eq!(query.table_name, "temporal_entities");
    assert_eq!(query.scan_direction, Some(true));
    let values = query.expression_values.as_ref().unwrap();
    assert_eq!(text(member(values, ":ts")), Some("3".to_string()));
    assert_eq!(text(member(values, ":et")), Some("Person".to_string()));
    assert_eq!(text(member(values, ":age")), Some("1".to_string()));
    assert_eq!(text(member(values, ":rel_type_0")), Some("KNOWS".to_string()));
    assert_eq!(text(member(values, ":exclusive_start_key")), Some("p1".to_string()));
}

#[test]
fn builder_without_filters_keeps_entity_value() {
    let query = TemporalQueryBuilder::new()
        .entity_id(EntityId::new(EntityType::Node, "n1".to_string()))
        .build()
        .unwrap();
    assert!(query.filter_expression.is_none());
    let values = query.expression_values.as_ref().unwrap();
    assert_eq!(text(member(values, ":eid")), Some("n1".to_string()));
    assert_eq!(query.key_condition.as_deref(), Some("entity_id = :eid"));
}

#[test]
fn test_query_executor_config() {
    let config = QueryExecutorConfig::default();
    assert_eq!(config.max_concurrent_queries, 10);
    assert_eq!(config.relationship_batch_size, 100);
    assert_eq!(config.enable_parallel, true);
}

#[test]
fn chunks_cover_everything_in_order() {
    assert_eq!(chunk_bounds(0, 3), vec![]);
    assert_eq!(chunk_bounds(7, 3), vec![(0, 3), (3, 6), (6, 7)]);
    assert_eq!(chunk_bounds(6, 3), vec![(0, 3), (3, 6)]);
    assert_eq!(chunk_bounds(2, 10), vec![(0, 2)]);
}

#[test]
fn results_are_reported_at_the_query_instant() {
    let b = TemporalQueryBuilder::new().at(42);
    assert_eq!(result_instant(&b, 7), 42);
    let b = TemporalQueryBuilder::new().between(10, 20).unwrap();
    assert_eq!(result_instant(&b, 7), 10);
    assert_eq!(result_instant(&TemporalQueryBuilder::new(), 7), 7);
}
