use graph::error::Error;
use graph::json::JsonValue;
use graph::temporal::dynamodb::{
    related_entity_ids, string_expression_attributes, typed_expression_attributes,
    version_or_fresh, AttributeText, DynamoDBTemporal,
};
use graph::temporal::query::OptimizedQuery;
use graph::temporal::query_builder::{
    PropertyFilter, PropertyOperator, RelationshipDirection, RelationshipFilter,
    TemporalQueryBuilder,
};
use graph::types::{EntityId, EntityType, TemporalRange, Timestamp};

fn member<'a>(v: &'a JsonValue, key: &str) -> Option<&'a JsonValue> {
    match v {
        JsonValue::Object(ms) => ms.iter().find(|(k, _)| k == key).map(|(_, v)| v),
        _ => None,
    }
}

fn attr<'a>(item: &'a [(String, AttributeText)], key: &str) -> Option<&'a AttributeText> {
    item.iter().find(|(k, _)| k == key).map(|(_, v)| v)
}

fn s(a: Option<&AttributeText>) -> Option<&str> {
    match a {
        Some(AttributeText::S(x)) => Some(x.as_str()),
        _ => None,
    }
}

fn n(a: Option<&AttributeText>) -> Option<&str> {
    match a {
        Some(AttributeText::N(x)) => Some(x.as_str()),
        _ => None,
    }
}

#[test]
fn conditions_per_operator() {
    let store = DynamoDBTemporal::new("t".to_string());
    assert_eq!(store.build_condition("#a", &PropertyOperator::Equal, ":v"), "#a = :v");
    assert_eq!(store.build_condition("#a", &PropertyOperator::NotEqual, ":v"), "#a <> :v");
    assert_eq!(store.build_condition("#a", &PropertyOperator::In, ":v"), "#a IN (:v)");
    assert_eq!(store.build_condition("#a", &PropertyOperator::NotIn, ":v"), "NOT #a IN (:v)");
    assert_eq!(
        store.build_condition("#a", &PropertyOperator::StartsWith, ":v"),
        "begins_with(#a, :v)"
    );
    assert_eq!(store.table_name(), "t");
}

#[test]
fn relationship_query_copies_conditions() {
    let store = DynamoDBTemporal::new("rel".to_string());
    let q = OptimizedQuery::new("other".to_string())
        .with_key_condition("k".to_string())
        .with_filter("f".to_string())
        .with_limit(5);
    let r = store.build_relationship_query(&q).unwrap();
    assert_eq!(r.table_name, "rel");
    assert_eq!(r.key_condition.as_deref(), Some("k"));
    assert_eq!(r.filter_expression.as_deref(), Some("f"));
    assert_eq!(r.limit, None);
}

#[test]
fn relationship_lookups_follow_sources_then_targets() {
    let store = DynamoDBTemporal::new("t".to_string());
    let filter = RelationshipFilter {
        relationship_type: "KNOWS".to_string(),
        direction: RelationshipDirection::Outgoing,
        target_entity_type: None,
        property_filters: Vec::new(),
    };
    let items = vec![
        (Some("a".to_string()), Some("b".to_string())),
        (None, Some("c".to_string())),
    ];
    let queries = store.relationship_lookups(&filter, &items);
    let ids: Vec<String> = queries
        .iter()
        .map(|q| match member(q.expression_values.as_ref().unwrap(), ":entity_id") {
            Some(JsonValue::Str(x)) => x.clone(),
            _ => String::new(),
        })
        .collect();
    assert_eq!(ids, vec!["a", "b", "c"]);
    assert_eq!(queries[0].key_condition.as_deref(), Some("entity_id = :entity_id"));
    let mut distinct = related_entity_ids(&vec![
        (Some("a".to_string()), Some("b".to_string())),
        (Some("b".to_string()), Some("a".to_string())),
    ]);
    distinct.sort();
    assert_eq!(distinct, vec!["a", "b"]);
}

#[test]
fn filter_queries_need_an_entity_and_a_time() {
    let store = DynamoDBTemporal::new("t".to_string());
    let filter = PropertyFilter {
        property_name: "age".to_string(),
        operator: PropertyOperator::GreaterThan,
        value: JsonValue::Number("3".to_string()),
    };
    let no_entity = TemporalQueryBuilder::new().at(1);
    assert!(matches!(
        store.property_filter_query(&no_entity, &filter),
        Err(Error::InvalidQueryFormat(ref m)) if m == "Entity ID is required for property filters"
    ));
    let no_time = TemporalQueryBuilder::new().entity_id(EntityId::new(EntityType::Node, "e".to_string()));
    assert!(matches!(
        store.relationship_filter_instant(&no_time),
        Err(Error::InvalidQueryFormat(ref m)) if m == "Either point_in_time or time_range must be specified"
    ));
    let ok = no_time.between(5, 9).unwrap();
    let (q, t) = store.property_filter_query(&ok, &filter).unwrap();
    assert_eq!(t, 5);
    assert_eq!(q.filter_expression.as_deref(), Some("#age > :propertyValue"));
    assert!(matches!(
        member(q.expression_values.as_ref().unwrap(), ":entity_id"),
        Some(JsonValue::Str(x)) if x == "e"
    ));
}

#[test]
fn evolution_query_and_items() {
    let store = DynamoDBTemporal::new("t".to_string());
    let id = EntityId::new(EntityType::Node, "e".to_string());
    let open = TemporalRange { start: Some(Timestamp(0)), end: None };
    assert!(matches!(
        store.evolution_query(&id, &open),
        Err(Error::InvalidTemporalRange(ref m)) if m == "Missing range end"
    ));
    let range = TemporalRange {
        start: Some(Timestamp(1_000_000_000)),
        end: Some(Timestamp(4_500_000_000)),
    };
    let q = store.evolution_query(&id, &range).unwrap();
    assert_eq!(
        q.key_condition.as_deref(),
        Some("entity_id = :eid AND valid_time_start BETWEEN :start AND :end")
    );
    assert!(matches!(
        member(q.expression_values.as_ref().unwrap(), ":end"),
        Some(JsonValue::Str(x)) if x == "4"
    ));
    let item = store.version_item(&id, &open, "{}".to_string(), 1, 7_000_000_000);
    assert_eq!(s(attr(&item, "entity_id")), Some("e"));
    assert_eq!(n(attr(&item, "valid_time_start")), Some("0"));
    assert_eq!(n(attr(&item, "valid_time_end")), Some("7"));
    assert_eq!(s(attr(&item, "version_id")), Some("00000000-0000-0000-0000-000000000001"));
    assert!(store.check_store_range(&open).is_err());
    assert!(store.check_store_range(&range).is_ok());
    let record = store.store_item(&id, &range, "{}".to_string(), 2, 0).unwrap();
    assert_eq!(s(attr(&record, "valid_time_start")), Some("1970-01-01T00:00:01+00:00"));
    assert_eq!(s(attr(&record, "entity_type")), Some("Node"));
}

#[test]
fn expression_attributes() {
    let values = JsonValue::Object(vec![
        (":a".to_string(), JsonValue::Str("x".to_string())),
        (":b".to_string(), JsonValue::Number("2".to_string())),
        (":c".to_string(), JsonValue::Bool(true)),
    ]);
    let typed = typed_expression_attributes(&values).unwrap();
    assert_eq!(typed.len(), 2);
    assert_eq!(s(attr(&typed, ":a")), Some("x"));
    assert_eq!(n(attr(&typed, ":b")), Some("2"));
    assert!(typed_expression_attributes(&JsonValue::Null).is_none());
    let strings = string_expression_attributes(&values);
    assert_eq!(strings.len(), 3);
    assert_eq!(s(attr(&strings, ":b")), Some(""));
}

#[test]
fn versions_are_read_back() {
    let text = AttributeText::S("00000000-0000-0000-0000-00000000002a".to_string());
    assert_eq!(version_or_fresh(Some(&text)), 42);
    let bad = AttributeText::S("not a uuid".to_string());
    let a = version_or_fresh(Some(&bad));
    let b = version_or_fresh(None);
    assert_ne!(a, b);
}
