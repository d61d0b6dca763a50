use graph::error::Error;
use graph::json::JsonValue;
use graph::temporal::dynamodb::{AttributeText, DynamoDBTemporal};
use graph::temporal::records::{
    attribute, index_entry_times_fit, required_data, version_stamp, version_stamp_fits,
};
use graph::types::{EntityId, EntityType, TemporalRange, Timestamp};

const SECOND: i128 = 1_000_000_000;
const VERSION: &str = "0b1c2d3e-0000-4000-8000-00000000abcd";

fn n(k: &str, v: &str) -> (String, AttributeText) {
    (k.to_string(), AttributeText::N(v.to_string()))
}

fn s(k: &str, v: &str) -> (String, AttributeText) {
    (k.to_string(), AttributeText::S(v.to_string()))
}

fn entity() -> EntityId {
    EntityId::new(EntityType::Node, "n-1".to_string())
}

fn serialization(r: Result<impl std::fmt::Debug, Error>) -> String {
    match r {
        Err(Error::Serialization(m)) => m,
        other => panic!("unexpected {:?}", other),
    }
}

#[test]
fn index_entry_from_item() {
    let store = DynamoDBTemporal::new("t".to_string());
    let attrs = vec![
        n("valid_time_start", "10"),
        n("valid_time_end", "+20"),
        n("transaction_time_start", "-5"),
        s("version_id", VERSION),
    ];
    let e = store.create_index_entry(entity(), &attrs).unwrap();
    assert_eq!(e.entity_id.id, "n-1");
    assert_eq!(e.valid_time_start, 10 * SECOND);
    assert_eq!(e.valid_time_end, 20 * SECOND);
    assert_eq!(e.transaction_time_start, -5 * SECOND);
    assert_eq!(e.transaction_time_end, None);
    assert_eq!(e.version_id, uuid::Uuid::parse_str(VERSION).unwrap().as_u128());
}

#[test]
fn index_entry_keeps_transaction_end() {
    let store = DynamoDBTemporal::new("t".to_string());
    let attrs = vec![
        n("valid_time_start", "1"),
        n("valid_time_end", "2"),
        n("transaction_time_start", "3"),
        n("transaction_time_end", "4"),
        s("version_id", VERSION),
    ];
    let e = store.create_index_entry(entity(), &attrs).unwrap();
    assert_eq!(e.transaction_time_end, Some(4 * SECOND));
}

#[test]
fn index_entry_refusals_in_order() {
    let store = DynamoDBTemporal::new("t".to_string());
    let none: Vec<(String, AttributeText)> = vec![];
    assert_eq!(serialization(store.create_index_entry(entity(), &none)), "Missing valid_time_start");
    let text_start = vec![s("valid_time_start", "10")];
    assert_eq!(serialization(store.create_index_entry(entity(), &text_start)), "Missing valid_time_start");
    let bad_number = vec![n("valid_time_start", "1_0")];
    assert_eq!(serialization(store.create_index_entry(entity(), &bad_number)), "Missing valid_time_start");
    let no_end = vec![n("valid_time_start", "1")];
    assert_eq!(serialization(store.create_index_entry(entity(), &no_end)), "Missing valid_time_end");
    let no_tx = vec![n("valid_time_start", "1"), n("valid_time_end", "2")];
    assert_eq!(serialization(store.create_index_entry(entity(), &no_tx)), "Missing transaction_time_start");
    let bad_version = vec![
        n("valid_time_start", "1"),
        n("valid_time_end", "2"),
        n("transaction_time_start", "3"),
        s("version_id", "v1"),
    ];
    assert_eq!(serialization(store.create_index_entry(entity(), &bad_version)), "Missing version_id");
}

#[test]
fn first_attribute_with_a_name_wins() {
    let attrs = vec![s("a", "1"), s("a", "2")];
    assert!(matches!(attribute(&attrs, "a"), Some(AttributeText::S(v)) if v == "1"));
    assert!(attribute(&attrs, "b").is_none());
}

#[test]
fn data_is_required() {
    let attrs = vec![s("data", "{}")];
    assert!(matches!(required_data(&attrs), Ok(AttributeText::S(v)) if v == "{}"));
    let none: Vec<(String, AttributeText)> = vec![];
    assert_eq!(serialization(required_data(&none)), "Missing data");
}

#[test]
fn version_stamp_reads_start_and_version() {
    let attrs = vec![n("valid_time_start", "42"), s("version_id", VERSION)];
    let (t, v) = version_stamp(&attrs).unwrap();
    assert_eq!(t, 42 * SECOND);
    assert_eq!(v, uuid::Uuid::parse_str(VERSION).unwrap().as_u128());
    let no_version = vec![n("valid_time_start", "42")];
    assert_eq!(serialization(version_stamp(&no_version)), "Missing version_id");
    let no_start = vec![s("version_id", VERSION)];
    assert_eq!(serialization(version_stamp(&no_start)), "Missing valid_time_start");
}

fn scanned(fields: &[(&str, &str)]) -> JsonValue {
    JsonValue::Object(
        fields
            .iter()
            .map(|(k, v)| (k.to_string(), JsonValue::Str(v.to_string())))
            .collect(),
    )
}

fn full_item() -> Vec<(&'static str, &'static str)> {
    vec![
        ("entity_id", "e-1"),
        ("entity_type", "PERSON"),
        ("valid_time_start", "2024-01-01T00:00:00Z"),
        ("valid_time_end", "2024-01-01T01:00:00+01:00"),
        ("transaction_time_start", "1970-01-01T00:00:01.5Z"),
        ("version_id", VERSION),
    ]
}

#[test]
fn scanned_items_become_entries() {
    let store = DynamoDBTemporal::new("t".to_string());
    let entries = store.get_all_entries(&vec![scanned(&full_item())]).unwrap();
    assert_eq!(entries.len(), 1);
    let e = &entries[0];
    assert_eq!(e.entity_id.id, "e-1");
    assert!(matches!(e.entity_id.entity_type, EntityType::Person));
    let jan1 = chrono::DateTime::parse_from_rfc3339("2024-01-01T00:00:00Z").unwrap().timestamp() as i128;
    assert_eq!(e.valid_time_start, jan1 * SECOND);
    assert_eq!(e.valid_time_end, jan1 * SECOND);
    assert_eq!(e.transaction_time_start, SECOND + SECOND / 2);
    assert_eq!(e.transaction_time_end, None);
}

#[test]
fn scanned_item_refusals() {
    let store = DynamoDBTemporal::new("t".to_string());
    let mut item = full_item();
    item.retain(|(k, _)| *k != "entity_type");
    assert_eq!(serialization(store.get_all_entries(&vec![scanned(&item)])), "Missing entity_type");

    let mut item = full_item();
    item[5] = ("version_id", "nope");
    let expected = uuid::Uuid::parse_str("nope").unwrap_err().to_string();
    assert_eq!(serialization(store.get_all_entries(&vec![scanned(&item)])), expected);

    let mut item = full_item();
    item[3] = ("valid_time_end", "yesterday");
    let expected = format!("{:?}", chrono::DateTime::parse_from_rfc3339("yesterday").unwrap_err());
    assert_eq!(serialization(store.get_all_entries(&vec![scanned(&item)])), expected);

    let good = scanned(&full_item());
    let bad = JsonValue::Null;
    assert_eq!(serialization(store.get_all_entries(&vec![good, bad])), "Missing entity_id");
    assert!(store.get_all_entries(&vec![]).unwrap().is_empty());
}

#[test]
fn calendar_bounds_of_items() {
    let fine = vec![
        n("valid_time_start", "1"),
        n("valid_time_end", "2"),
        n("transaction_time_start", "3"),
        n("transaction_time_end", "4"),
        s("version_id", VERSION),
    ];
    assert!(index_entry_times_fit(&fine));
    let far_end = vec![
        n("valid_time_start", "1"),
        n("valid_time_end", "2"),
        n("transaction_time_start", "3"),
        n("transaction_time_end", "9223372036854775807"),
    ];
    assert!(!index_entry_times_fit(&far_end));
    // Without a version the three required times are never turned into date-times.
    let far_start_no_version = vec![
        n("valid_time_start", "-9223372036854775808"),
        n("valid_time_end", "2"),
        n("transaction_time_start", "3"),
    ];
    assert!(index_entry_times_fit(&far_start_no_version));
    assert!(version_stamp_fits(&vec![n("valid_time_start", "5")]));
    assert!(!version_stamp_fits(&vec![n("valid_time_start", "9223372036854775807")]));
    assert!(version_stamp_fits(&vec![]));
}

fn as_scanned(attrs: Vec<(String, AttributeText)>) -> JsonValue {
    JsonValue::Object(
        attrs
            .into_iter()
            .map(|(k, v)| match v {
                AttributeText::S(t) => (k, JsonValue::Str(t)),
                AttributeText::N(t) => (k, JsonValue::Number(t)),
            })
            .collect(),
    )
}

#[test]
fn stored_version_reads_back_from_a_scan() {
    let store = DynamoDBTemporal::new("t".to_string());
    let start = 1_700_000_000 * SECOND + 123_456_789;
    let end = 1_700_003_600 * SECOND;
    let now = 1_700_000_500 * SECOND + 5_000_000;
    let version = uuid::Uuid::parse_str(VERSION).unwrap().as_u128();
    let range = TemporalRange { start: Some(Timestamp(start)), end: Some(Timestamp(end)) };
    let item = store.store_item(&entity(), &range, "{}".to_string(), version, now).unwrap();
    let entries = store.get_all_entries(&vec![as_scanned(item)]).unwrap();
    assert_eq!(entries.len(), 1);
    let e = &entries[0];
    assert_eq!(e.entity_id.id, "n-1");
    assert!(matches!(e.entity_id.entity_type, EntityType::Node));
    assert_eq!(e.valid_time_start, start);
    assert_eq!(e.valid_time_end, end);
    assert_eq!(e.transaction_time_start, now);
    assert_eq!(e.transaction_time_end, None);
    assert_eq!(e.version_id, version);
}
