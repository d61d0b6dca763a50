use chrono::{DateTime, Duration, Utc};
use graph::types::{EntityId, EntityType, TemporalMetadata, TemporalRange, Timestamp};

fn nanos(t: DateTime<Utc>) -> i128 {
    t.timestamp() as i128 * 1_000_000_000 + t.timestamp_subsec_nanos() as i128
}

#[test]
fn test_entity_id() {
    let id1 = EntityId::new(EntityType::Node, "test1".to_string());
    let id2 = EntityId::new(EntityType::Node, "test2".to_string());
    assert_ne!(id1, id2);
}

#[test]
fn test_timestamp() {
    let now = nanos(Utc::now());
    let ts = Timestamp::from_datetime(now);
    assert_eq!(ts.0, now);
}

#[test]
fn test_temporal_range() {
    let now = Utc::now();
    let later = now + Duration::hours(1);

    let range = TemporalRange::new(Some(Timestamp(nanos(now))), Some(Timestamp(nanos(later))));

    assert!(range.contains(&nanos(now)));
    assert!(range.contains(&nanos(later)));
    assert!(!range.contains(&nanos(later + Duration::hours(1))));
}

#[test]
fn test_temporal_metadata() {
    let entity_id = EntityId::new(EntityType::Node, "test".to_string());
    let range = TemporalRange::from_now();

    let mut metadata = TemporalMetadata::new(entity_id.clone(), range);
    let original_version = metadata.version_id;

    metadata.touch();

    assert_eq!(metadata.entity_id, entity_id);
    assert_ne!(metadata.version_id, original_version);
    assert!(metadata.modified_at.0 >= metadata.created_at.0);
}

#[test]
fn entity_ids_of_different_types_differ() {
    let a = EntityId::new(EntityType::Node, "x".to_string());
    let b = EntityId::new(EntityType::Edge, "x".to_string());
    assert_ne!(a, b);
    assert_eq!(a, EntityId::new(EntityType::Node, "x".to_string()));
}

#[test]
fn entity_type_text_round_trip() {
    assert_eq!(EntityType::Person.to_string(), "Person");
    assert_eq!(EntityType::Custom("Widget".to_string()).to_string(), "Widget");
    assert_eq!(EntityType::from_str("person").unwrap(), EntityType::Person);
    assert_eq!(
        EntityType::from_str("Gadget").unwrap(),
        EntityType::Custom("gadget".to_string())
    );
}

#[test]
fn unbounded_range_contains_everything() {
    let r = TemporalRange::unbounded();
    assert!(r.contains(&0));
    assert!(r.contains(&i128::MIN));
    assert!(r.contains(&i128::MAX));
}

#[test]
fn ranges_overlap_iff_they_share_an_instant() {
    let a = TemporalRange::new(Some(Timestamp(0)), Some(Timestamp(10)));
    let b = TemporalRange::new(Some(Timestamp(10)), Some(Timestamp(20)));
    let c = TemporalRange::new(Some(Timestamp(11)), None);
    assert!(a.overlaps(&b) && b.overlaps(&a));
    assert!(!a.overlaps(&c) && !c.overlaps(&a));
    assert!(b.overlaps(&c));
}
