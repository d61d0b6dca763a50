use chrono::{DateTime, Duration, Utc};
use graph::error::Error;
use graph::temporal::{TemporalIndex, TemporalIndexEntry};
use graph::types::{EntityId, EntityType, TemporalRange, Timestamp};

fn nanos(t: DateTime<Utc>) -> i128 {
    t.timestamp() as i128 * 1_000_000_000 + t.timestamp_subsec_nanos() as i128
}

fn node(id: &str) -> EntityId {
    EntityId::new(EntityType::Node, id.to_string())
}

#[test]
fn test_add_and_get_entry() {
    let mut index = TemporalIndex::new();
    let now = Utc::now();
    let entity_id = node("test-node");

    let entry = TemporalIndexEntry::new(
        entity_id.clone(),
        nanos(now),
        nanos(now + Duration::hours(1)),
        nanos(now),
    );

    index.add_entry(entry.clone()).unwrap();

    let result = index.get_at(&entity_id, &nanos(now)).unwrap();
    assert_eq!(result.len(), 1);
    assert_eq!(result[0].version_id, entry.version_id);
}

#[test]
fn index_test_temporal_overlap_detection() {
    let mut index = TemporalIndex::new();
    let now = Utc::now();
    let entity_id = node("test-node");

    let entry1 = TemporalIndexEntry::new(
        entity_id.clone(),
        nanos(now),
        nanos(now + Duration::hours(1)),
        nanos(now),
    );
    let entry2 = TemporalIndexEntry::new(
        entity_id.clone(),
        nanos(now + Duration::minutes(30)),
        nanos(now + Duration::hours(2)),
        nanos(now),
    );

    index.add_entry(entry1).unwrap();
    let result = index.add_entry(entry2);

    assert!(result.is_err());
    assert!(matches!(result.unwrap_err(), Error::TemporalOverlap(_)));
}

#[test]
fn test_get_between() {
    let mut index = TemporalIndex::new();
    let now = Utc::now();
    let entity_id = node("test-node");

    let entry = TemporalIndexEntry::new(
        entity_id.clone(),
        nanos(now),
        nanos(now + Duration::hours(1)),
        nanos(now),
    );
    index.add_entry(entry).unwrap();

    let result = index
        .get_between(
            &entity_id,
            &nanos(now + Duration::minutes(30)),
            &nanos(now + Duration::minutes(45)),
        )
        .unwrap();
    assert_eq!(result.len(), 1);
}

#[test]
fn test_get_evolution() {
    let mut index = TemporalIndex::new();
    let now = Utc::now();
    let entity_id = node("test-node");

    let entry1 = TemporalIndexEntry::new(
        entity_id.clone(),
        nanos(now),
        nanos(now + Duration::hours(1)),
        nanos(now),
    );
    let entry2 = TemporalIndexEntry::new(
        entity_id.clone(),
        nanos(now + Duration::hours(2)),
        nanos(now + Duration::hours(3)),
        nanos(now),
    );
    index.add_entry(entry1).unwrap();
    index.add_entry(entry2).unwrap();

    let range = TemporalRange {
        start: Some(Timestamp(nanos(now))),
        end: Some(Timestamp(nanos(now + Duration::hours(3)))),
    };
    let result = index.get_evolution(&entity_id, &range).unwrap();
    assert_eq!(result.len(), 2);
}

#[test]
fn test_supersede() {
    let mut index = TemporalIndex::new();
    let now = Utc::now();
    let entity_id = node("test-node");

    let entry = TemporalIndexEntry::new(
        entity_id.clone(),
        nanos(now),
        nanos(now + Duration::hours(1)),
        nanos(now),
    );
    let version_id = entry.version_id;
    index.add_entry(entry).unwrap();

    index
        .supersede(&entity_id, &version_id, nanos(now + Duration::hours(2)))
        .unwrap();

    let entry = index
        .entries()
        .iter()
        .find(|e| e.entity_id == entity_id && e.version_id == version_id)
        .unwrap();
    assert!(entry.transaction_time_end.is_some());
    assert_eq!(entry.transaction_time_end.unwrap(), nanos(now + Duration::hours(2)));
}

#[test]
fn superseded_version_is_no_longer_visible() {
    let mut index = TemporalIndex::new();
    let id = node("n");
    let entry = TemporalIndexEntry::new(id.clone(), 0, 100, 0);
    let version = entry.version_id;
    index.add_entry(entry).unwrap();
    assert_eq!(index.get_at(&id, &50).unwrap().len(), 1);
    index.supersede(&id, &version, 200).unwrap();
    assert_eq!(index.get_at(&id, &50).unwrap().len(), 0);
    // A superseded version no longer blocks a new one over the same time.
    index.add_entry(TemporalIndexEntry::new(id.clone(), 0, 100, 200)).unwrap();
    assert_eq!(index.get_at(&id, &50).unwrap().len(), 1);
}

#[test]
fn supersede_reports_unknown_entity_and_version() {
    let mut index = TemporalIndex::new();
    let id = node("n");
    assert!(matches!(
        index.supersede(&id, &7, 10),
        Err(Error::EntityNotFound(_))
    ));
    index.add_entry(TemporalIndexEntry::new(id.clone(), 0, 10, 0)).unwrap();
    assert!(matches!(
        index.supersede(&id, &7, 10),
        Err(Error::VersionNotFound(_))
    ));
}

#[test]
fn evolution_is_ordered_by_start() {
    let mut index = TemporalIndex::new();
    let id = node("n");
    index.add_entry(TemporalIndexEntry::new(id.clone(), 30, 40, 0)).unwrap();
    index.add_entry(TemporalIndexEntry::new(id.clone(), 10, 20, 0)).unwrap();
    index.add_entry(TemporalIndexEntry::new(node("other"), 0, 50, 0)).unwrap();
    let range = TemporalRange { start: Some(Timestamp(0)), end: Some(Timestamp(50)) };
    let evolution = index.get_evolution(&id, &range).unwrap();
    let starts: Vec<i128> = evolution.iter().map(|e| e.valid_time_start).collect();
    assert_eq!(starts, vec![10, 30]);
    let latest = index.get_latest(&id).unwrap().unwrap();
    assert_eq!(latest.valid_time_start, 30);
}

#[test]
fn version_containing_a_current_one_is_refused() {
    let mut index = TemporalIndex::new();
    let id = node("n");
    index.add_entry(TemporalIndexEntry::new(id.clone(), 10, 20, 0)).unwrap();
    let wider = index.add_entry(TemporalIndexEntry::new(id.clone(), 5, 25, 0));
    assert!(matches!(wider, Err(Error::TemporalOverlap(_))));
    let inside = index.add_entry(TemporalIndexEntry::new(id.clone(), 12, 18, 0));
    assert!(matches!(inside, Err(Error::TemporalOverlap(_))));
    let touching = index.add_entry(TemporalIndexEntry::new(id.clone(), 20, 30, 0));
    assert!(matches!(touching, Err(Error::TemporalOverlap(_))));
    index.add_entry(TemporalIndexEntry::new(id.clone(), 21, 30, 0)).unwrap();
    index.add_entry(TemporalIndexEntry::new(node("other"), 5, 25, 0)).unwrap();
    assert_eq!(index.entries().len(), 3);
}
