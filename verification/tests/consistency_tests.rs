use chrono::{DateTime, Duration, Utc};
use graph::error::Error;
use graph::temporal::{ConsistencyChecker, ConsistencyViolationType, TemporalIndexEntry};
use graph::types::{EntityId, EntityType};

fn nanos(t: DateTime<Utc>) -> i128 {
    t.timestamp() as i128 * 1_000_000_000 + t.timestamp_subsec_nanos() as i128
}

fn create_test_entry(
    entity_id: EntityId,
    valid_start: i128,
    valid_end: i128,
    transaction_start: i128,
    transaction_end: Option<i128>,
) -> TemporalIndexEntry {
    let mut e = TemporalIndexEntry::new(entity_id, valid_start, valid_end, transaction_start);
    e.transaction_time_end = transaction_end;
    e
}

#[test]
fn consistency_test_temporal_overlap_detection() {
    let checker = ConsistencyChecker::new();
    let now = Utc::now();
    let entity_id = EntityId::new(EntityType::Node, "test-node".to_string());

    let entries = vec![
        create_test_entry(entity_id.clone(), nanos(now), nanos(now + Duration::hours(1)), nanos(now), None),
        create_test_entry(
            entity_id.clone(),
            nanos(now + Duration::minutes(30)),
            nanos(now + Duration::hours(2)),
            nanos(now),
            None,
        ),
    ];

    let result = checker.check_consistency(&entries).unwrap();
    assert!(!result.passed);
    assert_eq!(result.violations.len(), 1);
    assert!(matches!(
        result.violations[0].violation_type,
        ConsistencyViolationType::TemporalOverlap
    ));
}

#[test]
fn test_temporal_gap_detection() {
    let checker = ConsistencyChecker::new();
    let now = Utc::now();
    let entity_id = EntityId::new(EntityType::Node, "test-node".to_string());

    let entries = vec![
        create_test_entry(entity_id.clone(), nanos(now), nanos(now + Duration::hours(1)), nanos(now), None),
        create_test_entry(
            entity_id.clone(),
            nanos(now + Duration::hours(2)),
            nanos(now + Duration::hours(3)),
            nanos(now),
            None,
        ),
    ];

    let result = checker.check_consistency(&entries).unwrap();
    assert!(!result.passed);
    assert_eq!(result.violations.len(), 1);
    assert!(matches!(
        result.violations[0].violation_type,
        ConsistencyViolationType::TemporalGap
    ));
}

#[test]
fn test_transaction_time_consistency() {
    let checker = ConsistencyChecker::new();
    let now = Utc::now();
    let entity_id = EntityId::new(EntityType::Node, "test-node".to_string());

    let entries = vec![create_test_entry(
        entity_id.clone(),
        nanos(now),
        nanos(now + Duration::hours(1)),
        nanos(now),
        Some(nanos(now - Duration::hours(1))),
    )];

    let result = checker.check_consistency(&entries).unwrap();
    assert!(!result.passed);
    assert_eq!(result.violations.len(), 1);
    assert!(matches!(
        result.violations[0].violation_type,
        ConsistencyViolationType::TransactionTimeInconsistency
    ));
}

#[test]
fn test_range_validation() {
    let mut checker = ConsistencyChecker::new();
    let now = Utc::now();
    let entity_id = EntityId::new(EntityType::Node, "test-node".to_string());

    assert!(checker
        .validate_range(&entity_id, nanos(now), nanos(now + Duration::hours(1)))
        .is_ok());
    assert!(checker
        .validate_range(
            &entity_id,
            nanos(now + Duration::minutes(30)),
            nanos(now + Duration::hours(2)),
        )
        .is_err());
    assert!(checker
        .validate_range(&entity_id, nanos(now + Duration::hours(1)), nanos(now))
        .is_err());
}

#[test]
fn validated_ranges_are_per_entity_and_cleared() {
    let mut checker = ConsistencyChecker::new();
    let a = EntityId::new(EntityType::Node, "a".to_string());
    let b = EntityId::new(EntityType::Node, "b".to_string());
    checker.validate_range(&a, 0, 10).unwrap();
    // The same span for another entity is accepted.
    checker.validate_range(&b, 0, 10).unwrap();
    // Touching ends count as meeting.
    assert!(matches!(
        checker.validate_range(&a, 10, 20),
        Err(Error::TemporalOverlap(_))
    ));
    checker.clear_validated_ranges(&a);
    checker.validate_range(&a, 5, 8).unwrap();
    assert!(checker.validate_range(&b, 9, 12).is_err());
    assert!(matches!(
        checker.validate_range(&a, 3, 3),
        Err(Error::InvalidTemporalRange(_))
    ));
}

#[test]
fn consistent_versions_pass() {
    let checker = ConsistencyChecker::new();
    let id = EntityId::new(EntityType::Node, "n".to_string());
    let entries = vec![
        create_test_entry(id.clone(), 0, 10, 0, None),
        create_test_entry(id.clone(), 10, 20, 0, None),
        create_test_entry(id.clone(), 5, 30, 0, Some(1)),
    ];
    let result = checker.check_consistency(&entries).unwrap();
    // Consecutive versions that touch leave no gap; touching ends do overlap.
    assert_eq!(result.violations.len(), 1);
    assert!(matches!(
        result.violations[0].violation_type,
        ConsistencyViolationType::TemporalOverlap
    ));
    let clean = vec![create_test_entry(id.clone(), 0, 10, 0, None)];
    assert!(checker.check_consistency(&clean).unwrap().passed);
}

#[test]
fn invalid_bounds_are_reported() {
    let checker = ConsistencyChecker::new();
    let id = EntityId::new(EntityType::Node, "n".to_string());
    let entries = vec![create_test_entry(id.clone(), 10, 10, 5, Some(5))];
    let result = checker.check_consistency(&entries).unwrap();
    let kinds: Vec<ConsistencyViolationType> =
        result.violations.iter().map(|v| v.violation_type).collect();
    assert_eq!(
        kinds,
        vec![
            ConsistencyViolationType::TransactionTimeInconsistency,
            ConsistencyViolationType::InvalidRange
        ]
    );
}
